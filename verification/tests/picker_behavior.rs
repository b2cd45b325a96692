use picker_core::PickerError;
use picker_core::layout::{BorderStyle, Geometry, PopupWindowOptions, Ratio, ScreenSize};
use picker_core::picker::{
    EditablePickerOpenResult, EditablePickerOptions, PickerOptions, open_editable_session,
    open_readonly_session,
};
use picker_core::session::{PickerEvent, SessionState, StepOutcome};
use picker_core::surface::{Surface, SurfaceRole};

fn screen() -> ScreenSize {
    ScreenSize { width: 100, height: 50 }
}

fn auto_opts() -> PopupWindowOptions {
    PopupWindowOptions {
        border: BorderStyle::Rounded,
        window_width_ratio: None,
        window_height_ratio: None,
        auto_width: true,
        auto_height: true,
    }
}

fn editable(items: Vec<String>) -> EditablePickerOptions {
    EditablePickerOptions {
        title: String::from("Project Command"),
        window_opts: auto_opts(),
        list: items,
    }
}

fn strings(items: &[&str]) -> Vec<String> {
    items.iter().map(|s| String::from(*s)).collect()
}

fn lines_of(surface: &Surface) -> Vec<String> {
    surface.lines.clone()
}

#[test]
fn open_editable_builds_three_surfaces() {
    let opts = editable(strings(&["a.sh", "b.sh"]));
    let (session, layout) = open_editable_session(&opts, &screen()).unwrap();
    assert!(matches!(session.state, SessionState::Active));
    assert_eq!(session.cursor_row, 1);
    assert!(matches!(session.title_surface.role, SurfaceRole::Title));
    assert!(matches!(session.input_surface.role, SurfaceRole::Input));
    assert!(matches!(session.list_surface.role, SurfaceRole::List));
    assert_eq!(lines_of(&session.title_surface), strings(&["Project Command"]));
    assert_eq!(lines_of(&session.input_surface), strings(&[""]));
    assert_eq!(lines_of(&session.list_surface), strings(&["a.sh", "b.sh"]));
    assert_eq!(session.list_surface.geometry.height, layout.list.height);
    assert_eq!(layout.list.height, 2);
}

#[test]
fn open_rejects_zero_ratio() {
    let mut opts = editable(strings(&["a"]));
    opts.window_opts.window_width_ratio = Some(Ratio::new(0, 2));
    let err = open_editable_session(&opts, &screen()).err().unwrap();
    assert_eq!(err, PickerError::InvalidLayout);
}

#[test]
fn open_rejects_ratio_above_one() {
    let mut opts = editable(strings(&["a"]));
    opts.window_opts.window_height_ratio = Some(Ratio::new(3, 2));
    let err = open_editable_session(&opts, &screen()).err().unwrap();
    assert_eq!(err, PickerError::InvalidLayout);
}

#[test]
fn readonly_open_rejects_invalid_ratio() {
    let opts = PickerOptions {
        window_opts: PopupWindowOptions {
            border: BorderStyle::Borderless,
            window_width_ratio: Some(Ratio::new(5, 4)),
            window_height_ratio: None,
            auto_width: false,
            auto_height: false,
        },
        list: strings(&["a"]),
    };
    assert_eq!(open_readonly_session(&opts, &screen()).err().unwrap(), PickerError::InvalidLayout);
}

#[test]
fn cursor_down_advances_and_copies_item() {
    let opts = editable(strings(&["a.sh", "b.sh", "c.sh"]));
    let (mut session, _) = open_editable_session(&opts, &screen()).unwrap();
    let outcome = session.handle_event(PickerEvent::CursorDown);
    assert!(matches!(outcome, StepOutcome::Pending));
    assert_eq!(session.cursor_row, 2);
    assert_eq!(lines_of(&session.input_surface), strings(&["b.sh"]));
}

#[test]
fn cursor_down_is_a_no_op_at_the_last_row() {
    let opts = editable(strings(&["a.sh", "b.sh"]));
    let (mut session, _) = open_editable_session(&opts, &screen()).unwrap();
    session.handle_event(PickerEvent::CursorDown);
    assert_eq!(session.cursor_row, 2);
    session.handle_event(PickerEvent::CursorDown);
    assert_eq!(session.cursor_row, 2);
    assert_eq!(lines_of(&session.input_surface), strings(&["b.sh"]));
}

#[test]
fn cursor_up_retreats_and_copies_item() {
    let opts = editable(strings(&["a.sh", "b.sh", "c.sh"]));
    let (mut session, _) = open_editable_session(&opts, &screen()).unwrap();
    session.handle_event(PickerEvent::CursorDown);
    session.handle_event(PickerEvent::CursorDown);
    assert_eq!(session.cursor_row, 3);
    session.handle_event(PickerEvent::CursorUp);
    assert_eq!(session.cursor_row, 2);
    assert_eq!(lines_of(&session.input_surface), strings(&["b.sh"]));
}

#[test]
fn cursor_up_is_a_no_op_at_the_first_row() {
    let opts = editable(strings(&["a.sh"]));
    let (mut session, _) = open_editable_session(&opts, &screen()).unwrap();
    let outcome = session.handle_event(PickerEvent::CursorUp);
    assert!(matches!(outcome, StepOutcome::Pending));
    assert_eq!(session.cursor_row, 1);
}

#[test]
fn cursor_moves_ignore_an_empty_list() {
    let opts = editable(Vec::new());
    let (mut session, _) = open_editable_session(&opts, &screen()).unwrap();
    session.handle_event(PickerEvent::CursorDown);
    session.handle_event(PickerEvent::CursorUp);
    assert_eq!(session.cursor_row, 1);
}

#[test]
fn commit_of_fresh_text_appends_it_once() {
    let opts = editable(strings(&["a.sh"]));
    let (mut session, _) = open_editable_session(&opts, &screen()).unwrap();
    session.handle_event(PickerEvent::InputEdited(String::from("make test")));
    let outcome = session.handle_event(PickerEvent::Commit);
    match outcome {
        StepOutcome::Selected(text) => assert_eq!(text, "make test"),
        other => panic!("expected a selection, got {:?}", other),
    }
    assert_eq!(session.items, strings(&["a.sh", "make test"]));
    assert!(matches!(session.state, SessionState::Closed));
    assert!(!session.title_surface.alive);
    assert!(!session.input_surface.alive);
    assert!(!session.list_surface.alive);
}

#[test]
fn commit_of_present_text_does_not_duplicate_it() {
    let opts = editable(strings(&["a.sh", "b.sh"]));
    let (mut session, _) = open_editable_session(&opts, &screen()).unwrap();
    session.handle_event(PickerEvent::InputEdited(String::from("a.sh")));
    let outcome = session.handle_event(PickerEvent::Commit);
    match outcome {
        StepOutcome::Selected(text) => assert_eq!(text, "a.sh"),
        other => panic!("expected a selection, got {:?}", other),
    }
    assert_eq!(session.items, strings(&["a.sh", "b.sh"]));
}

#[test]
fn commit_drops_blank_placeholder_lines_when_appending() {
    let opts = editable(strings(&["", "a.sh", ""]));
    let (mut session, _) = open_editable_session(&opts, &screen()).unwrap();
    session.handle_event(PickerEvent::InputEdited(String::from("b.sh")));
    session.handle_event(PickerEvent::Commit);
    assert_eq!(session.items, strings(&["a.sh", "b.sh"]));
}

#[test]
fn commit_of_empty_input_still_resolves_without_appending() {
    let opts = editable(strings(&["a.sh"]));
    let (mut session, _) = open_editable_session(&opts, &screen()).unwrap();
    let outcome = session.handle_event(PickerEvent::Commit);
    match outcome {
        StepOutcome::Selected(text) => assert_eq!(text, ""),
        other => panic!("expected a selection, got {:?}", other),
    }
    assert_eq!(session.items, strings(&["a.sh"]));
}

#[test]
fn cancel_never_selects_whatever_the_input_holds() {
    let opts = editable(strings(&["a.sh"]));
    let (mut session, _) = open_editable_session(&opts, &screen()).unwrap();
    session.handle_event(PickerEvent::InputEdited(String::from("pending text")));
    let outcome = session.handle_event(PickerEvent::Cancel);
    assert!(matches!(outcome, StepOutcome::Dismissed));
    assert_eq!(session.items, strings(&["a.sh"]));
    assert!(matches!(session.state, SessionState::Closed));
    assert!(!session.title_surface.alive);
}

#[test]
fn no_event_is_processed_once_closed() {
    let opts = editable(strings(&["a.sh"]));
    let (mut session, _) = open_editable_session(&opts, &screen()).unwrap();
    session.handle_event(PickerEvent::Cancel);
    let outcome = session.handle_event(PickerEvent::Commit);
    assert!(matches!(outcome, StepOutcome::Pending));
    assert_eq!(session.items, strings(&["a.sh"]));
    assert!(matches!(session.state, SessionState::Closed));
}

#[test]
fn scenario_two_items_down_twice_then_commit() {
    let opts = editable(strings(&["a.sh", "b.sh"]));
    let (mut session, _) = open_editable_session(&opts, &screen()).unwrap();
    session.handle_event(PickerEvent::CursorDown);
    assert_eq!(lines_of(&session.input_surface), strings(&["b.sh"]));
    session.handle_event(PickerEvent::CursorDown);
    assert_eq!(lines_of(&session.input_surface), strings(&["b.sh"]));
    let outcome = session.handle_event(PickerEvent::Commit);
    match outcome {
        StepOutcome::Selected(text) => assert_eq!(text, "b.sh"),
        other => panic!("expected a selection, got {:?}", other),
    }
    assert_eq!(session.items, strings(&["a.sh", "b.sh"]));
}

#[test]
fn scenario_empty_list_commit_of_typed_text() {
    let opts = editable(Vec::new());
    let (mut session, layout) = open_editable_session(&opts, &screen()).unwrap();
    assert_eq!(layout.list.height, 1);
    session.handle_event(PickerEvent::InputEdited(String::from("x")));
    let outcome = session.handle_event(PickerEvent::Commit);
    match outcome {
        StepOutcome::Selected(text) => assert_eq!(text, "x"),
        other => panic!("expected a selection, got {:?}", other),
    }
    assert_eq!(session.items, strings(&["x"]));
}

#[test]
fn readonly_commit_reads_the_line_under_the_cursor() {
    let opts = PickerOptions { window_opts: auto_opts(), list: strings(&["one", "two", "three"]) };
    let (mut session, geometry) = open_readonly_session(&opts, &screen()).unwrap();
    assert_eq!(geometry.height, 3);
    assert_eq!(geometry.width, 5 + 4);
    session.handle_event(PickerEvent::CursorDown);
    let outcome = session.handle_event(PickerEvent::Commit);
    match outcome {
        StepOutcome::Selected(text) => assert_eq!(text, "two"),
        other => panic!("expected a selection, got {:?}", other),
    }
    // The backing list is untouched: a read-only picker never appends.
    assert_eq!(session.items, strings(&["one", "two", "three"]));
    assert!(matches!(session.state, SessionState::Closed));
    assert!(!session.list_surface.alive);
}

#[test]
fn readonly_cancel_dismisses_without_selection() {
    let opts = PickerOptions { window_opts: auto_opts(), list: strings(&["one"]) };
    let (mut session, _) = open_readonly_session(&opts, &screen()).unwrap();
    let outcome = session.handle_event(PickerEvent::Cancel);
    assert!(matches!(outcome, StepOutcome::Dismissed));
    assert!(matches!(session.state, SessionState::Closed));
}

#[test]
fn readonly_commit_on_empty_list_selects_the_empty_line() {
    let opts = PickerOptions { window_opts: auto_opts(), list: Vec::new() };
    let (mut session, _) = open_readonly_session(&opts, &screen()).unwrap();
    let outcome = session.handle_event(PickerEvent::Commit);
    match outcome {
        StepOutcome::Selected(text) => assert_eq!(text, ""),
        other => panic!("expected a selection, got {:?}", other),
    }
}

#[test]
fn surface_destroy_is_idempotent() {
    let geometry = Geometry { row: 0, col: 0, width: 3, height: 1 };
    let mut surface = Surface::create(SurfaceRole::List, strings(&["x"]), geometry);
    assert!(surface.alive);
    surface.destroy();
    assert!(!surface.alive);
    surface.destroy();
    assert!(!surface.alive);
    assert_eq!(surface.lines, strings(&["x"]));
}

#[test]
fn set_content_degrades_to_a_no_op_on_a_destroyed_surface() {
    let geometry = Geometry { row: 0, col: 0, width: 3, height: 1 };
    let mut surface = Surface::create(SurfaceRole::Input, strings(&["before"]), geometry);
    surface.destroy();
    surface.set_content(strings(&["after"]));
    assert_eq!(surface.lines, strings(&["before"]));
}

#[test]
fn open_result_keeps_its_handles() {
    let r = EditablePickerOpenResult::new(11, 22, 33);
    assert_eq!(r.title_window_handle, 11);
    assert_eq!(r.input_window_handle, 22);
    assert_eq!(r.list_window_handle, 33);
}
