//! Opening pickers: validate the layout configuration, compute the geometry
//! and assemble a focused session over freshly created surfaces.
//!
//! The host side of an open — allocating real buffers and windows at the
//! computed geometry, arming keybindings, reporting `AllocationFailed` and
//! rolling back on a partial failure — belongs to the caller; these
//! functions hand it everything it needs as plain values.

use crate::PickerError;
use crate::layout::{
    ContentExtent, Geometry, PopupWindowOptions, Ratio, ScreenSize, StackLayout,
    compute_layout, compute_stack_layout, lemma_max_line_len_nonneg, max_content_width,
    spec_max_line_len, spec_popup_geometry, spec_stack_content_width, spec_stack_layout,
    AUTO_WIDTH_PADDING_EACH_SIDE,
};
use crate::session::{EditableSession, ReadOnlySession, SessionState};
use crate::surface::{Surface, SurfaceRole, clone_lines};
use vstd::prelude::*;

verus! {

/// What a read-only picker is opened with: its items and its sizing choices.
pub struct PickerOptions {
    pub window_opts: PopupWindowOptions,
    /// The lines shown in the list surface, in display order.
    pub list: Vec<String>,
}

/// What an editable picker is opened with: a title line, the backing item
/// list and the sizing choices.
pub struct EditablePickerOptions {
    pub title: String,
    pub window_opts: PopupWindowOptions,
    /// The backing item list, in display order.
    pub list: Vec<String>,
}

/// The three surface identities an editable open hands back to its caller
/// for optional post-processing, such as highlighting part of the title.
pub struct EditablePickerOpenResult {
    pub title_window_handle: i32,
    pub input_window_handle: i32,
    pub list_window_handle: i32,
}

impl EditablePickerOpenResult {
    pub fn new(
        title_window_handle: i32,
        input_window_handle: i32,
        list_window_handle: i32,
    ) -> (r: EditablePickerOpenResult)
        ensures
            r.title_window_handle == title_window_handle,
            r.input_window_handle == input_window_handle,
            r.list_window_handle == list_window_handle,
    {
        EditablePickerOpenResult { title_window_handle, input_window_handle, list_window_handle }
    }
}

/// Whether an optional ratio, if present, lies in (0, 1].
fn ratio_option_valid(ratio: &Option<Ratio>) -> (ok: bool)
    ensures
        ok == (ratio matches Some(r) ==> r.is_valid()),
{
    match ratio {
        Some(r) => 1 <= r.num && r.num <= r.den,
        None => true,
    }
}

/// Open an editable picker session: reject a ratio outside (0, 1] before any
/// surface exists, compute the three-surface stack geometry, create the
/// title, input and list surfaces over it, and hand back the focused session
/// together with the geometry the host must place its windows at.
///
/// Succeeds exactly when every supplied ratio is valid; the only error is
/// `InvalidLayout`. The session starts active, with an empty input line and
/// the cursor on row 1.
pub fn open_editable_session(opts: &EditablePickerOptions, screen: &ScreenSize) -> (r: Result<
    (EditableSession, StackLayout),
    PickerError,
>)
    requires
        spec_stack_content_width(opts.title@, opts.list.deep_view()) + 2
            * AUTO_WIDTH_PADDING_EACH_SIDE <= u32::MAX,
        opts.list.len() + 2 <= u32::MAX,
    ensures
        match r {
            Ok((session, layout)) => {
                &&& opts.window_opts.ratios_valid()
                &&& layout == spec_stack_layout(
                    opts.window_opts,
                    *screen,
                    opts.title@,
                    opts.list.deep_view(),
                )
                &&& session.well_formed()
                &&& session@.state is Active
                &&& session@.items == opts.list.deep_view()
                &&& session@.input == Seq::<char>::empty()
                &&& session@.cursor_row == 1
                &&& session.title_surface.content() == seq![opts.title@]
                &&& session.title_surface.geometry == layout.title
                &&& session.input_surface.geometry == layout.input
                &&& session.list_surface.content() == opts.list.deep_view()
                &&& session.list_surface.geometry == layout.list
            },
            Err(e) => e == PickerError::InvalidLayout && !opts.window_opts.ratios_valid(),
        },
{
    if !ratio_option_valid(&opts.window_opts.window_width_ratio) || !ratio_option_valid(
        &opts.window_opts.window_height_ratio,
    ) {
        return Err(PickerError::InvalidLayout);
    }
    let layout = compute_stack_layout(&opts.window_opts, screen, &opts.title, &opts.list);

    let mut title_lines: Vec<String> = Vec::new();
    title_lines.push(opts.title.clone());
    let title_surface = Surface::create(SurfaceRole::Title, title_lines, layout.title);

    let mut input_lines: Vec<String> = Vec::new();
    input_lines.push(String::new());
    let input_surface = Surface::create(SurfaceRole::Input, input_lines, layout.input);

    let list_surface = Surface::create(SurfaceRole::List, clone_lines(&opts.list), layout.list);

    let mut session = EditableSession {
        title_surface,
        input_surface,
        list_surface,
        items: clone_lines(&opts.list),
        cursor_row: 1,
        state: SessionState::Opening,
    };
    session.focus();
    Ok((session, layout))
}

/// Open a read-only picker session: reject a ratio outside (0, 1], size the
/// single list surface to the list content (under auto-fit) or to the fixed
/// ratios, and hand back the focused session with the surface geometry.
///
/// Succeeds exactly when every supplied ratio is valid; the only error is
/// `InvalidLayout`. The session starts active with the cursor on row 1.
pub fn open_readonly_session(opts: &PickerOptions, screen: &ScreenSize) -> (r: Result<
    (ReadOnlySession, Geometry),
    PickerError,
>)
    requires
        spec_max_line_len(opts.list.deep_view()) + 2 * AUTO_WIDTH_PADDING_EACH_SIDE <= u32::MAX,
        opts.list.len() <= u32::MAX,
    ensures
        match r {
            Ok((session, geometry)) => {
                &&& opts.window_opts.ratios_valid()
                &&& geometry == spec_popup_geometry(
                    opts.window_opts,
                    *screen,
                    Some(
                        ContentExtent {
                            max_line_width: spec_max_line_len(opts.list.deep_view()) as usize,
                            line_count: opts.list.len(),
                        },
                    ),
                )
                &&& session.well_formed()
                &&& session@.state is Active
                &&& session@.items == opts.list.deep_view()
                &&& session@.cursor_row == 1
                &&& session.list_surface.content() == opts.list.deep_view()
                &&& session.list_surface.geometry == geometry
            },
            Err(e) => e == PickerError::InvalidLayout && !opts.window_opts.ratios_valid(),
        },
{
    if !ratio_option_valid(&opts.window_opts.window_width_ratio) || !ratio_option_valid(
        &opts.window_opts.window_height_ratio,
    ) {
        return Err(PickerError::InvalidLayout);
    }
    let empty_title = String::new();
    proof {
        lemma_max_line_len_nonneg(opts.list.deep_view());
    }
    let max_line = max_content_width(&empty_title, &opts.list);
    let extent = ContentExtent { max_line_width: max_line, line_count: opts.list.len() };
    let geometry = compute_layout(&opts.window_opts, screen, Some(&extent));

    let list_surface = Surface::create(SurfaceRole::List, clone_lines(&opts.list), geometry);
    let mut session = ReadOnlySession {
        list_surface,
        items: clone_lines(&opts.list),
        cursor_row: 1,
        state: SessionState::Opening,
    };
    session.focus();
    Ok((session, geometry))
}

} // verus!
