//! Picker session state machine.
//!
//! A session owns the surfaces of one open picker, interprets keystroke
//! events and drives the session to a terminal state. Rather than hiding the
//! outcome in a captured closure, each event returns a [`StepOutcome`]; the
//! caller dispatches a `Selected` outcome to whoever awaited the selection,
//! which makes the at-most-once callback contract a fact about values.
//!
//! The whole transition relation is written down once, as the spec function
//! [`spec_step`] (and [`spec_step_readonly`] for the single-surface variant);
//! the executable handlers are proved to follow it, and the selection laws
//! are proved about it.

use crate::layout::spec_list_height;
use crate::surface::{Surface, SurfaceRole};
use vstd::prelude::*;
use vstd::seq_lib::group_seq_properties;

verus! {

/// Where a session stands in its lifecycle.
#[derive(Clone, Copy, Debug, PartialEq, Eq, Structural)]
pub enum SessionState {
    /// Surfaces not yet created or not yet focused.
    Opening,
    /// Focused and accepting navigation, editing, commit and cancel events.
    Active,
    /// All surfaces destroyed; no further event is accepted.
    Closed,
}

/// A keystroke-driven event, as the host's dispatch delivers it.
#[derive(Debug)]
pub enum PickerEvent {
    /// Move the list cursor one row down.
    CursorDown,
    /// Move the list cursor one row up.
    CursorUp,
    /// The user edited the input surface; this is its new first line.
    InputEdited(String),
    /// Resolve the session to a selection.
    Commit,
    /// Close the session without a selection.
    Cancel,
}

/// What the caller must do after an event is handled.
#[derive(Debug)]
pub enum StepOutcome {
    /// The session stays open; nothing to dispatch.
    Pending,
    /// The session closed with this selection: deliver it, exactly once.
    Selected(String),
    /// The session closed without a selection: deliver nothing.
    Dismissed,
}

/// The mathematical state of an editable session: the backing item list, the
/// input surface's line, the 1-based list cursor row, and the lifecycle
/// state.
#[verifier::ext_equal]
pub struct SessionView {
    pub state: SessionState,
    pub items: Seq<Seq<char>>,
    pub input: Seq<char>,
    pub cursor_row: int,
}

/// One step of the transition relation: the state after the event, the
/// selection it resolved to (if any), and whether it dismissed the session.
#[verifier::ext_equal]
pub struct StepResult {
    pub next: SessionView,
    pub selected: Option<Seq<char>>,
    pub dismissed: bool,
}

/// Whether some line of `items` equals `line`.
pub open spec fn contains_line(items: Seq<Seq<char>>, line: Seq<char>) -> bool {
    exists|i: int| 0 <= i < items.len() && items[i] == line
}

/// `items` with every blank placeholder line removed.
pub open spec fn drop_blank_lines(items: Seq<Seq<char>>) -> Seq<Seq<char>> {
    items.filter(|line: Seq<char>| line.len() != 0)
}

/// The backing list after a commit of `selected`: appended when the text is
/// non-empty and not already present (blank placeholders are dropped in the
/// same stroke), untouched otherwise.
pub open spec fn committed_items(items: Seq<Seq<char>>, selected: Seq<char>) -> Seq<Seq<char>> {
    if selected.len() > 0 && !contains_line(items, selected) {
        drop_blank_lines(items).push(selected)
    } else {
        items
    }
}

/// The transition relation of the editable session.
///
/// Events reach the machine only in the `Active` state; anywhere else they
/// leave the session untouched. Cursor moves clamp at the list's edges and
/// copy the destination row's item into the input line; a commit resolves to
/// the input line, updates the backing list and closes; a cancel closes
/// without resolving.
pub open spec fn spec_step(s: SessionView, ev: PickerEvent) -> StepResult {
    if !(s.state is Active) {
        StepResult { next: s, selected: None, dismissed: false }
    } else {
        match ev {
            PickerEvent::CursorDown => {
                if s.cursor_row < s.items.len() {
                    StepResult {
                        next: SessionView {
                            cursor_row: s.cursor_row + 1,
                            input: s.items[s.cursor_row],
                            ..s
                        },
                        selected: None,
                        dismissed: false,
                    }
                } else {
                    StepResult { next: s, selected: None, dismissed: false }
                }
            },
            PickerEvent::CursorUp => {
                if s.cursor_row > 1 {
                    StepResult {
                        next: SessionView {
                            cursor_row: s.cursor_row - 1,
                            input: s.items[s.cursor_row - 2],
                            ..s
                        },
                        selected: None,
                        dismissed: false,
                    }
                } else {
                    StepResult { next: s, selected: None, dismissed: false }
                }
            },
            PickerEvent::InputEdited(text) => {
                StepResult {
                    next: SessionView { input: text@, ..s },
                    selected: None,
                    dismissed: false,
                }
            },
            PickerEvent::Commit => {
                StepResult {
                    next: SessionView {
                        state: SessionState::Closed,
                        items: committed_items(s.items, s.input),
                        ..s
                    },
                    selected: Some(s.input),
                    dismissed: false,
                }
            },
            PickerEvent::Cancel => {
                StepResult {
                    next: SessionView { state: SessionState::Closed, ..s },
                    selected: None,
                    dismissed: true,
                }
            },
        }
    }
}

/// One open editable picker: three owned surfaces, the backing item list,
/// the list cursor and the lifecycle state.
pub struct EditableSession {
    pub title_surface: Surface,
    pub input_surface: Surface,
    pub list_surface: Surface,
    /// The backing item list a commit appends to; display order is its order.
    pub items: Vec<String>,
    /// 1-based row of the list cursor, clamped to `[1, max(item count, 1)]`.
    pub cursor_row: usize,
    pub state: SessionState,
}

impl View for EditableSession {
    type V = SessionView;

    open spec fn view(&self) -> SessionView {
        SessionView {
            state: self.state,
            items: self.items.deep_view(),
            input: self.input_surface.content()[0],
            cursor_row: self.cursor_row as int,
        }
    }
}

impl EditableSession {
    /// The structural invariant every session keeps: correctly cast surfaces,
    /// a one-line input buffer, and, until the session closes, live surfaces
    /// and a cursor inside the list.
    pub open spec fn well_formed(self) -> bool {
        &&& self.title_surface.role is Title
        &&& self.input_surface.role is Input
        &&& self.list_surface.role is List
        &&& self.input_surface.content().len() == 1
        &&& self.state is Closed ==> {
            &&& !self.title_surface.alive
            &&& !self.input_surface.alive
            &&& !self.list_surface.alive
        }
        &&& !(self.state is Closed) ==> {
            &&& 1 <= self.cursor_row
            &&& self.cursor_row as int <= spec_list_height(self.items.len() as int)
            &&& self.title_surface.alive
            &&& self.input_surface.alive
            &&& self.list_surface.alive
        }
    }

    /// Give the session focus: an opening session becomes active; any other
    /// state is left as it stands.
    pub fn focus(&mut self)
        requires
            old(self).well_formed(),
        ensures
            final(self).well_formed(),
            old(self).state is Opening ==> final(self).state is Active,
            !(old(self).state is Opening) ==> final(self).state == old(self).state,
            final(self)@ == (SessionView { state: final(self).state, ..old(self)@ }),
            final(self).title_surface == old(self).title_surface,
            final(self).input_surface == old(self).input_surface,
            final(self).list_surface == old(self).list_surface,
    {
        if matches!(self.state, SessionState::Opening) {
            self.state = SessionState::Active;
        }
    }

    /// Handle one keystroke event: follow one step of [`spec_step`].
    ///
    /// The outcome reports exactly what the step resolved: `Selected` carries
    /// the committed text, `Dismissed` a cancellation, `Pending` anything
    /// that left the session open or was ignored. When the step closes the
    /// session, all three surfaces are destroyed; otherwise the title and
    /// list surfaces are untouched.
    pub fn handle_event(&mut self, ev: PickerEvent) -> (outcome: StepOutcome)
        requires
            old(self).well_formed(),
        ensures
            final(self).well_formed(),
            final(self)@ == spec_step(old(self)@, ev).next,
            match outcome {
                StepOutcome::Selected(text) => spec_step(old(self)@, ev).selected == Some(text@),
                StepOutcome::Dismissed => spec_step(old(self)@, ev).dismissed && spec_step(
                    old(self)@,
                    ev,
                ).selected is None,
                StepOutcome::Pending => spec_step(old(self)@, ev).selected is None && !spec_step(
                    old(self)@,
                    ev,
                ).dismissed,
            },
            final(self).state is Closed ==> !final(self).title_surface.alive
                && !final(self).input_surface.alive && !final(self).list_surface.alive,
            !(final(self).state is Closed) ==> final(self).title_surface == old(self).title_surface
                && final(self).list_surface == old(self).list_surface,
    {
        if !matches!(self.state, SessionState::Active) {
            return StepOutcome::Pending;
        }
        match ev {
            PickerEvent::CursorDown => {
                if self.cursor_row < self.items.len() {
                    let text = self.items[self.cursor_row].clone();
                    self.input_surface.set_single_line(text);
                    self.cursor_row = self.cursor_row + 1;
                }
                StepOutcome::Pending
            },
            PickerEvent::CursorUp => {
                if self.cursor_row > 1 {
                    let text = self.items[self.cursor_row - 2].clone();
                    self.input_surface.set_single_line(text);
                    self.cursor_row = self.cursor_row - 1;
                }
                StepOutcome::Pending
            },
            PickerEvent::InputEdited(text) => {
                self.input_surface.set_single_line(text);
                StepOutcome::Pending
            },
            PickerEvent::Commit => {
                let selected = self.input_surface.first_line();
                if !selected.as_str().is_empty() && !list_contains_line(&self.items, &selected) {
                    let updated = retain_nonblank_then_push(&self.items, selected.clone());
                    self.items = updated;
                }
                self.close_surfaces();
                StepOutcome::Selected(selected)
            },
            PickerEvent::Cancel => {
                self.close_surfaces();
                StepOutcome::Dismissed
            },
        }
    }

    /// Destroy all three surfaces and enter the terminal state.
    fn close_surfaces(&mut self)
        ensures
            final(self).state is Closed,
            !final(self).title_surface.alive,
            !final(self).input_surface.alive,
            !final(self).list_surface.alive,
            final(self).items == old(self).items,
            final(self).cursor_row == old(self).cursor_row,
            final(self).title_surface.role == old(self).title_surface.role,
            final(self).input_surface.role == old(self).input_surface.role,
            final(self).list_surface.role == old(self).list_surface.role,
            final(self).title_surface.lines == old(self).title_surface.lines,
            final(self).input_surface.lines == old(self).input_surface.lines,
            final(self).list_surface.lines == old(self).list_surface.lines,
    {
        self.title_surface.destroy();
        self.input_surface.destroy();
        self.list_surface.destroy();
        self.state = SessionState::Closed;
    }
}

/// The mathematical state of a read-only session: the item list, the 1-based
/// cursor row, and the lifecycle state. There is no input line; a commit
/// resolves to the row under the cursor.
#[verifier::ext_equal]
pub struct ReadOnlyView {
    pub state: SessionState,
    pub items: Seq<Seq<char>>,
    pub cursor_row: int,
}

/// One step of the read-only transition relation.
#[verifier::ext_equal]
pub struct ReadOnlyStepResult {
    pub next: ReadOnlyView,
    pub selected: Option<Seq<char>>,
    pub dismissed: bool,
}

/// The transition relation of the read-only session: cursor moves clamp at
/// the list's edges; a commit resolves to the line under the cursor verbatim
/// (the empty line when the list is empty) without touching the list; a
/// cancel closes without resolving. Editing events do not exist here and are
/// ignored.
pub open spec fn spec_step_readonly(s: ReadOnlyView, ev: PickerEvent) -> ReadOnlyStepResult {
    if !(s.state is Active) {
        ReadOnlyStepResult { next: s, selected: None, dismissed: false }
    } else {
        match ev {
            PickerEvent::CursorDown => {
                if s.cursor_row < s.items.len() {
                    ReadOnlyStepResult {
                        next: ReadOnlyView { cursor_row: s.cursor_row + 1, ..s },
                        selected: None,
                        dismissed: false,
                    }
                } else {
                    ReadOnlyStepResult { next: s, selected: None, dismissed: false }
                }
            },
            PickerEvent::CursorUp => {
                if s.cursor_row > 1 {
                    ReadOnlyStepResult {
                        next: ReadOnlyView { cursor_row: s.cursor_row - 1, ..s },
                        selected: None,
                        dismissed: false,
                    }
                } else {
                    ReadOnlyStepResult { next: s, selected: None, dismissed: false }
                }
            },
            PickerEvent::InputEdited(_) => {
                ReadOnlyStepResult { next: s, selected: None, dismissed: false }
            },
            PickerEvent::Commit => {
                ReadOnlyStepResult {
                    next: ReadOnlyView { state: SessionState::Closed, ..s },
                    selected: Some(
                        if s.items.len() > 0 {
                            s.items[s.cursor_row - 1]
                        } else {
                            Seq::<char>::empty()
                        },
                    ),
                    dismissed: false,
                }
            },
            PickerEvent::Cancel => {
                ReadOnlyStepResult {
                    next: ReadOnlyView { state: SessionState::Closed, ..s },
                    selected: None,
                    dismissed: true,
                }
            },
        }
    }
}

/// One open read-only picker: a single list surface, the item list, the list
/// cursor and the lifecycle state.
pub struct ReadOnlySession {
    pub list_surface: Surface,
    pub items: Vec<String>,
    /// 1-based row of the list cursor, clamped to `[1, max(item count, 1)]`.
    pub cursor_row: usize,
    pub state: SessionState,
}

impl View for ReadOnlySession {
    type V = ReadOnlyView;

    open spec fn view(&self) -> ReadOnlyView {
        ReadOnlyView {
            state: self.state,
            items: self.items.deep_view(),
            cursor_row: self.cursor_row as int,
        }
    }
}

impl ReadOnlySession {
    /// The structural invariant: a correctly cast surface, and, until the
    /// session closes, a live surface and a cursor inside the list.
    pub open spec fn well_formed(self) -> bool {
        &&& self.list_surface.role is List
        &&& self.state is Closed ==> !self.list_surface.alive
        &&& !(self.state is Closed) ==> {
            &&& 1 <= self.cursor_row
            &&& self.cursor_row as int <= spec_list_height(self.items.len() as int)
            &&& self.list_surface.alive
        }
    }

    /// Give the session focus: an opening session becomes active; any other
    /// state is left as it stands.
    pub fn focus(&mut self)
        requires
            old(self).well_formed(),
        ensures
            final(self).well_formed(),
            old(self).state is Opening ==> final(self).state is Active,
            !(old(self).state is Opening) ==> final(self).state == old(self).state,
            final(self)@ == (ReadOnlyView { state: final(self).state, ..old(self)@ }),
            final(self).list_surface == old(self).list_surface,
    {
        if matches!(self.state, SessionState::Opening) {
            self.state = SessionState::Active;
        }
    }

    /// Handle one keystroke event: follow one step of [`spec_step_readonly`].
    pub fn handle_event(&mut self, ev: PickerEvent) -> (outcome: StepOutcome)
        requires
            old(self).well_formed(),
        ensures
            final(self).well_formed(),
            final(self)@ == spec_step_readonly(old(self)@, ev).next,
            match outcome {
                StepOutcome::Selected(text) => spec_step_readonly(old(self)@, ev).selected == Some(
                    text@,
                ),
                StepOutcome::Dismissed => spec_step_readonly(old(self)@, ev).dismissed
                    && spec_step_readonly(old(self)@, ev).selected is None,
                StepOutcome::Pending => spec_step_readonly(old(self)@, ev).selected is None
                    && !spec_step_readonly(old(self)@, ev).dismissed,
            },
            final(self).state is Closed ==> !final(self).list_surface.alive,
            !(final(self).state is Closed) ==> final(self).list_surface == old(self).list_surface,
    {
        if !matches!(self.state, SessionState::Active) {
            return StepOutcome::Pending;
        }
        match ev {
            PickerEvent::CursorDown => {
                if self.cursor_row < self.items.len() {
                    self.cursor_row = self.cursor_row + 1;
                }
                StepOutcome::Pending
            },
            PickerEvent::CursorUp => {
                if self.cursor_row > 1 {
                    self.cursor_row = self.cursor_row - 1;
                }
                StepOutcome::Pending
            },
            PickerEvent::InputEdited(_) => StepOutcome::Pending,
            PickerEvent::Commit => {
                let selected = if self.items.len() > 0 {
                    self.items[self.cursor_row - 1].clone()
                } else {
                    String::new()
                };
                self.list_surface.destroy();
                self.state = SessionState::Closed;
                StepOutcome::Selected(selected)
            },
            PickerEvent::Cancel => {
                self.list_surface.destroy();
                self.state = SessionState::Closed;
                StepOutcome::Dismissed
            },
        }
    }
}

/// Dropping blanks from a list without blanks changes nothing.
pub proof fn lemma_drop_blank_lines_noop(items: Seq<Seq<char>>)
    requires
        forall|i: int| 0 <= i < items.len() ==> #[trigger] items[i].len() != 0,
    ensures
        drop_blank_lines(items) == items,
    decreases items.len(),
{
    if items.len() == 0 {
        lemma_drop_blank_lines_empty();
    } else {
        lemma_drop_blank_lines_noop(items.drop_last());
        lemma_drop_blank_lines_push(items.drop_last(), items.last());
        assert(items.drop_last().push(items.last()) =~= items);
    }
}

/// Law: cursor-down from a row short of the last item advances the row by
/// one; from the last row it changes nothing at all — the boundary is a
/// no-op, not a wrap.
pub proof fn lemma_cursor_down_step(s: SessionView)
    requires
        s.state is Active,
    ensures
        s.cursor_row < s.items.len() ==> spec_step(s, PickerEvent::CursorDown).next.cursor_row
            == s.cursor_row + 1,
        s.cursor_row >= s.items.len() ==> spec_step(s, PickerEvent::CursorDown).next == s,
{
}

/// Law: a commit whose input line is non-empty and absent from the backing
/// list appends exactly that line (blank placeholders are dropped in the
/// same stroke), resolves the selection to it, and closes the session.
pub proof fn lemma_commit_appends_fresh(s: SessionView)
    requires
        s.state is Active,
        s.input.len() > 0,
        !contains_line(s.items, s.input),
    ensures
        spec_step(s, PickerEvent::Commit).next.items == drop_blank_lines(s.items).push(s.input),
        spec_step(s, PickerEvent::Commit).selected == Some(s.input),
        spec_step(s, PickerEvent::Commit).next.state is Closed,
{
}

/// Law: on a backing list without blank placeholders, such a commit grows
/// the list by exactly one entry, the committed line at its end.
pub proof fn lemma_commit_appends_exactly_one(s: SessionView)
    requires
        s.state is Active,
        s.input.len() > 0,
        !contains_line(s.items, s.input),
        forall|i: int| 0 <= i < s.items.len() ==> #[trigger] s.items[i].len() != 0,
    ensures
        spec_step(s, PickerEvent::Commit).next.items == s.items.push(s.input),
        spec_step(s, PickerEvent::Commit).next.items.len() == s.items.len() + 1,
{
    lemma_drop_blank_lines_noop(s.items);
}

/// Law: a commit whose input line is already in the backing list leaves the
/// list exactly as it was — no duplicate — and still resolves the selection
/// to that line.
pub proof fn lemma_commit_present_no_duplicate(s: SessionView)
    requires
        s.state is Active,
        contains_line(s.items, s.input),
    ensures
        spec_step(s, PickerEvent::Commit).next.items == s.items,
        spec_step(s, PickerEvent::Commit).selected == Some(s.input),
{
}

/// Law: a session resolves a selection at most once. Whatever two events
/// arrive, if the first step resolves a selection it closes the session,
/// and no step out of a closed session resolves another.
pub proof fn lemma_selection_at_most_once(s: SessionView, first: PickerEvent, second: PickerEvent)
    ensures
        spec_step(s, first).selected is Some ==> spec_step(
            spec_step(s, first).next,
            second,
        ).selected is None,
{
}

/// Law: cancel never resolves a selection, whatever the input surface
/// holds, and leaves the backing list and the input line untouched.
pub proof fn lemma_cancel_never_selects(s: SessionView)
    ensures
        spec_step(s, PickerEvent::Cancel).selected is None,
        spec_step(s, PickerEvent::Cancel).next.items == s.items,
        spec_step(s, PickerEvent::Cancel).next.input == s.input,
{
}

/// Whether any item of `items` equals `needle`.
pub fn list_contains_line(items: &Vec<String>, needle: &String) -> (found: bool)
    ensures
        found == contains_line(items.deep_view(), needle@),
{
    let mut i: usize = 0;
    while i < items.len()
        invariant
            0 <= i <= items.len(),
            forall|j: int| 0 <= j < i ==> items.deep_view()[j] != needle@,
        decreases items.len() - i,
    {
        if items[i] == *needle {
            proof {
                assert(items.deep_view()[i as int] == needle@);
            }
            return true;
        }
        i = i + 1;
    }
    false
}

/// Dropping blanks from an empty list leaves an empty list.
pub proof fn lemma_drop_blank_lines_empty()
    ensures
        drop_blank_lines(Seq::<Seq<char>>::empty()) == Seq::<Seq<char>>::empty(),
{
    reveal_with_fuel(Seq::<_>::filter, 2);
}

/// Dropping blanks commutes with appending one line: a non-blank line stays
/// appended, a blank one disappears.
pub proof fn lemma_drop_blank_lines_push(items: Seq<Seq<char>>, line: Seq<char>)
    ensures
        line.len() != 0 ==> drop_blank_lines(items.push(line)) == drop_blank_lines(items).push(
            line,
        ),
        line.len() == 0 ==> drop_blank_lines(items.push(line)) == drop_blank_lines(items),
{
    reveal_with_fuel(Seq::<_>::filter, 2);
    assert(items.push(line).drop_last() =~= items);
    assert(items.push(line).last() == line);
}

/// A copy of `items` without its blank lines, with `text` appended.
pub(crate) fn retain_nonblank_then_push(items: &Vec<String>, text: String) -> (out: Vec<String>)
    ensures
        out.deep_view() == drop_blank_lines(items.deep_view()).push(text@),
{
    broadcast use group_seq_properties;

    let mut out: Vec<String> = Vec::new();
    let mut i: usize = 0;
    proof {
        lemma_drop_blank_lines_empty();
        assert(items.deep_view().take(0) =~= Seq::<Seq<char>>::empty());
    }
    while i < items.len()
        invariant
            0 <= i <= items.len(),
            out.deep_view() == drop_blank_lines(items.deep_view().take(i as int)),
        decreases items.len() - i,
    {
        let ghost prefix = items.deep_view().take(i as int);
        let ghost line = items.deep_view()[i as int];
        let ghost before = out.deep_view();
        if !items[i].as_str().is_empty() {
            out.push(items[i].clone());
            proof {
                assert(out.deep_view() =~= before.push(line));
            }
        }
        proof {
            assert(items.deep_view().take(i + 1 as int) =~= prefix.push(line));
            lemma_drop_blank_lines_push(prefix, line);
            assert(out.deep_view() =~= drop_blank_lines(items.deep_view().take(i + 1 as int)));
        }
        i = i + 1;
    }
    proof {
        assert(items.deep_view().take(items.len() as int) =~= items.deep_view());
    }
    let ghost before = out.deep_view();
    let ghost text_view = text@;
    out.push(text);
    proof {
        assert(out.deep_view() =~= before.push(text_view));
    }
    out
}

} // verus!
