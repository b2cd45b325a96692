//! Per-project command history: the state behind the editable command
//! picker of one project directory.
//!
//! The host keeps one such state per project and passes it in explicitly;
//! the picker core itself stays stateless between sessions. The state
//! remembers the commands run so far and which of them ran last, offers the
//! list to show (last-run command on top), resolves what a picker selection
//! means, and records a resolved command back into the history. Listing a
//! directory and running the command are the host's side; turning the
//! directory listing into picker items is [`script_file_commands`].

use crate::session::{
    committed_items, contains_line, list_contains_line, retain_nonblank_then_push,
};
use crate::surface::clone_lines;
use vstd::multiset::Multiset;
use vstd::prelude::*;
use vstd::relations::{sorted_by, total_ordering};
use vstd::seq_lib::lemma_multiset_commutative;
use vstd::string::{StrSliceExecFns, StringExecFns};

verus! {

/// The command history of one project directory.
pub struct ProjectCommandState {
    /// Every command known for the project, in insertion order.
    pub cmd_list: Vec<String>,
    /// Index of the command run last, shown on top of the picker list.
    pub default_cmd_index: Option<usize>,
}

impl ProjectCommandState {
    /// The default index, when set, points into the list.
    pub open spec fn well_formed(self) -> bool {
        self.default_cmd_index matches Some(i) ==> i < self.cmd_list.len()
    }

    /// A history with the given commands and nothing run yet.
    pub fn new(cmd_list: Vec<String>) -> (state: ProjectCommandState)
        ensures
            state.cmd_list == cmd_list,
            state.default_cmd_index is None,
            state.well_formed(),
    {
        ProjectCommandState { cmd_list, default_cmd_index: None }
    }

    /// What a picker selection resolves to: the selected text itself when
    /// non-empty; otherwise the last-run command (or the first known one);
    /// nothing when the input was empty and no command is known.
    pub open spec fn spec_resolved(self, selected: Seq<char>) -> Option<Seq<char>> {
        if selected.len() > 0 {
            Some(selected)
        } else if self.cmd_list.len() == 0 {
            None
        } else {
            match self.default_cmd_index {
                Some(i) => Some(self.cmd_list.deep_view()[i as int]),
                None => Some(self.cmd_list.deep_view()[0]),
            }
        }
    }

    /// Resolve a picker selection against the history, per
    /// [`Self::spec_resolved`].
    pub fn resolve_selection(&self, selected: &String) -> (cmd: Option<String>)
        requires
            self.well_formed(),
        ensures
            match cmd {
                Some(c) => self.spec_resolved(selected@) == Some(c@),
                None => self.spec_resolved(selected@) is None,
            },
    {
        if !selected.as_str().is_empty() {
            return Some(selected.clone());
        }
        if self.cmd_list.len() == 0 {
            return None;
        }
        match self.default_cmd_index {
            Some(i) => Some(self.cmd_list[i].clone()),
            None => Some(self.cmd_list[0].clone()),
        }
    }

    /// Record a resolved command: append it to the history exactly when it
    /// is non-empty and not yet present (dropping blank placeholder lines in
    /// the same stroke), and remember the first occurrence of the command as
    /// the one run last. A command that ends up absent (it was empty and
    /// new) leaves the last-run index as it was.
    pub fn record_command(&mut self, cmd: &String)
        requires
            old(self).well_formed(),
        ensures
            final(self).well_formed(),
            final(self).cmd_list.deep_view() == committed_items(
                old(self).cmd_list.deep_view(),
                cmd@,
            ),
            contains_line(final(self).cmd_list.deep_view(), cmd@)
                ==> (final(self).default_cmd_index matches Some(i)
                && i == spec_first_index(final(self).cmd_list.deep_view(), cmd@)),
            !contains_line(final(self).cmd_list.deep_view(), cmd@)
                ==> final(self).default_cmd_index == old(self).default_cmd_index,
    {
        if !cmd.as_str().is_empty() && !list_contains_line(&self.cmd_list, cmd) {
            let updated = retain_nonblank_then_push(&self.cmd_list, cmd.clone());
            self.cmd_list = updated;
            proof {
                let dv = self.cmd_list.deep_view();
                assert(dv[dv.len() - 1] == cmd@);
                assert(contains_line(dv, cmd@));
            }
        }
        if let Some(i) = find_first_index(&self.cmd_list, cmd) {
            self.default_cmd_index = Some(i);
        }
    }

    /// Resolve a picker selection and, when it resolves, record it: the one
    /// decision a committed picker asks of the history. Returns the command
    /// the host is to run, if any.
    pub fn apply_selection(&mut self, selected: &String) -> (cmd: Option<String>)
        requires
            old(self).well_formed(),
        ensures
            final(self).well_formed(),
            match cmd {
                Some(c) => {
                    &&& old(self).spec_resolved(selected@) == Some(c@)
                    &&& final(self).cmd_list.deep_view() == committed_items(
                        old(self).cmd_list.deep_view(),
                        c@,
                    )
                    &&& contains_line(final(self).cmd_list.deep_view(), c@)
                        ==> (final(self).default_cmd_index matches Some(i)
                        && i == spec_first_index(final(self).cmd_list.deep_view(), c@))
                    &&& !contains_line(final(self).cmd_list.deep_view(), c@)
                        ==> final(self).default_cmd_index == old(self).default_cmd_index
                },
                None => {
                    &&& old(self).spec_resolved(selected@) is None
                    &&& final(self).cmd_list == old(self).cmd_list
                    &&& final(self).default_cmd_index == old(self).default_cmd_index
                },
            },
    {
        match self.resolve_selection(selected) {
            Some(c) => {
                self.record_command(&c);
                Some(c)
            },
            None => None,
        }
    }

    /// The list the picker shows: the commands in insertion order, except
    /// that the last-run command, when there is one, comes first and is not
    /// repeated further down.
    pub fn display_list(&self) -> (out: Vec<String>)
        requires
            self.well_formed(),
        ensures
            self.default_cmd_index is None ==> out.deep_view() == self.cmd_list.deep_view(),
            self.default_cmd_index matches Some(d) ==> out.deep_view() == spec_promoted(
                self.cmd_list.deep_view(),
                self.cmd_list.deep_view()[d as int],
            ),
    {
        match self.default_cmd_index {
            None => clone_lines(&self.cmd_list),
            Some(d) => {
                let top = self.cmd_list[d].clone();
                let mut out: Vec<String> = Vec::new();
                out.push(top.clone());
                let mut i: usize = 0;
                proof {
                    assert(self.cmd_list.deep_view().take(0) =~= Seq::<Seq<char>>::empty());
                    assert(out.deep_view() =~= seq![top@]);
                    assert(spec_promoted(self.cmd_list.deep_view().take(0), top@) =~= seq![top@]);
                }
                while i < self.cmd_list.len()
                    invariant
                        0 <= i <= self.cmd_list.len(),
                        out.deep_view() == spec_promoted(
                            self.cmd_list.deep_view().take(i as int),
                            top@,
                        ),
                    decreases self.cmd_list.len() - i,
                {
                    let ghost prefix = self.cmd_list.deep_view().take(i as int);
                    let ghost line = self.cmd_list.deep_view()[i as int];
                    let ghost before = out.deep_view();
                    if self.cmd_list[i] != top {
                        out.push(self.cmd_list[i].clone());
                        proof {
                            assert(out.deep_view() =~= before.push(line));
                        }
                    }
                    proof {
                        assert(self.cmd_list.deep_view().take(i + 1 as int) =~= prefix.push(line));
                        lemma_promoted_push(prefix, top@, line);
                    }
                    i = i + 1;
                }
                proof {
                    assert(self.cmd_list.deep_view().take(self.cmd_list.len() as int)
                        =~= self.cmd_list.deep_view());
                }
                out
            },
        }
    }
}

/// The index of the first line of `items` equal to `line`; meaningful only
/// when such a line exists.
pub open spec fn spec_first_index(items: Seq<Seq<char>>, line: Seq<char>) -> int
    decreases items.len(),
{
    if items.len() == 0 {
        0
    } else if items[0] == line {
        0
    } else {
        1 + spec_first_index(items.skip(1), line)
    }
}

/// When nothing before position `i` equals `line` and position `i` does,
/// `i` is the first occurrence.
proof fn lemma_first_index_found(items: Seq<Seq<char>>, line: Seq<char>, i: int)
    requires
        0 <= i < items.len(),
        forall|j: int| 0 <= j < i ==> items[j] != line,
        items[i] == line,
    ensures
        spec_first_index(items, line) == i,
    decreases i,
{
    if i > 0 {
        assert(items[0] != line);
        assert(items.skip(1)[i - 1] == items[i]);
        assert(forall|j: int| 0 <= j < i - 1 ==> items.skip(1)[j] == items[j + 1]);
        lemma_first_index_found(items.skip(1), line, i - 1);
    }
}

/// The position of the first line equal to `needle`, if one exists.
fn find_first_index(items: &Vec<String>, needle: &String) -> (found: Option<usize>)
    ensures
        match found {
            Some(i) => i < items.len() && items.deep_view()[i as int] == needle@ && i
                == spec_first_index(items.deep_view(), needle@),
            None => !contains_line(items.deep_view(), needle@),
        },
{
    let mut i: usize = 0;
    while i < items.len()
        invariant
            0 <= i <= items.len(),
            forall|j: int| 0 <= j < i ==> items.deep_view()[j] != needle@,
        decreases items.len() - i,
    {
        if items[i] == *needle {
            proof {
                assert(items.deep_view()[i as int] == needle@);
                lemma_first_index_found(items.deep_view(), needle@, i as int);
            }
            return Some(i);
        }
        i = i + 1;
    }
    None
}

/// `items` with every line equal to `top` taken out, order kept.
pub open spec fn spec_without(items: Seq<Seq<char>>, top: Seq<char>) -> Seq<Seq<char>>
    decreases items.len(),
{
    if items.len() == 0 {
        Seq::empty()
    } else {
        let rest = spec_without(items.drop_last(), top);
        if items.last() != top {
            rest.push(items.last())
        } else {
            rest
        }
    }
}

/// `items` reordered so that `top` comes first, once, followed by every
/// other line in its old order.
pub open spec fn spec_promoted(items: Seq<Seq<char>>, top: Seq<char>) -> Seq<Seq<char>> {
    seq![top] + spec_without(items, top)
}

/// How promotion grows with the list, line by line.
proof fn lemma_promoted_push(items: Seq<Seq<char>>, top: Seq<char>, line: Seq<char>)
    ensures
        line != top ==> spec_promoted(items.push(line), top) == spec_promoted(items, top).push(
            line,
        ),
        line == top ==> spec_promoted(items.push(line), top) == spec_promoted(items, top),
{
    assert(items.push(line).drop_last() =~= items);
    assert(items.push(line).last() == line);
    if line != top {
        assert(spec_promoted(items.push(line), top) =~= spec_promoted(items, top).push(line));
    }
}

/// Lexicographic order on lines, character code by character code; a prefix
/// comes before every line it begins.
pub open spec fn spec_lex_le(a: Seq<char>, b: Seq<char>) -> bool
    decreases a.len(),
{
    if a.len() == 0 {
        true
    } else if b.len() == 0 {
        false
    } else if a.first() == b.first() {
        spec_lex_le(a.drop_first(), b.drop_first())
    } else {
        a.first() < b.first()
    }
}

/// The lexicographic order as a relation value, for the ordering vocabulary
/// of `vstd::relations`.
pub open spec fn lex_leq() -> spec_fn(Seq<char>, Seq<char>) -> bool {
    |a: Seq<char>, b: Seq<char>| spec_lex_le(a, b)
}

proof fn lemma_lex_le_reflexive(a: Seq<char>)
    ensures
        spec_lex_le(a, a),
    decreases a.len(),
{
    if a.len() > 0 {
        lemma_lex_le_reflexive(a.drop_first());
    }
}

proof fn lemma_lex_le_connected(a: Seq<char>, b: Seq<char>)
    ensures
        spec_lex_le(a, b) || spec_lex_le(b, a),
    decreases a.len(),
{
    if a.len() > 0 && b.len() > 0 && a.first() == b.first() {
        lemma_lex_le_connected(a.drop_first(), b.drop_first());
    }
}

proof fn lemma_lex_le_antisymmetric(a: Seq<char>, b: Seq<char>)
    requires
        spec_lex_le(a, b),
        spec_lex_le(b, a),
    ensures
        a == b,
    decreases a.len(),
{
    if a.len() == 0 {
        assert(b.len() == 0);
        assert(a =~= b);
    } else {
        lemma_lex_le_antisymmetric(a.drop_first(), b.drop_first());
        assert(a =~= seq![a.first()] + a.drop_first());
        assert(b =~= seq![b.first()] + b.drop_first());
    }
}

proof fn lemma_lex_le_transitive(a: Seq<char>, b: Seq<char>, c: Seq<char>)
    requires
        spec_lex_le(a, b),
        spec_lex_le(b, c),
    ensures
        spec_lex_le(a, c),
    decreases a.len(),
{
    if a.len() > 0 && b.len() > 0 && c.len() > 0 && a.first() == b.first() && b.first()
        == c.first() {
        lemma_lex_le_transitive(a.drop_first(), b.drop_first(), c.drop_first());
    }
}

/// The lexicographic order is a total ordering on lines.
pub proof fn lemma_lex_le_total_ordering()
    ensures
        total_ordering(lex_leq()),
{
    assert forall|a: Seq<char>| #[trigger] lex_leq()(a, a) by {
        lemma_lex_le_reflexive(a);
    }
    assert forall|a: Seq<char>, b: Seq<char>|
        #[trigger] lex_leq()(a, b) && #[trigger] lex_leq()(b, a) implies a == b by {
        lemma_lex_le_antisymmetric(a, b);
    }
    assert forall|a: Seq<char>, b: Seq<char>, c: Seq<char>|
        #[trigger] lex_leq()(a, b) && #[trigger] lex_leq()(b, c) implies lex_leq()(a, c) by {
        lemma_lex_le_transitive(a, b, c);
    }
    assert forall|a: Seq<char>, b: Seq<char>| #[trigger] lex_leq()(a, b) || #[trigger] lex_leq()(
        b,
        a,
    ) by {
        lemma_lex_le_connected(a, b);
    }
}

/// Whether `a` comes no later than `b` in lexicographic order.
pub fn lex_le(a: &String, b: &String) -> (le: bool)
    ensures
        le == spec_lex_le(a@, b@),
{
    let a_len = a.as_str().unicode_len();
    let b_len = b.as_str().unicode_len();
    let mut i: usize = 0;
    proof {
        assert(a@.skip(0) =~= a@);
        assert(b@.skip(0) =~= b@);
    }
    loop
        invariant
            0 <= i <= a_len,
            0 <= i <= b_len,
            a_len == a@.len(),
            b_len == b@.len(),
            spec_lex_le(a@, b@) == spec_lex_le(a@.skip(i as int), b@.skip(i as int)),
        ensures
            spec_lex_le(a@, b@) == spec_lex_le(a@.skip(i as int), b@.skip(i as int)),
            i == a_len || i == b_len || a@[i as int] != b@[i as int],
            i <= a_len && i <= b_len,
        decreases a_len - i,
    {
        if i >= a_len || i >= b_len {
            break ;
        }
        let ca = a.as_str().get_char(i);
        let cb = b.as_str().get_char(i);
        if ca != cb {
            break ;
        }
        proof {
            let sa = a@.skip(i as int);
            let sb = b@.skip(i as int);
            assert(sa.first() == a@[i as int]);
            assert(sb.first() == b@[i as int]);
            assert(sa.drop_first() =~= a@.skip(i + 1 as int));
            assert(sb.drop_first() =~= b@.skip(i + 1 as int));
        }
        i = i + 1;
    }
    proof {
        let sa = a@.skip(i as int);
        let sb = b@.skip(i as int);
        if i == a_len {
            assert(sa.len() == 0);
        } else if i == b_len {
            assert(sb.len() == 0);
            assert(sa.len() > 0);
        } else {
            assert(sa.first() == a@[i as int]);
            assert(sb.first() == b@[i as int]);
        }
    }
    if i == a_len {
        true
    } else if i == b_len {
        false
    } else {
        a.as_str().get_char(i) < b.as_str().get_char(i)
    }
}

/// Put `line` where it belongs in a lexicographically sorted list.
fn insert_sorted(lines: &mut Vec<String>, line: String)
    requires
        sorted_by(old(lines).deep_view(), lex_leq()),
    ensures
        sorted_by(final(lines).deep_view(), lex_leq()),
        final(lines).deep_view().to_multiset() == old(lines).deep_view().to_multiset().insert(
            line@,
        ),
{
    broadcast use vstd::seq_lib::group_to_multiset_ensures;

    let mut p: usize = 0;
    while p < lines.len()
        invariant
            0 <= p <= lines.len(),
            *lines == *old(lines),
            sorted_by(lines.deep_view(), lex_leq()),
            forall|k: int| 0 <= k < p ==> spec_lex_le(#[trigger] lines.deep_view()[k], line@),
        ensures
            0 <= p <= lines.len(),
            *lines == *old(lines),
            forall|k: int| 0 <= k < p ==> spec_lex_le(#[trigger] lines.deep_view()[k], line@),
            p < lines.len() ==> !spec_lex_le(lines.deep_view()[p as int], line@),
        decreases lines.len() - p,
    {
        if lex_le(&lines[p], &line) {
            p = p + 1;
        } else {
            break ;
        }
    }
    let ghost before = lines.deep_view();
    let ghost pos = p as int;
    lines.insert(p, line);
    proof {
        let after = lines.deep_view();
        assert(after =~= before.subrange(0, pos) + seq![line@] + before.subrange(
            pos,
            before.len() as int,
        )) by {
            assert forall|k: int| 0 <= k < after.len() implies after[k] == (before.subrange(0, pos)
                + seq![line@] + before.subrange(pos, before.len() as int))[k] by {
                before.insert_ensures(pos, line@);
            }
        }
        assert forall|x: int, y: int| 0 <= x < y < after.len() implies lex_leq()(
            after[x],
            after[y],
        ) by {
            lemma_lex_le_reflexive(line@);
            if x < pos && y == pos {
                assert(after[x] == before[x]);
            } else if x == pos && y > pos {
                assert(after[y] == before[y - 1]);
                lemma_lex_le_connected(before[pos], line@);
                if y - 1 > pos {
                    assert(lex_leq()(before[pos], before[y - 1]));
                    lemma_lex_le_transitive(line@, before[pos], before[y - 1]);
                }
            } else if x < pos && y > pos {
                assert(after[x] == before[x]);
                assert(after[y] == before[y - 1]);
                if x == y - 1 {
                    lemma_lex_le_reflexive(before[x]);
                }
            } else if y < pos {
                assert(after[x] == before[x]);
                assert(after[y] == before[y]);
            } else if x > pos {
                assert(after[x] == before[x - 1]);
                assert(after[y] == before[y - 1]);
            }
        }
        assert(before =~= before.subrange(0, pos) + before.subrange(pos, before.len() as int));
        lemma_multiset_commutative(before.subrange(0, pos), before.subrange(
            pos,
            before.len() as int,
        ));
        lemma_multiset_commutative(before.subrange(0, pos) + seq![line@], before.subrange(
            pos,
            before.len() as int,
        ));
        lemma_multiset_commutative(before.subrange(0, pos), seq![line@]);
        assert(seq![line@].to_multiset() =~= Multiset::<Seq<char>>::empty().insert(line@)) by {
            assert(Seq::<Seq<char>>::empty().push(line@) =~= seq![line@]);
        }
        assert(after.to_multiset() =~= before.to_multiset().insert(line@));
    }
}

/// Whether the name has a `.sh` extension: at least one character of stem,
/// then `.sh` at the end.
pub open spec fn spec_is_script(name: Seq<char>) -> bool {
    name.len() > 3 && name[name.len() - 3] == '.' && name[name.len() - 2] == 's' && name[name.len()
        - 1] == 'h'
}

/// The commands a directory listing offers: one `./<name>` line per script
/// file in it, in listing order.
pub open spec fn spec_script_commands(names: Seq<Seq<char>>) -> Seq<Seq<char>>
    decreases names.len(),
{
    if names.len() == 0 {
        Seq::empty()
    } else {
        let rest = spec_script_commands(names.drop_last());
        if spec_is_script(names.last()) {
            rest.push("./"@ + names.last())
        } else {
            rest
        }
    }
}

/// The commands a project directory offers: every `*.sh` file of the given
/// directory listing, as a `./<name>` command line, sorted by name.
pub fn script_file_commands(names: &Vec<String>) -> (out: Vec<String>)
    ensures
        out.deep_view().to_multiset() == spec_script_commands(names.deep_view()).to_multiset(),
        sorted_by(out.deep_view(), lex_leq()),
{
    broadcast use vstd::seq_lib::group_to_multiset_ensures;

    let mut picked: Vec<String> = Vec::new();
    let mut i: usize = 0;
    proof {
        assert(names.deep_view().take(0) =~= Seq::<Seq<char>>::empty());
    }
    while i < names.len()
        invariant
            0 <= i <= names.len(),
            picked.deep_view() == spec_script_commands(names.deep_view().take(i as int)),
        decreases names.len() - i,
    {
        let ghost prefix = names.deep_view().take(i as int);
        let ghost name_view = names.deep_view()[i as int];
        let ghost before = picked.deep_view();
        let name = &names[i];
        let n = name.as_str().unicode_len();
        if n > 3 && name.as_str().get_char(n - 3) == '.' && name.as_str().get_char(n - 2) == 's'
            && name.as_str().get_char(n - 1) == 'h' {
            let mut cmd = "./".to_owned();
            cmd.append(name.as_str());
            proof {
                reveal_strlit("./");
            }
            picked.push(cmd);
            proof {
                assert(picked.deep_view() =~= before.push("./"@ + name_view));
            }
        }
        proof {
            assert(names.deep_view().take(i + 1 as int).drop_last() =~= prefix);
            assert(names.deep_view().take(i + 1 as int).last() == name_view);
        }
        i = i + 1;
    }
    proof {
        assert(names.deep_view().take(names.len() as int) =~= names.deep_view());
    }
    let mut out: Vec<String> = Vec::new();
    let mut j: usize = 0;
    proof {
        assert(picked.deep_view().take(0) =~= Seq::<Seq<char>>::empty());
        assert(Seq::<Seq<char>>::empty().to_multiset() =~= out.deep_view().to_multiset());
    }
    while j < picked.len()
        invariant
            0 <= j <= picked.len(),
            sorted_by(out.deep_view(), lex_leq()),
            out.deep_view().to_multiset() == picked.deep_view().take(j as int).to_multiset(),
        decreases picked.len() - j,
    {
        let ghost prefix = picked.deep_view().take(j as int);
        insert_sorted(&mut out, picked[j].clone());
        proof {
            assert(picked.deep_view().take(j + 1 as int) =~= prefix.push(
                picked.deep_view()[j as int],
            ));
            prefix.to_multiset_ensures();
            assert(prefix.push(picked.deep_view()[j as int]).to_multiset()
                =~= prefix.to_multiset().insert(picked.deep_view()[j as int]));
        }
        j = j + 1;
    }
    proof {
        assert(picked.deep_view().take(picked.len() as int) =~= picked.deep_view());
    }
    out
}

} // verus!
