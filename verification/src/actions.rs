//! Actions, their key bindings, and the contextual action set that resolves a
//! chord to the action it triggers.

use vstd::prelude::*;
use vstd::std_specs::slice::{axiom_spec_slice_iter, into_iter_elts};
use vstd::string::*;
use std::slice::Iter;
use crate::key::Key;

verus! {

/// Every intent a keystroke can express, in the order that decides which one
/// wins when a chord could mean several.
#[derive(Debug, Clone, Copy, PartialEq, Eq, Structural, Hash)]
pub enum Action {
    Quit,
    NextFocus,
    PreviousFocus,
    SetUiMode,
    ToggleConfig,
    GoUp,
    GoDown,
    TakeUserInput,
    Escape,
    Enter,
}

impl Action {
    /// All actions, in declaration order.
    pub open spec fn all() -> Seq<Action> {
        seq![
            Action::Quit,
            Action::NextFocus,
            Action::PreviousFocus,
            Action::SetUiMode,
            Action::ToggleConfig,
            Action::GoUp,
            Action::GoDown,
            Action::TakeUserInput,
            Action::Escape,
            Action::Enter,
        ]
    }

    /// The action's place in the declaration order.
    pub open spec fn ordinal(self) -> int {
        match self {
            Action::Quit => 0,
            Action::NextFocus => 1,
            Action::PreviousFocus => 2,
            Action::SetUiMode => 3,
            Action::ToggleConfig => 4,
            Action::GoUp => 5,
            Action::GoDown => 6,
            Action::TakeUserInput => 7,
            Action::Escape => 8,
            Action::Enter => 9,
        }
    }

    /// The chords bound to the action.
    pub open spec fn keys_spec(self) -> Seq<Key> {
        match self {
            Action::Quit => seq![Key::Ctrl('c'), Key::Char('q')],
            Action::NextFocus => seq![Key::Tab],
            Action::PreviousFocus => seq![Key::ShiftTab],
            Action::SetUiMode => seq![
                Key::Char('1'),
                Key::Char('2'),
                Key::Char('3'),
                Key::Char('4'),
                Key::Char('5'),
                Key::Char('6'),
                Key::Char('7'),
                Key::Char('8'),
            ],
            Action::ToggleConfig => seq![Key::Char('c')],
            Action::GoUp => seq![Key::Up],
            Action::GoDown => seq![Key::Down],
            Action::TakeUserInput => seq![Key::Char('i')],
            Action::Escape => seq![Key::Esc],
            Action::Enter => seq![Key::Enter],
        }
    }

    /// The action's short description for help views.
    pub open spec fn label(self) -> Seq<char> {
        match self {
            Action::Quit => "Quit"@,
            Action::NextFocus => "Focus next"@,
            Action::PreviousFocus => "Focus previous"@,
            Action::SetUiMode => "Set UI mode"@,
            Action::ToggleConfig => "Open config Menu"@,
            Action::GoUp => "Go up"@,
            Action::GoDown => "Go down"@,
            Action::TakeUserInput => "Enter input mode"@,
            Action::Escape => "Go to previous mode"@,
            Action::Enter => "Accept"@,
        }
    }

    /// All actions, in declaration order.
    pub fn list() -> (all: &'static [Action])
        ensures
            all@ == Action::all(),
    {
        let all: &'static [Action] = &[
            Action::Quit,
            Action::NextFocus,
            Action::PreviousFocus,
            Action::SetUiMode,
            Action::ToggleConfig,
            Action::GoUp,
            Action::GoDown,
            Action::TakeUserInput,
            Action::Escape,
            Action::Enter,
        ];
        assert(all@ =~= Action::all());
        all
    }

    /// An iterator over all actions, in declaration order.
    pub fn iterator() -> (all: Iter<'static, Action>)
        ensures
            into_iter_elts(all) == Action::all(),
    {
        let all = Action::list().iter();
        proof {
            broadcast use axiom_spec_slice_iter;

            assert(into_iter_elts(all) =~= Action::all());
        }
        all
    }

    /// The chords bound to the action.
    pub fn keys(&self) -> (keys: &[Key])
        ensures
            keys@ == self.keys_spec(),
    {
        let keys: &[Key] = match self {
            Action::Quit => &[Key::Ctrl('c'), Key::Char('q')],
            Action::NextFocus => &[Key::Tab],
            Action::PreviousFocus => &[Key::ShiftTab],
            Action::SetUiMode => &[
                Key::Char('1'),
                Key::Char('2'),
                Key::Char('3'),
                Key::Char('4'),
                Key::Char('5'),
                Key::Char('6'),
                Key::Char('7'),
                Key::Char('8'),
            ],
            Action::ToggleConfig => &[Key::Char('c')],
            Action::GoUp => &[Key::Up],
            Action::GoDown => &[Key::Down],
            Action::TakeUserInput => &[Key::Char('i')],
            Action::Escape => &[Key::Esc],
            Action::Enter => &[Key::Enter],
        };
        assert(keys@ =~= self.keys_spec());
        keys
    }

    /// The action's short description for help views.
    pub fn as_str(&self) -> (s: &'static str)
        ensures
            s@ == self.label(),
    {
        match self {
            Action::Quit => "Quit",
            Action::NextFocus => "Focus next",
            Action::PreviousFocus => "Focus previous",
            Action::SetUiMode => "Set UI mode",
            Action::ToggleConfig => "Open config Menu",
            Action::GoUp => "Go up",
            Action::GoDown => "Go down",
            Action::TakeUserInput => "Enter input mode",
            Action::Escape => "Go to previous mode",
            Action::Enter => "Accept",
        }
    }

    /// The action's short description as an owned string.
    pub fn to_string(&self) -> (s: String)
        ensures
            s@ == self.label(),
    {
        self.as_str().to_owned()
    }
}

/// Every action sits in `Action::all()` at its ordinal.
pub proof fn lemma_ordinal(a: Action)
    ensures
        0 <= a.ordinal() < Action::all().len(),
        Action::all()[a.ordinal()] == a,
{
}

/// Whether `key` is one of `keys`.
pub fn key_among(keys: &[Key], key: Key) -> (found: bool)
    ensures
        found == keys@.contains(key),
{
    let mut n: usize = 0;
    while n < keys.len()
        invariant
            0 <= n <= keys.len(),
            forall|m: int| 0 <= m < n ==> keys@[m] != key,
        decreases keys.len() - n,
    {
        if keys[n] == key {
            return true;
        }
        n = n + 1;
    }
    false
}

/// One row of the key binding table: an action and the chords bound to it.
#[derive(Debug)]
pub struct Binding {
    pub action: Action,
    pub keys: Vec<Key>,
}

/// A row of the key binding table as plain values.
pub struct BindingView {
    pub action: Action,
    pub keys: Seq<Key>,
}

impl View for Binding {
    type V = BindingView;

    open spec fn view(&self) -> BindingView {
        BindingView { action: self.action, keys: self.keys@ }
    }
}

/// The rows as plain values.
pub open spec fn row_views(rows: Seq<Binding>) -> Seq<BindingView> {
    Seq::new(rows.len(), |i: int| rows[i]@)
}

/// The rows that bind each of `actions`, in their order, to its built-in
/// chords.
pub open spec fn default_rows(actions: Seq<Action>) -> Seq<BindingView> {
    Seq::new(
        actions.len(),
        |i: int| BindingView { action: actions[i], keys: actions[i].keys_spec() },
    )
}

/// Two rows of a binding table that answer to the same chord.
#[derive(Debug, Clone, Copy, PartialEq, Eq, Structural)]
pub struct KeyConflict {
    /// The chord both rows bind.
    pub key: Key,
    /// The action of the row listed first.
    pub first: Action,
    /// The action of the row listed later.
    pub second: Action,
    /// Where the first row stands in the table.
    pub first_index: usize,
    /// Where the second row stands in the table.
    pub second_index: usize,
}

/// Rows `i` and `j`, `i` before `j`, both bind `key`.
pub open spec fn is_conflict(rows: Seq<BindingView>, i: int, j: int, key: Key) -> bool {
    &&& 0 <= i < j < rows.len()
    &&& rows[i].keys.contains(key)
    &&& rows[j].keys.contains(key)
}

/// No chord is bound by two rows.
pub open spec fn conflict_free(rows: Seq<BindingView>) -> bool {
    forall|i: int, j: int, key: Key| !#[trigger] is_conflict(rows, i, j, key)
}

/// The record of rows `i` and `j` colliding on `key`.
pub open spec fn conflict_at(rows: Seq<BindingView>, i: int, j: int, key: Key) -> KeyConflict {
    KeyConflict {
        key,
        first: rows[i].action,
        second: rows[j].action,
        first_index: i as usize,
        second_index: j as usize,
    }
}

/// The collisions of rows `i` and `j` on the first `p` chords of row `i`, in
/// the order of those chords.
pub open spec fn pair_conflicts(rows: Seq<BindingView>, i: int, j: int, p: int) -> Seq<
    KeyConflict,
>
    decreases p,
{
    if p <= 0 {
        Seq::empty()
    } else {
        let earlier = pair_conflicts(rows, i, j, p - 1);
        let key = rows[i].keys[p - 1];
        if rows[j].keys.contains(key) {
            earlier.push(conflict_at(rows, i, j, key))
        } else {
            earlier
        }
    }
}

/// The collisions of row `i` with the rows after it and before `j`.
pub open spec fn row_conflicts(rows: Seq<BindingView>, i: int, j: int) -> Seq<KeyConflict>
    decreases j - i,
{
    if j <= i + 1 {
        Seq::empty()
    } else {
        row_conflicts(rows, i, j - 1) + pair_conflicts(rows, i, j - 1, rows[i].keys.len() as int)
    }
}

/// The collisions whose first row stands before `i`.
pub open spec fn conflicts_below(rows: Seq<BindingView>, i: int) -> Seq<KeyConflict>
    decreases i,
{
    if i <= 0 {
        Seq::empty()
    } else {
        conflicts_below(rows, i - 1) + row_conflicts(rows, i - 1, rows.len() as int)
    }
}

/// Every collision in a table: ordered by the first row, then the second,
/// then the chord's place among the first row's chords.
pub open spec fn conflicts_of(rows: Seq<BindingView>) -> Seq<KeyConflict> {
    conflicts_below(rows, rows.len() as int)
}

impl KeyConflict {
    /// The record names two rows of the table that really share its chord.
    pub open spec fn describes(self, rows: Seq<BindingView>) -> bool {
        &&& is_conflict(rows, self.first_index as int, self.second_index as int, self.key)
        &&& self.first == rows[self.first_index as int].action
        &&& self.second == rows[self.second_index as int].action
    }
}

proof fn lemma_pair_sound(rows: Seq<BindingView>, i: int, j: int, p: int, n: int)
    requires
        0 <= i < j < rows.len() <= usize::MAX,
        0 <= p <= rows[i].keys.len(),
        0 <= n < pair_conflicts(rows, i, j, p).len(),
    ensures
        pair_conflicts(rows, i, j, p)[n].describes(rows),
        pair_conflicts(rows, i, j, p)[n].first_index == i,
        pair_conflicts(rows, i, j, p)[n].second_index == j,
    decreases p,
{
    let earlier = pair_conflicts(rows, i, j, p - 1);
    if n < earlier.len() {
        lemma_pair_sound(rows, i, j, p - 1, n);
    } else {
        let key = rows[i].keys[p - 1];
        assert(rows[i].keys.contains(key));
    }
}

proof fn lemma_pair_complete(rows: Seq<BindingView>, i: int, j: int, p: int, q: int)
    requires
        0 <= q < p <= rows[i].keys.len(),
        rows[j].keys.contains(rows[i].keys[q]),
    ensures
        pair_conflicts(rows, i, j, p).contains(conflict_at(rows, i, j, rows[i].keys[q])),
    decreases p,
{
    let earlier = pair_conflicts(rows, i, j, p - 1);
    let now = pair_conflicts(rows, i, j, p);
    let wanted = conflict_at(rows, i, j, rows[i].keys[q]);
    if q == p - 1 {
        assert(now[now.len() - 1] == wanted);
    } else {
        lemma_pair_complete(rows, i, j, p - 1, q);
        let at = choose|at: int| 0 <= at < earlier.len() && earlier[at] == wanted;
        assert(now[at] == wanted);
    }
}

proof fn lemma_row_sound(rows: Seq<BindingView>, i: int, j: int, n: int)
    requires
        0 <= i < j <= rows.len() <= usize::MAX,
        0 <= n < row_conflicts(rows, i, j).len(),
    ensures
        row_conflicts(rows, i, j)[n].describes(rows),
        row_conflicts(rows, i, j)[n].first_index == i,
    decreases j - i,
{
    if j > i + 1 {
        let earlier = row_conflicts(rows, i, j - 1);
        if n < earlier.len() {
            lemma_row_sound(rows, i, j - 1, n);
        } else {
            lemma_pair_sound(rows, i, j - 1, rows[i].keys.len() as int, n - earlier.len());
        }
    }
}

proof fn lemma_row_complete(rows: Seq<BindingView>, i: int, j: int, k: int, key: Key)
    requires
        is_conflict(rows, i, k, key),
        k < j <= rows.len(),
    ensures
        row_conflicts(rows, i, j).contains(conflict_at(rows, i, k, key)),
    decreases j - i,
{
    let earlier = row_conflicts(rows, i, j - 1);
    let last = pair_conflicts(rows, i, j - 1, rows[i].keys.len() as int);
    let wanted = conflict_at(rows, i, k, key);
    if k == j - 1 {
        let keys = rows[i].keys;
        let q = choose|q: int| 0 <= q < keys.len() && keys[q] == key;
        lemma_pair_complete(rows, i, k, keys.len() as int, q);
        let at = choose|at: int| 0 <= at < last.len() && last[at] == wanted;
        assert((earlier + last)[earlier.len() + at] == wanted);
    } else {
        lemma_row_complete(rows, i, j - 1, k, key);
        let at = choose|at: int| 0 <= at < earlier.len() && earlier[at] == wanted;
        assert((earlier + last)[at] == wanted);
    }
}

proof fn lemma_below_sound(rows: Seq<BindingView>, i: int, n: int)
    requires
        0 <= i <= rows.len() <= usize::MAX,
        0 <= n < conflicts_below(rows, i).len(),
    ensures
        conflicts_below(rows, i)[n].describes(rows),
    decreases i,
{
    if i > 0 {
        let earlier = conflicts_below(rows, i - 1);
        if n < earlier.len() {
            lemma_below_sound(rows, i - 1, n);
        } else {
            lemma_row_sound(rows, i - 1, rows.len() as int, n - earlier.len());
        }
    }
}

proof fn lemma_below_complete(rows: Seq<BindingView>, bound: int, i: int, j: int, key: Key)
    requires
        is_conflict(rows, i, j, key),
        i < bound <= rows.len(),
    ensures
        conflicts_below(rows, bound).contains(conflict_at(rows, i, j, key)),
    decreases bound,
{
    let earlier = conflicts_below(rows, bound - 1);
    let last = row_conflicts(rows, bound - 1, rows.len() as int);
    let wanted = conflict_at(rows, i, j, key);
    if i == bound - 1 {
        lemma_row_complete(rows, i, rows.len() as int, j, key);
        let at = choose|at: int| 0 <= at < last.len() && last[at] == wanted;
        assert((earlier + last)[earlier.len() + at] == wanted);
    } else {
        lemma_below_complete(rows, bound - 1, i, j, key);
        let at = choose|at: int| 0 <= at < earlier.len() && earlier[at] == wanted;
        assert((earlier + last)[at] == wanted);
    }
}

/// Every record in `conflicts_of` names a real collision: two rows of the
/// table, the first before the second, that both bind the record's chord.
pub proof fn lemma_conflicts_sound(rows: Seq<BindingView>, n: int)
    requires
        rows.len() <= usize::MAX,
        0 <= n < conflicts_of(rows).len(),
    ensures
        conflicts_of(rows)[n].describes(rows),
{
    lemma_below_sound(rows, rows.len() as int, n);
}

/// Every collision is listed: whenever two rows share a chord,
/// `conflicts_of` holds the record of that pair and chord.
pub proof fn lemma_conflicts_complete(rows: Seq<BindingView>, i: int, j: int, key: Key)
    requires
        is_conflict(rows, i, j, key),
    ensures
        conflicts_of(rows).contains(conflict_at(rows, i, j, key)),
{
    lemma_below_complete(rows, rows.len() as int, i, j, key);
}

/// A table has no collision to report exactly when it is conflict free.
pub proof fn lemma_conflict_free_iff_none(rows: Seq<BindingView>)
    requires
        rows.len() <= usize::MAX,
    ensures
        conflict_free(rows) <==> conflicts_of(rows).len() == 0,
{
    if conflicts_of(rows).len() > 0 {
        lemma_conflicts_sound(rows, 0);
        let c = conflicts_of(rows)[0];
        assert(is_conflict(rows, c.first_index as int, c.second_index as int, c.key));
    }
    if !conflict_free(rows) {
        let (i, j, key) = choose|i: int, j: int, key: Key| is_conflict(rows, i, j, key);
        lemma_conflicts_complete(rows, i, j, key);
    }
}

/// What is said of one collision: the chord and the two actions.
pub open spec fn conflict_line(conflict: KeyConflict) -> Seq<char> {
    "Conflict key "@ + conflict.key.label() + " with actions "@ + conflict.first.label() + ", "@
        + conflict.second.label()
}

/// What is said of the first `n` collisions: their lines, with `; ` between
/// one and the next.
pub open spec fn conflict_lines(conflicts: Seq<KeyConflict>, n: int) -> Seq<char>
    decreases n,
{
    if n <= 0 {
        Seq::empty()
    } else if n == 1 {
        conflict_line(conflicts[0])
    } else {
        conflict_lines(conflicts, n - 1) + "; "@ + conflict_line(conflicts[n - 1])
    }
}

/// The report of a failed `build`, in words: one line for each collision.
pub fn conflict_message(conflicts: &Vec<KeyConflict>) -> (message: String)
    ensures
        message@ == conflict_lines(conflicts@, conflicts.len() as int),
{
    let mut message = String::new();
    let mut n: usize = 0;
    assert(message@ =~= conflict_lines(conflicts@, 0));
    while n < conflicts.len()
        invariant
            0 <= n <= conflicts.len(),
            message@ == conflict_lines(conflicts@, n as int),
        decreases conflicts.len() - n,
    {
        let ghost before = message@;
        if n > 0 {
            message.append("; ");
        }
        let conflict = conflicts[n];
        message.append("Conflict key ");
        conflict.key.push_label(&mut message);
        message.append(" with actions ");
        message.append(conflict.first.as_str());
        message.append(", ");
        message.append(conflict.second.as_str());
        n = n + 1;
        proof {
            let line = conflict_line(conflict);
            if n == 1 {
                assert(message@ =~= line);
            } else {
                assert(message@ =~= before + "; "@ + line);
            }
        }
    }
    message
}

/// Appends the collisions of rows `i` and `j` to `out`.
fn push_pair_conflicts(rows: &Vec<Binding>, i: usize, j: usize, out: &mut Vec<KeyConflict>)
    requires
        i < j < rows.len(),
    ensures
        final(out)@ == old(out)@ + pair_conflicts(
            row_views(rows@),
            i as int,
            j as int,
            rows@[i as int].keys@.len() as int,
        ),
{
    let first = &rows[i];
    let second = &rows[j];
    let mut p: usize = 0;
    assert(out@ =~= old(out)@ + pair_conflicts(row_views(rows@), i as int, j as int, 0));
    while p < first.keys.len()
        invariant
            0 <= p <= first.keys.len(),
            i < j < rows.len(),
            *first == rows@[i as int],
            *second == rows@[j as int],
            out@ == old(out)@ + pair_conflicts(row_views(rows@), i as int, j as int, p as int),
        decreases first.keys.len() - p,
    {
        let key = first.keys[p];
        if key_among(second.keys.as_slice(), key) {
            out.push(
                KeyConflict {
                    key,
                    first: first.action,
                    second: second.action,
                    first_index: i,
                    second_index: j,
                },
            );
        }
        p = p + 1;
        assert(out@ =~= old(out)@ + pair_conflicts(
            row_views(rows@),
            i as int,
            j as int,
            p as int,
        ));
    }
}

/// Every collision in a table, in the order of `conflicts_of`.
pub fn find_conflicts(rows: &Vec<Binding>) -> (conflicts: Vec<KeyConflict>)
    ensures
        conflicts@ == conflicts_of(row_views(rows@)),
        conflicts.len() == 0 <==> conflict_free(row_views(rows@)),
{
    let ghost views = row_views(rows@);
    let mut conflicts: Vec<KeyConflict> = Vec::new();
    let mut i: usize = 0;
    while i < rows.len()
        invariant
            0 <= i <= rows.len(),
            views == row_views(rows@),
            conflicts@ == conflicts_below(views, i as int),
        decreases rows.len() - i,
    {
        let ghost base = conflicts@;
        let mut j: usize = i + 1;
        assert(conflicts@ =~= base + row_conflicts(views, i as int, j as int));
        while j < rows.len()
            invariant
                i < j <= rows.len(),
                views == row_views(rows@),
                conflicts@ == base + row_conflicts(views, i as int, j as int),
            decreases rows.len() - j,
        {
            push_pair_conflicts(rows, i, j, &mut conflicts);
            j = j + 1;
            assert(conflicts@ =~= base + row_conflicts(views, i as int, j as int));
        }
        i = i + 1;
    }
    proof {
        lemma_conflict_free_iff_none(views);
    }
    conflicts
}

/// The rows that bind each of `actions`, in their order, to its built-in
/// chords.
pub fn default_bindings(actions: &[Action]) -> (rows: Vec<Binding>)
    ensures
        row_views(rows@) == default_rows(actions@),
{
    let mut rows: Vec<Binding> = Vec::new();
    let mut n: usize = 0;
    assert(row_views(rows@) =~= default_rows(actions@.take(0)));
    while n < actions.len()
        invariant
            0 <= n <= actions.len(),
            rows.len() == n,
            row_views(rows@) == default_rows(actions@.take(n as int)),
        decreases actions.len() - n,
    {
        let action = actions[n];
        let given = action.keys();
        let mut keys: Vec<Key> = Vec::new();
        let mut k: usize = 0;
        while k < given.len()
            invariant
                0 <= k <= given.len(),
                keys@ == given@.take(k as int),
            decreases given.len() - k,
        {
            keys.push(given[k]);
            k = k + 1;
            assert(keys@ =~= given@.take(k as int));
        }
        assert(given@.take(given.len() as int) =~= given@);
        let ghost before = rows@;
        rows.push(Binding { action, keys });
        n = n + 1;
        proof {
            let wanted = default_rows(actions@.take(n as int));
            let earlier = default_rows(actions@.take(n as int - 1));
            assert(row_views(rows@).len() == wanted.len());
            assert forall|i: int| 0 <= i < wanted.len() implies row_views(rows@)[i]
                == wanted[i] by {
                if i < n - 1 {
                    assert(rows@[i] == before[i]);
                    assert(row_views(before)[i] == earlier[i]);
                    assert(actions@.take(n as int - 1)[i] == actions@.take(n as int)[i]);
                } else {
                    assert(rows@[i].keys@ == action.keys_spec());
                    assert(actions@.take(n as int)[i] == action);
                }
            }
            assert(row_views(rows@) =~= wanted);
        }
    }
    assert(actions@.take(actions.len() as int) =~= actions@);
    rows
}

/// `action` is in `context` and some row of the table binds `key` to it.
pub open spec fn binds(
    rows: Seq<BindingView>,
    context: Seq<Action>,
    key: Key,
    action: Action,
) -> bool {
    &&& context.contains(action)
    &&& exists|i: int|
        0 <= i < rows.len() && (#[trigger] rows[i]).action == action && rows[i].keys.contains(key)
}

/// `action` is what `key` triggers in `context`: the table binds `key` to it
/// there, and to no action before it in declaration order.
pub open spec fn is_resolution(
    rows: Seq<BindingView>,
    context: Seq<Action>,
    key: Key,
    action: Action,
) -> bool {
    &&& binds(rows, context, key, action)
    &&& forall|other: Action| #[trigger]
        binds(rows, context, key, other) ==> action.ordinal() <= other.ordinal()
}

/// What `key` triggers in `context` under the table, if anything.
pub open spec fn resolution(rows: Seq<BindingView>, context: Seq<Action>, key: Key) -> Option<
    Action,
> {
    if exists|action: Action| is_resolution(rows, context, key, action) {
        Some(choose|action: Action| is_resolution(rows, context, key, action))
    } else {
        None
    }
}

/// The resolution, where there is one, is the only action that qualifies.
pub proof fn lemma_resolution(
    rows: Seq<BindingView>,
    context: Seq<Action>,
    key: Key,
    action: Action,
)
    requires
        is_resolution(rows, context, key, action),
    ensures
        resolution(rows, context, key) == Some(action),
{
    let chosen = choose|a: Action| is_resolution(rows, context, key, a);
    assert(binds(rows, context, key, chosen));
    assert(binds(rows, context, key, action));
    lemma_ordinal(chosen);
    lemma_ordinal(action);
}

/// In a conflict-free table a chord is bound to at most one action, so what
/// it resolves to in a context is the only action of the context that it is
/// bound to.
pub proof fn lemma_resolution_unique(
    rows: Seq<BindingView>,
    context: Seq<Action>,
    key: Key,
    a: Action,
    b: Action,
)
    requires
        conflict_free(rows),
        binds(rows, context, key, a),
        binds(rows, context, key, b),
    ensures
        a == b,
{
    let i = choose|i: int|
        0 <= i < rows.len() && (#[trigger] rows[i]).action == a && rows[i].keys.contains(key);
    let j = choose|j: int|
        0 <= j < rows.len() && (#[trigger] rows[j]).action == b && rows[j].keys.contains(key);
    if i < j {
        assert(is_conflict(rows, i, j, key));
    } else if j < i {
        assert(is_conflict(rows, j, i, key));
    }
}

/// Where `action` first stands in `list`, if it is there.
fn position_of(list: &Vec<Action>, action: Action) -> (at: Option<usize>)
    ensures
        match at {
            Some(n) => n < list.len() && list@[n as int] == action,
            None => !list@.contains(action),
        },
{
    let mut n: usize = 0;
    while n < list.len()
        invariant
            0 <= n <= list.len(),
            forall|m: int| 0 <= m < n ==> list@[m] != action,
        decreases list.len() - n,
    {
        if list[n] == action {
            return Some(n);
        }
        n = n + 1;
    }
    None
}

/// The key binding table: which chords trigger which action. No chord is
/// bound by two rows, so a keystroke means at most one thing.
#[derive(Debug)]
pub struct KeyBindingTable {
    rows: Vec<Binding>,
}

impl View for KeyBindingTable {
    type V = Seq<BindingView>;

    closed spec fn view(&self) -> Seq<BindingView> {
        row_views(self.rows@)
    }
}

impl KeyBindingTable {
    /// The table is well formed: no chord is bound by two of its rows.
    pub open spec fn wf(&self) -> bool {
        conflict_free(self@)
    }

    /// Builds the table, or reports every pair of rows that share a chord.
    pub fn build(rows: Vec<Binding>) -> (built: Result<KeyBindingTable, Vec<KeyConflict>>)
        ensures
            built is Ok <==> conflict_free(row_views(rows@)),
            built matches Ok(table) ==> table@ == row_views(rows@) && table.wf(),
            built matches Err(conflicts) ==> conflicts@ == conflicts_of(row_views(rows@)),
    {
        let conflicts = find_conflicts(&rows);
        if conflicts.len() == 0 {
            Ok(KeyBindingTable { rows })
        } else {
            Err(conflicts)
        }
    }

    /// The table that binds every action to its built-in chords.
    pub fn defaults() -> (table: KeyBindingTable)
        ensures
            table@ == default_rows(Action::all()),
            table.wf(),
    {
        let rows = default_bindings(Action::list());
        proof {
            lemma_default_rows_conflict_free(Action::all());
        }
        KeyBindingTable { rows }
    }

    /// The rows of the table.
    pub fn rows(&self) -> (rows: &Vec<Binding>)
        ensures
            row_views(rows@) == self@,
    {
        &self.rows
    }

    /// Whether some row binds `key` to `action`.
    fn binds_key(&self, action: Action, key: Key) -> (bound: bool)
        ensures
            bound == exists|i: int|
                0 <= i < self@.len() && (#[trigger] self@[i]).action == action
                    && self@[i].keys.contains(key),
    {
        let mut n: usize = 0;
        while n < self.rows.len()
            invariant
                0 <= n <= self.rows.len(),
                forall|m: int|
                    0 <= m < n ==> !((#[trigger] self@[m]).action == action
                        && self@[m].keys.contains(key)),
            decreases self.rows.len() - n,
        {
            if self.rows[n].action == action && key_among(self.rows[n].keys.as_slice(), key) {
                assert(self@[n as int].action == action && self@[n as int].keys.contains(key));
                return true;
            }
            n = n + 1;
        }
        false
    }

    /// The action that `chord` triggers in `context`: the first action, in
    /// declaration order, that is in the context and that the table binds the
    /// chord to. In a well-formed table that is the only such action.
    pub fn resolve(&self, chord: Key, context: &Actions) -> (found: Option<Action>)
        ensures
            found == resolution(self@, context@, chord),
            match found {
                Some(action) => {
                    &&& binds(self@, context@, chord, action)
                    &&& forall|other: Action| #[trigger]
                        binds(self@, context@, chord, other) ==> action.ordinal()
                            <= other.ordinal()
                    &&& self.wf() ==> forall|other: Action| #[trigger]
                        binds(self@, context@, chord, other) ==> other == action
                },
                None => forall|other: Action| !#[trigger] binds(self@, context@, chord, other),
            },
    {
        let all = Action::list();
        let mut n: usize = 0;
        while n < all.len()
            invariant
                0 <= n <= all.len(),
                all@ == Action::all(),
                forall|m: int| 0 <= m < n ==> !binds(self@, context@, chord, #[trigger] all@[m]),
            decreases all.len() - n,
        {
            let candidate = all[n];
            if position_of(&context.0, candidate).is_some() && self.binds_key(candidate, chord) {
                proof {
                    assert(binds(self@, context@, chord, candidate));
                    assert forall|other: Action| #[trigger]
                        binds(self@, context@, chord, other) implies candidate.ordinal()
                        <= other.ordinal() by {
                        lemma_ordinal(other);
                        if other.ordinal() < n {
                            assert(!binds(self@, context@, chord, all@[other.ordinal()]));
                        }
                    }
                    if self.wf() {
                        assert forall|other: Action| #[trigger]
                            binds(self@, context@, chord, other) implies other == candidate by {
                            lemma_resolution_unique(self@, context@, chord, candidate, other);
                        }
                    }
                    lemma_resolution(self@, context@, chord, candidate);
                }
                return Some(candidate);
            }
            n = n + 1;
        }
        proof {
            assert forall|other: Action| !#[trigger] binds(self@, context@, chord, other) by {
                lemma_ordinal(other);
                assert(!binds(self@, context@, chord, all@[other.ordinal()]));
            }
            assert forall|other: Action| !is_resolution(self@, context@, chord, other) by {
                assert(!binds(self@, context@, chord, other));
            }
        }
        None
    }
}

/// The actions that are legal in the current context. With their built-in
/// chords no chord is bound to two of them.
#[derive(Debug, Clone)]
pub struct Actions(Vec<Action>);

impl View for Actions {
    type V = Seq<Action>;

    closed spec fn view(&self) -> Seq<Action> {
        self.0@
    }
}

impl Actions {
    /// The set is well formed: with the built-in chords, no chord is bound to
    /// two of its entries.
    pub open spec fn wf(&self) -> bool {
        conflict_free(default_rows(self@))
    }

    /// `action` is in the set and `key` is one of its built-in chords.
    pub open spec fn resolves(&self, key: Key, action: Action) -> bool {
        self@.contains(action) && action.keys_spec().contains(key)
    }

    /// Builds the contextual action set, or reports every pair of entries
    /// whose built-in chords collide.
    pub fn build(actions: Vec<Action>) -> (built: Result<Actions, Vec<KeyConflict>>)
        ensures
            built is Ok <==> conflict_free(default_rows(actions@)),
            built matches Ok(set) ==> set@ == actions@ && set.wf(),
            built matches Err(conflicts) ==> conflicts@ == conflicts_of(default_rows(actions@)),
    {
        let rows = default_bindings(actions.as_slice());
        let conflicts = find_conflicts(&rows);
        if conflicts.len() == 0 {
            Ok(Actions(actions))
        } else {
            Err(conflicts)
        }
    }

    /// Builds the contextual action set from a list in which no two entries
    /// share a built-in chord.
    pub fn from(actions: Vec<Action>) -> (set: Actions)
        requires
            conflict_free(default_rows(actions@)),
        ensures
            set@ == actions@,
            set.wf(),
    {
        Actions(actions)
    }

    /// The action that `key` triggers here under the built-in chords: the
    /// first action, in declaration order, that is in the set and bound to
    /// `key`. In a well-formed set that is the only such action.
    pub fn find(&self, key: Key) -> (found: Option<&Action>)
        ensures
            found matches Some(action) ==> resolution(
                default_rows(Action::all()),
                self@,
                key,
            ) == Some(*action),
            found is None ==> resolution(default_rows(Action::all()), self@, key) is None,
            match found {
                Some(action) => {
                    &&& self.resolves(key, *action)
                    &&& forall|other: Action| #[trigger]
                        self.resolves(key, other) ==> action.ordinal() <= other.ordinal()
                    &&& self.wf() ==> forall|other: Action| #[trigger]
                        self.resolves(key, other) ==> other == *action
                },
                None => forall|other: Action| !#[trigger] self.resolves(key, other),
            },
    {
        let all = Action::list();
        let ghost rows = default_rows(Action::all());
        proof {
            assert forall|other: Action|
                self.resolves(key, other) == #[trigger] binds(rows, self@, key, other) by {
                lemma_default_binds(self@, key, other);
            }
        }
        let mut n: usize = 0;
        while n < all.len()
            invariant
                0 <= n <= all.len(),
                all@ == Action::all(),
                rows == default_rows(Action::all()),
                forall|other: Action|
                    self.resolves(key, other) == #[trigger] binds(rows, self@, key, other),
                forall|m: int| 0 <= m < n ==> !self.resolves(key, #[trigger] all@[m]),
            decreases all.len() - n,
        {
            let candidate = all[n];
            if key_among(candidate.keys(), key) {
                if let Some(at) = position_of(&self.0, candidate) {
                    proof {
                        assert(self@[at as int] == candidate);
                        assert forall|other: Action| #[trigger]
                            self.resolves(key, other) implies candidate.ordinal()
                            <= other.ordinal() by {
                            lemma_ordinal(other);
                            if other.ordinal() < n {
                                assert(!self.resolves(key, all@[other.ordinal()]));
                            }
                        }
                        if self.wf() {
                            assert forall|other: Action| #[trigger]
                                self.resolves(key, other) implies other == candidate by {
                                lemma_set_resolution_unique(*self, key, candidate, other);
                            }
                        }
                        assert forall|other: Action| #[trigger]
                            binds(rows, self@, key, other) implies candidate.ordinal()
                            <= other.ordinal() by {
                            assert(self.resolves(key, other));
                        }
                        assert(binds(rows, self@, key, candidate));
                        lemma_resolution(rows, self@, key, candidate);
                    }
                    return Some(&self.0[at]);
                }
            }
            n = n + 1;
        }
        proof {
            assert forall|other: Action| !#[trigger] self.resolves(key, other) by {
                lemma_ordinal(other);
                assert(!self.resolves(key, all@[other.ordinal()]));
            }
            assert forall|other: Action| !is_resolution(rows, self@, key, other) by {
                assert(!self.resolves(key, other));
            }
        }
        None
    }

    /// The contextual actions, in the order they were given.
    pub fn actions(&self) -> (list: &[Action])
        ensures
            list@ == self@,
    {
        self.0.as_slice()
    }
}

impl Default for Actions {
    /// The empty set.
    fn default() -> (set: Actions)
        ensures
            set@ == Seq::<Action>::empty(),
            set.wf(),
    {
        Actions(Vec::new())
    }
}

/// Under the built-in table, an action of the context is bound to a chord
/// exactly if the chord is one of the action's built-in chords.
pub proof fn lemma_default_binds(context: Seq<Action>, key: Key, action: Action)
    ensures
        binds(default_rows(Action::all()), context, key, action) <==> (context.contains(action)
            && action.keys_spec().contains(key)),
{
    let rows = default_rows(Action::all());
    lemma_ordinal(action);
    if context.contains(action) && action.keys_spec().contains(key) {
        assert(rows[action.ordinal()].action == action && rows[action.ordinal()].keys.contains(
            key,
        ));
    }
}

/// Two different actions never share a built-in chord.
pub proof fn lemma_bindings_disjoint(a: Action, b: Action, key: Key)
    requires
        a != b,
    ensures
        !(a.keys_spec().contains(key) && b.keys_spec().contains(key)),
{
}

/// The built-in rows of a list that names no action twice are conflict free.
pub proof fn lemma_distinct_actions_conflict_free(actions: Seq<Action>)
    requires
        actions.no_duplicates(),
    ensures
        conflict_free(default_rows(actions)),
{
    let rows = default_rows(actions);
    assert forall|i: int, j: int, key: Key| !#[trigger] is_conflict(rows, i, j, key) by {
        if 0 <= i < j < actions.len() {
            lemma_bindings_disjoint(actions[i], actions[j], key);
        }
    }
}

/// The built-in table is conflict free.
pub proof fn lemma_default_rows_conflict_free(actions: Seq<Action>)
    requires
        actions == Action::all(),
    ensures
        conflict_free(default_rows(actions)),
{
    lemma_distinct_actions_conflict_free(actions);
}

/// In a well-formed set a chord resolves to at most one action: whatever is in
/// the set and bound to the chord is the one action `find` returns.
pub proof fn lemma_set_resolution_unique(set: Actions, key: Key, a: Action, b: Action)
    requires
        set.wf(),
        set.resolves(key, a),
        set.resolves(key, b),
    ensures
        a == b,
{
    let rows = default_rows(set@);
    let i = choose|i: int| 0 <= i < set@.len() && set@[i] == a;
    let j = choose|j: int| 0 <= j < set@.len() && set@[j] == b;
    if i < j {
        assert(is_conflict(rows, i, j, key));
    } else if j < i {
        assert(is_conflict(rows, j, i, key));
    }
}

} // verus!
