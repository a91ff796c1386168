//! The selection state: a fixed, non-empty list of rows and a cursor index
//! into it, moved with wraparound by `next` and `previous`, read out by
//! `action`.

use vstd::prelude::*;
use vstd::string::*;
use crate::rows::Row;

verus! {

/// The application state: the row list, fixed at construction, and the
/// currently selected index, `None` only before the first cursor move.
pub struct App {
    pub items: Vec<Row>,
    pub selected: Option<usize>,
}

/// The index one step down from `i` in a list of length `n`, wrapping past
/// the last row to the first.
pub open spec fn next_index(i: int, n: int) -> int {
    if i >= n - 1 {
        0
    } else {
        i + 1
    }
}

/// The index one step up from `i` in a list of length `n`, wrapping past
/// the first row to the last.
pub open spec fn prev_index(i: int, n: int) -> int {
    if i == 0 {
        n - 1
    } else {
        i - 1
    }
}

/// Where the cursor lands when moving down from selection `sel`: on the
/// first row when nothing is selected yet, else one step down with wrap.
pub open spec fn next_selection(sel: Option<usize>, n: int) -> int {
    match sel {
        None => 0,
        Some(i) => next_index(i as int, n),
    }
}

/// Where the cursor lands when moving up from selection `sel`: on the
/// first row when nothing is selected yet, else one step up with wrap.
pub open spec fn prev_selection(sel: Option<usize>, n: int) -> int {
    match sel {
        None => 0,
        Some(i) => prev_index(i as int, n),
    }
}

impl App {
    /// The state invariant: the row list is non-empty (wraparound
    /// arithmetic needs it) and a selected index is in bounds.
    pub open spec fn wf(&self) -> bool {
        &&& self.items@.len() > 0
        &&& match self.selected {
            Some(i) => (i as int) < self.items@.len(),
            None => true,
        }
    }

    /// Builds the fixed three-row list and performs the initial cursor
    /// move, which lands on the first row.
    pub fn new() -> (app: App)
        ensures
            app.wf(),
            app.items@.len() == 3,
            app.selected == Some(0usize),
            app.items@[0].name@ == "Banco de Dados 1"@,
            app.items@[0].user@ == "Usuario 1"@,
            app.items@[0].engine@ == "MySQL"@,
            app.items@[1].name@ == "Banco de Dados 2"@,
            app.items@[1].user@ == "Usuario 2"@,
            app.items@[1].engine@ == "PostgreSQL"@,
            app.items@[2].name@ == "Banco de Dados 3"@,
            app.items@[2].user@ == "Usuario 3"@,
            app.items@[2].engine@ == "Sqlite"@,
    {
        let mut items: Vec<Row> = Vec::new();
        items.push(
            Row {
                name: String::from_str("Banco de Dados 1"),
                user: String::from_str("Usuario 1"),
                engine: String::from_str("MySQL"),
            },
        );
        items.push(
            Row {
                name: String::from_str("Banco de Dados 2"),
                user: String::from_str("Usuario 2"),
                engine: String::from_str("PostgreSQL"),
            },
        );
        items.push(
            Row {
                name: String::from_str("Banco de Dados 3"),
                user: String::from_str("Usuario 3"),
                engine: String::from_str("Sqlite"),
            },
        );
        let mut app = App { items, selected: None };
        app.next();
        app
    }

    /// Moves the selection one row down, wrapping from the last row to the
    /// first; selects the first row when nothing is selected yet.
    pub fn next(&mut self)
        requires
            old(self).wf(),
        ensures
            final(self).wf(),
            final(self).items@ == old(self).items@,
            final(self).selected == Some(
                next_selection(old(self).selected, old(self).items@.len() as int) as usize,
            ),
    {
        let i: usize = match self.selected {
            Some(i) => if i >= self.items.len() - 1 {
                0
            } else {
                i + 1
            },
            None => 0,
        };
        self.selected = Some(i);
    }

    /// Moves the selection one row up, wrapping from the first row to the
    /// last; selects the first row when nothing is selected yet.
    pub fn previous(&mut self)
        requires
            old(self).wf(),
        ensures
            final(self).wf(),
            final(self).items@ == old(self).items@,
            final(self).selected == Some(
                prev_selection(old(self).selected, old(self).items@.len() as int) as usize,
            ),
    {
        let i: usize = match self.selected {
            Some(i) => if i == 0 {
                self.items.len() - 1
            } else {
                i - 1
            },
            None => 0,
        };
        self.selected = Some(i);
    }

    /// Reports the current selection for confirmation. Never mutates the
    /// state, whatever moves came before.
    pub fn action(&mut self) -> (r: Option<usize>)
        ensures
            *final(self) == *old(self),
            r == old(self).selected,
    {
        self.selected
    }

    /// Runtime test of the state invariant, for callers outside the
    /// verified core.
    pub fn check_wf(&self) -> (b: bool)
        ensures
            b == self.wf(),
    {
        match self.selected {
            None => self.items.len() > 0,
            Some(i) => self.items.len() > 0 && i < self.items.len(),
        }
    }
}

/// The index reached after `k` downward moves from index `i` in a list of
/// length `n`.
pub open spec fn iterated_next(i: int, n: int, k: nat) -> int
    decreases k,
{
    if k == 0 {
        i
    } else {
        next_index(iterated_next(i, n, (k - 1) as nat), n)
    }
}

/// Moving down `k` times from a valid index `i` lands on `i + k`, as long
/// as that stays within the list, and back on the first row exactly when
/// `i + k` reaches the length.
pub proof fn lemma_iterated_next(i: int, n: int, k: nat)
    requires
        0 <= i < n,
        i + k <= n,
    ensures
        iterated_next(i, n, k) == if i + k == n {
            0int
        } else {
            i + k
        },
    decreases k,
{
    if k > 0 {
        lemma_iterated_next(i, n, (k - 1) as nat);
    }
}

/// Cycle law: on a non-empty list of length `n`, moving the selection down
/// `n` times from the first row returns it to the first row.
pub proof fn lemma_advance_cycle(n: int)
    requires
        n > 0,
    ensures
        iterated_next(0, n, n as nat) == 0,
{
    lemma_iterated_next(0, n, n as nat);
}

/// Inverse law: from any valid index, one move down followed by one move
/// up returns to that index, and so does one move up followed by one move
/// down.
pub proof fn lemma_advance_retreat_inverse(i: int, n: int)
    requires
        0 <= i < n,
    ensures
        prev_index(next_index(i, n), n) == i,
        next_index(prev_index(i, n), n) == i,
{
}

/// Wraparound boundaries: moving up from the first row lands on the last,
/// and moving down from the last row lands on the first.
pub proof fn lemma_wraparound(n: int)
    requires
        n > 0,
    ensures
        prev_index(0, n) == n - 1,
        next_index(n - 1, n) == 0,
{
}

} // verus!
