//! The single-selection menu list.
//!
//! An `OptionList` is an ordered set of labels, fixed at construction, plus an
//! optional cursor. Navigation wraps circularly in both directions, never
//! leaves the label range, and is a no-op on an empty list.

use vstd::arithmetic::div_mod::{
    lemma_fundamental_div_mod, lemma_fundamental_div_mod_converse_mod,
    lemma_mod_division_less_than_divisor, lemma_mod_multiples_basic, lemma_small_mod,
};
use vstd::prelude::*;

use crate::keys::{KeyCode, KeyEvent};
use crate::tui::{commit_mode, menu_step, Mode};

verus! {

/// The mathematical value of an `OptionList`: the label texts in order, and
/// the cursor position, if one is set.
pub struct ListView {
    pub labels: Seq<Seq<char>>,
    pub cursor: Option<int>,
}

/// The views of a sequence of label strings, in order.
pub open spec fn labels_of(items: Seq<String>) -> Seq<Seq<char>> {
    items.map(|i: int, s: String| s@)
}

/// Well-formedness: a set cursor points at a label. On an empty list this
/// forces the cursor to stay unset.
pub open spec fn list_wf(l: ListView) -> bool {
    l.cursor matches Some(i) ==> 0 <= i < l.labels.len()
}

/// Where the cursor stands after one forward step: an unset cursor selects
/// the first label, a set one advances circularly, and an empty list changes
/// nothing.
pub open spec fn next_cursor(c: Option<int>, len: int) -> Option<int> {
    if len <= 0 {
        c
    } else {
        match c {
            None => Some(0int),
            Some(i) => Some(if i + 1 == len { 0int } else { i + 1 }),
        }
    }
}

/// Where the cursor stands after one backward step: an unset cursor selects
/// the last label, a set one retreats circularly, and an empty list changes
/// nothing.
pub open spec fn prev_cursor(c: Option<int>, len: int) -> Option<int> {
    if len <= 0 {
        c
    } else {
        match c {
            None => Some(len - 1),
            Some(i) => Some(if i == 0 { len - 1 } else { i - 1 }),
        }
    }
}

/// An ordered list of labels with one movable cursor.
#[derive(Clone)]
pub struct OptionList {
    items: Vec<String>,
    cursor: Option<usize>,
}

impl View for OptionList {
    type V = ListView;

    closed spec fn view(&self) -> ListView {
        ListView {
            labels: labels_of(self.items@),
            cursor: match self.cursor {
                None => None,
                Some(i) => Some(i as int),
            },
        }
    }
}

impl OptionList {
    /// The list's invariant; constructors establish it and every method
    /// preserves it.
    pub open spec fn wf(&self) -> bool {
        list_wf(self@)
    }

    /// Builds a list over `items` with the cursor unset.
    pub fn new(items: Vec<String>) -> (r: OptionList)
        ensures
            r@.labels == labels_of(items@),
            r@.cursor is None,
            r.wf(),
    {
        OptionList { items, cursor: None }
    }

    /// How many labels the list holds.
    pub fn len(&self) -> (r: usize)
        ensures
            r == self@.labels.len(),
    {
        self.items.len()
    }

    /// The label at position `i`.
    pub fn label(&self, i: usize) -> (r: String)
        requires
            i < self@.labels.len(),
        ensures
            r@ == self@.labels[i as int],
    {
        self.items[i].clone()
    }

    /// The cursor position, if one is set.
    pub fn selected_index(&self) -> (r: Option<usize>)
        ensures
            match r {
                None => self@.cursor is None,
                Some(j) => self@.cursor == Some(j as int),
            },
    {
        self.cursor
    }

    /// The label under the cursor, or nothing when the cursor is unset.
    pub fn selected(&self) -> (r: Option<String>)
        requires
            self.wf(),
        ensures
            match self@.cursor {
                None => r is None,
                Some(i) => r matches Some(s) && s@ == self@.labels[i],
            },
    {
        match self.cursor {
            None => None,
            Some(i) => Some(self.items[i].clone()),
        }
    }

    /// Moves the cursor one step forward, wrapping at the end; selects the
    /// first label when the cursor is unset; does nothing on an empty list.
    pub fn select_next(&mut self)
        requires
            old(self).wf(),
        ensures
            final(self).wf(),
            final(self)@.labels == old(self)@.labels,
            final(self)@.cursor == next_cursor(old(self)@.cursor, old(self)@.labels.len() as int),
    {
        let len = self.items.len();
        if len > 0 {
            self.cursor = match self.cursor {
                None => Some(0),
                Some(i) => Some(if i + 1 == len { 0 } else { i + 1 }),
            };
        }
    }

    /// Moves the cursor one step backward, wrapping at the start; selects the
    /// last label when the cursor is unset; does nothing on an empty list.
    pub fn select_previous(&mut self)
        requires
            old(self).wf(),
        ensures
            final(self).wf(),
            final(self)@.labels == old(self)@.labels,
            final(self)@.cursor == prev_cursor(old(self)@.cursor, old(self)@.labels.len() as int),
    {
        let len = self.items.len();
        if len > 0 {
            self.cursor = match self.cursor {
                None => Some(len - 1),
                Some(i) => Some(if i == 0 { len - 1 } else { i - 1 }),
            };
        }
    }

    /// Handles one pressed key inside the main menu, consuming the list and
    /// producing the next application mode, exactly as `menu_step` states.
    pub fn handle_key(self, key: KeyEvent) -> (r: Mode)
        requires
            self.wf(),
        ensures
            r@ == menu_step(self@, key),
            r.wf(),
    {
        let mut list = self;
        match key.code {
            KeyCode::Char(c) => {
                if c == 'q' || (c == 'c' && key.ctrl) {
                    Mode::Exit
                } else if c == 'j' {
                    list.select_next();
                    Mode::MainMenu(list)
                } else if c == 'k' {
                    list.select_previous();
                    Mode::MainMenu(list)
                } else {
                    Mode::MainMenu(list)
                }
            },
            KeyCode::Esc => Mode::Exit,
            KeyCode::Down => {
                list.select_next();
                Mode::MainMenu(list)
            },
            KeyCode::Up => {
                list.select_previous();
                Mode::MainMenu(list)
            },
            KeyCode::Enter => list.commit(),
            KeyCode::Other => Mode::MainMenu(list),
        }
    }

    /// Commits the current selection to a game mode, as `commit_mode` states:
    /// the label under the cursor names the mode; with no selection or an
    /// unrecognized label the policy fails closed to `Exit`.
    fn commit(self) -> (r: Mode)
        requires
            self.wf(),
        ensures
            r@ == commit_mode(self@),
            r.wf(),
    {
        match self.cursor {
            None => Mode::Exit,
            Some(i) => {
                let lbl = &self.items[i];
                if *lbl == String::from_str("40L") {
                    Mode::FortyL
                } else if *lbl == String::from_str("Blitz") {
                    Mode::Blitz
                } else if *lbl == String::from_str("txLadder") {
                    Mode::TxLadder
                } else if *lbl == String::from_str("Config") {
                    Mode::Config
                } else {
                    Mode::Exit
                }
            },
        }
    }
}

/// The cursor after `n` forward steps from cursor `c` over `len` labels.
pub open spec fn iter_next(c: Option<int>, len: int, n: nat) -> Option<int>
    decreases n,
{
    if n == 0 {
        c
    } else {
        next_cursor(iter_next(c, len, (n - 1) as nat), len)
    }
}

/// `n` alternating pairs of cursor steps from cursor `c`: each pair is a
/// forward step followed by a backward one when `next_first` holds, and the
/// two in the other order when it does not.
pub open spec fn iter_alternate(c: Option<int>, len: int, n: nat, next_first: bool) -> Option<int>
    decreases n,
{
    if n == 0 {
        c
    } else {
        let c1 = if next_first {
            prev_cursor(next_cursor(c, len), len)
        } else {
            next_cursor(prev_cursor(c, len), len)
        };
        iter_alternate(c1, len, (n - 1) as nat, next_first)
    }
}

/// Law: on a non-empty list with nothing selected, `n` forward steps land the
/// cursor on index `(n - 1) % L`; the first step establishes index 0, and
/// further steps advance circularly.
pub proof fn lemma_next_from_fresh(len: int, n: nat)
    requires
        len > 0,
        n >= 1,
    ensures
        iter_next(None, len, n) == Some((n - 1) as int % len),
    decreases n,
{
    if n == 1 {
        lemma_small_mod(0, len as nat);
    } else {
        lemma_next_from_fresh(len, (n - 1) as nat);
        let a = (n - 2) as int;
        lemma_mod_division_less_than_divisor(a, len);
        lemma_fundamental_div_mod(a, len);
        if a % len + 1 == len {
            let q = a / len;
            assert(a + 1 == (q + 1) * len) by (nonlinear_arith)
                requires
                    a == len * q + a % len,
                    a % len + 1 == len,
            ;
            lemma_mod_multiples_basic(q + 1, len);
        } else {
            lemma_fundamental_div_mod_converse_mod(a + 1, len, a / len, a % len + 1);
        }
    }
}

/// Law: a backward step immediately after construction selects the last
/// label.
pub proof fn lemma_previous_from_fresh(len: int)
    requires
        len > 0,
    ensures
        prev_cursor(None, len) == Some(len - 1),
{
}

/// Law: whenever a label is selected, one forward and one backward step
/// cancel, in either order.
pub proof fn lemma_next_previous_cancel(c: Option<int>, len: int)
    requires
        len > 0,
        c matches Some(i) && 0 <= i < len,
    ensures
        prev_cursor(next_cursor(c, len), len) == c,
        next_cursor(prev_cursor(c, len), len) == c,
{
}

/// Law: an equal number of alternating forward and backward steps, in either
/// order, returns the cursor to the label selected at the start.
pub proof fn lemma_alternation_returns(c: Option<int>, len: int, n: nat, next_first: bool)
    requires
        len > 0,
        c matches Some(i) && 0 <= i < len,
    ensures
        iter_alternate(c, len, n, next_first) == c,
    decreases n,
{
    if n > 0 {
        lemma_next_previous_cancel(c, len);
        lemma_alternation_returns(c, len, (n - 1) as nat, next_first);
    }
}

} // verus!
