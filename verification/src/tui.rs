//! The application-mode state machine.
//!
//! `Mode` is the top-level application state: the main menu (which owns the
//! selection list), one of the placeholder game modes, or the terminal `Exit`
//! state. `spec_transition` is the complete transition relation; the
//! executable `handle_key` is proved to implement it.

use vstd::prelude::*;

use crate::keys::{is_global_quit, is_quit_key, KeyCode, KeyEvent, KeyKind};
use crate::menu::{labels_of, list_wf, next_cursor, prev_cursor, ListView, OptionList};

verus! {

/// The mathematical value of a `Mode`.
pub enum ModeView {
    Exit,
    MainMenu(ListView),
    FortyL,
    Blitz,
    TxLadder,
    Config,
}

/// The labels of a freshly built main menu, in order.
pub open spec fn menu_labels() -> Seq<Seq<char>> {
    seq!["40L"@, "Blitz"@, "txLadder"@, "Config"@]
}

/// A freshly built main-menu list: the four game labels, cursor unset.
pub open spec fn fresh_list_view() -> ListView {
    ListView { labels: menu_labels(), cursor: None }
}

/// Well-formedness of a mode: the main menu's list is well formed.
pub open spec fn mode_wf(m: ModeView) -> bool {
    m matches ModeView::MainMenu(l) ==> list_wf(l)
}

/// Which mode the enter key commits to: the mode named by the label under the
/// cursor. With no selection, a cursor outside the labels, or an unrecognized
/// label, the policy fails closed to `Exit`.
pub open spec fn commit_mode(l: ListView) -> ModeView {
    match l.cursor {
        None => ModeView::Exit,
        Some(i) => {
            if 0 <= i < l.labels.len() {
                let lbl = l.labels[i];
                if lbl == "40L"@ {
                    ModeView::FortyL
                } else if lbl == "Blitz"@ {
                    ModeView::Blitz
                } else if lbl == "txLadder"@ {
                    ModeView::TxLadder
                } else if lbl == "Config"@ {
                    ModeView::Config
                } else {
                    ModeView::Exit
                }
            } else {
                ModeView::Exit
            }
        },
    }
}

/// One key press handled inside the main menu: global quit wins, `j`/down and
/// `k`/up move the cursor, enter commits the selection, and every other key
/// leaves the menu unchanged.
pub open spec fn menu_step(l: ListView, k: KeyEvent) -> ModeView {
    if is_global_quit(k) {
        ModeView::Exit
    } else if k.code == KeyCode::Char('j') || k.code == KeyCode::Down {
        ModeView::MainMenu(ListView { labels: l.labels, cursor: next_cursor(l.cursor, l.labels.len() as int) })
    } else if k.code == KeyCode::Char('k') || k.code == KeyCode::Up {
        ModeView::MainMenu(ListView { labels: l.labels, cursor: prev_cursor(l.cursor, l.labels.len() as int) })
    } else if k.code == KeyCode::Enter {
        commit_mode(l)
    } else {
        ModeView::MainMenu(l)
    }
}

/// The complete transition relation of the application. Events that are not
/// key presses pass through without effect; `Exit` is absorbing; the main
/// menu follows `menu_step`; every placeholder game mode quits on a
/// global-quit key and returns to a fresh main menu on any other key.
pub open spec fn spec_transition(m: ModeView, k: KeyEvent) -> ModeView {
    if k.kind != KeyKind::Press {
        m
    } else {
        match m {
            ModeView::Exit => ModeView::Exit,
            ModeView::MainMenu(l) => menu_step(l, k),
            _ => if is_global_quit(k) {
                ModeView::Exit
            } else {
                ModeView::MainMenu(fresh_list_view())
            },
        }
    }
}

/// The top-level application state.
#[derive(Clone)]
pub enum Mode {
    /// Terminal state: the driving loop stops here.
    Exit,
    /// The main menu, owning its selection list.
    MainMenu(OptionList),
    /// Placeholder for the forty-lines game mode.
    FortyL,
    /// Placeholder for the blitz game mode.
    Blitz,
    /// Placeholder for the ladder game mode.
    TxLadder,
    /// Placeholder for the configuration screen.
    Config,
}

impl View for Mode {
    type V = ModeView;

    open spec fn view(&self) -> ModeView {
        match self {
            Mode::Exit => ModeView::Exit,
            Mode::MainMenu(l) => ModeView::MainMenu(l@),
            Mode::FortyL => ModeView::FortyL,
            Mode::Blitz => ModeView::Blitz,
            Mode::TxLadder => ModeView::TxLadder,
            Mode::Config => ModeView::Config,
        }
    }
}

impl Mode {
    /// Well-formedness of the mode's list, where it carries one.
    pub open spec fn wf(&self) -> bool {
        mode_wf(self@)
    }

    /// The state the application starts in: the main menu over the four game
    /// labels, with nothing selected.
    pub fn initial() -> (r: Mode)
        ensures
            r@ == ModeView::MainMenu(fresh_list_view()),
            r.wf(),
    {
        let mut items: Vec<String> = Vec::new();
        items.push(String::from_str("40L"));
        items.push(String::from_str("Blitz"));
        items.push(String::from_str("txLadder"));
        items.push(String::from_str("Config"));
        proof {
            assert(labels_of(items@) =~= menu_labels());
        }
        Mode::MainMenu(OptionList::new(items))
    }

    /// Advances the state machine by one input event, exactly as
    /// `spec_transition` states: events other than key presses are ignored,
    /// `Exit` is absorbing, the main menu handles the key through its list,
    /// and a placeholder game mode quits or returns to a fresh main menu.
    pub fn handle_key(self, key: KeyEvent) -> (r: Mode)
        requires
            self.wf(),
        ensures
            r@ == spec_transition(self@, key),
            r.wf(),
    {
        match key.kind {
            KeyKind::Press => {},
            _ => {
                return self;
            },
        }
        match self {
            Mode::Exit => Mode::Exit,
            Mode::MainMenu(list) => list.handle_key(key),
            _ => {
                if is_quit_key(key) {
                    Mode::Exit
                } else {
                    Mode::initial()
                }
            },
        }
    }

    /// True exactly on the terminal state; the driving loop stops when this
    /// holds.
    pub fn is_exit(&self) -> (r: bool)
        ensures
            r == (self@ is Exit),
    {
        match self {
            Mode::Exit => true,
            _ => false,
        }
    }
}

impl Default for Mode {
    /// The default mode is the initial one.
    fn default() -> (r: Mode)
        ensures
            r@ == ModeView::MainMenu(fresh_list_view()),
            r.wf(),
    {
        Mode::initial()
    }
}

/// Law: the transition relation preserves well-formedness, so the list's
/// cursor invariant holds in every state the application can reach.
pub proof fn lemma_transition_preserves_wf(m: ModeView, k: KeyEvent)
    requires
        mode_wf(m),
    ensures
        mode_wf(spec_transition(m, k)),
{
}

/// Law: the terminal state is absorbing — once `Exit` is reached, no event
/// changes the mode again.
pub proof fn lemma_exit_is_absorbing(k: KeyEvent)
    ensures
        spec_transition(ModeView::Exit, k) == ModeView::Exit,
{
}

/// Law: every non-terminal mode exits on each pressed key of the global-quit
/// set — `q`, escape, and control-`c`.
pub proof fn lemma_global_quit_exits(m: ModeView)
    requires
        !(m is Exit),
    ensures
        forall|k: KeyEvent|
            k.kind == KeyKind::Press && is_global_quit(k) ==> #[trigger] spec_transition(m, k)
                == ModeView::Exit,
{
}

/// Law: a placeholder game mode returns to a freshly built main menu — the
/// four game labels, nothing selected — on any pressed key outside the
/// global-quit set.
pub proof fn lemma_stub_returns_to_menu(m: ModeView, k: KeyEvent)
    requires
        m is FortyL || m is Blitz || m is TxLadder || m is Config,
        k.kind == KeyKind::Press,
        !is_global_quit(k),
    ensures
        spec_transition(m, k) == ModeView::MainMenu(fresh_list_view()),
{
}

} // verus!
