//! The explorer binary's session loop decisions in a merged sidebar: the
//! first binary in the pane is the host; switching views runs the other
//! plugin's binary as a guest in the same terminal, and the guest hands the
//! pane back by exiting with `EXIT_SWITCH`.

use vstd::prelude::*;

use crate::filetree::sidebar::{View, EXIT_SWITCH};

verus! {

/// Why one TUI session ended.
#[derive(Clone, Copy, PartialEq, Eq, Debug, Structural)]
pub enum Exit {
    Quit,
    /// The user picked the other view.
    Switch,
}

/// What the session loop does next.
#[derive(Clone, Copy, PartialEq, Eq, Debug, Structural)]
pub enum Next {
    /// Run the explorer's own TUI.
    RunTui,
    /// Run the other view's binary as a guest.
    RunGuest,
    /// Exit with `EXIT_SWITCH`, handing the pane back to the waiting host.
    HandBack,
    /// Leave.
    Quit,
}

/// A merged sidebar opens on the view used last: a host whose last view
/// was the other one hands over at once instead of flashing its own TUI.
pub fn start(guest: bool, merged: bool, active: View) -> (r: Next)
    ensures
        r == (if !guest && merged && active != View::Explorer {
            Next::RunGuest
        } else {
            Next::RunTui
        }),
{
    if !guest && merged && active != View::Explorer {
        Next::RunGuest
    } else {
        Next::RunTui
    }
}

/// After the TUI ends: quitting leaves; a switch hands the pane back when
/// this process is itself a guest, and otherwise runs the other view.
pub open spec fn after_tui_spec(exit: Exit, guest: bool) -> Next {
    match exit {
        Exit::Quit => Next::Quit,
        Exit::Switch => if guest {
            Next::HandBack
        } else {
            Next::RunGuest
        },
    }
}

pub fn after_tui(exit: Exit, guest: bool) -> (r: Next)
    ensures
        r == after_tui_spec(exit, guest),
{
    match exit {
        Exit::Quit => Next::Quit,
        Exit::Switch => if guest {
            Next::HandBack
        } else {
            Next::RunGuest
        },
    }
}

/// After a guest ran (`None` when the other binary could not be started):
/// a hand-back returns to the explorer's TUI; any other exit quits. When
/// the guest was the one shown first, an unavailable binary falls back to
/// the explorer's own TUI.
pub fn after_guest(shown_first: bool, code: Option<i32>) -> (r: Next)
    ensures
        r == match code {
            Some(c) => if c == EXIT_SWITCH {
                Next::RunTui
            } else {
                Next::Quit
            },
            None => if shown_first {
                Next::RunTui
            } else {
                Next::Quit
            },
        },
{
    match code {
        Some(c) => if c == EXIT_SWITCH {
            Next::RunTui
        } else {
            Next::Quit
        },
        None => if shown_first {
            Next::RunTui
        } else {
            Next::Quit
        },
    }
}

/// A guest never spawns a nested guest: switching away in a guest always
/// hands the pane back, so the host-guest pair never nests deeper than one
/// level.
pub proof fn lemma_guests_do_not_nest(exit: Exit)
    ensures
        exit == Exit::Switch ==> after_tui_spec(exit, true) == Next::HandBack,
        after_tui_spec(exit, true) != Next::RunGuest,
{
}

} // verus!
