//! The first-run font prompt's decisions: whether to show it, the screen
//! flow (ask, installing, done), and the error text of a failed install
//! step. Downloading, unpacking and drawing are the caller's.

use vstd::prelude::*;

use crate::icons::IconTheme;
use crate::keys::Key;
use crate::text::{chars_of, owned, push_chars, push_str, split_fields, fields, is_char, trim, trimmed};

verus! {

/// The `HERDR_SIDEBAR_FONT_PROMPT` value as compared: trimmed and
/// lower-cased.
pub fn prompt_mode(raw: Option<&str>) -> (r: Option<String>)
    ensures
        match raw {
            Some(v) => r matches Some(m) && m@ == crate::git_panel::icons::lowercase(trim(v@)),
            None => r is None,
        },
{
    match raw {
        Some(v) => Some(crate::git_panel::icons::to_lowercase(crate::text::trim_str(v))),
        None => None,
    }
}

/// Show the prompt on a first run without a Nerd Font: never when the mode
/// is `off`; always when it is `force`; otherwise only while the prompt was
/// never answered, no theme was chosen, and no Nerd Font is installed.
pub open spec fn should_prompt_spec(mode: Option<Seq<char>>, answered: bool, theme_chosen: bool, installed: bool) -> bool {
    if mode == Some("off"@) {
        false
    } else if mode != Some("force"@) && (answered || theme_chosen || installed) {
        false
    } else {
        true
    }
}

pub fn should_prompt(mode: Option<&str>, answered: bool, theme_chosen: bool, installed: bool) -> (r: bool)
    ensures
        r == should_prompt_spec(
            match mode {
                Some(m) => Some(m@),
                None => None,
            },
            answered,
            theme_chosen,
            installed,
        ),
{
    let is_off = match mode {
        Some(m) => crate::text::eq_strings(m, "off"),
        None => false,
    };
    let is_force = match mode {
        Some(m) => crate::text::eq_strings(m, "force"),
        None => false,
    };
    if is_off {
        false
    } else if !is_force && (answered || theme_chosen || installed) {
        false
    } else {
        true
    }
}

/// The prompt's screens.
#[derive(Debug, PartialEq, Eq)]
pub enum Screen {
    Ask,
    Installing,
    Done(Result<(), String>),
}

/// What a key press on a screen leads to.
#[derive(Clone, Copy, Debug, PartialEq, Eq, Structural)]
pub enum PromptStep {
    /// Nothing changes.
    Stay,
    /// Start the install in the background; show the installing screen.
    Install,
    /// Record the prompt as answered and leave.
    Finish,
}

/// On the question, `y`, `Y` or Enter installs and any other key declines;
/// keys are ignored while installing; any key leaves the done screen.
pub open spec fn prompt_key_spec(screen: Screen, key: Key) -> PromptStep {
    match screen {
        Screen::Ask => if key == Key::Char('y') || key == Key::Char('Y') || key == Key::Enter {
            PromptStep::Install
        } else {
            PromptStep::Finish
        },
        Screen::Installing => PromptStep::Stay,
        Screen::Done(_) => PromptStep::Finish,
    }
}

pub fn prompt_key(screen: &Screen, key: Key) -> (r: PromptStep)
    ensures
        r == prompt_key_spec(*screen, key),
{
    match screen {
        Screen::Ask => if key == Key::Char('y') || key == Key::Char('Y') || key == Key::Enter {
            PromptStep::Install
        } else {
            PromptStep::Finish
        },
        Screen::Installing => PromptStep::Stay,
        Screen::Done(_) => PromptStep::Finish,
    }
}

/// A finished install: the done screen shows its outcome, and a success
/// commits to the material theme.
pub fn install_finished(result: Result<(), String>, icons: Option<IconTheme>) -> (r: (Screen, Option<IconTheme>))
    ensures
        r.0 == Screen::Done(result),
        r.1 == (if result is Ok {
            Some(IconTheme::Material)
        } else {
            icons
        }),
{
    let theme = if result.is_ok() {
        Some(IconTheme::Material)
    } else {
        icons
    };
    (Screen::Done(result), theme)
}

/// The message for a failed install step: `<prog> failed: <first line of
/// its error output, trimmed>`, or `(no output)` when it printed nothing.
pub open spec fn step_error_spec(prog: Seq<char>, stderr: Seq<char>) -> Seq<char> {
    let all = crate::docview::lines_spec(stderr);
    let first = if all.len() == 0 {
        "(no output)"@
    } else {
        all[0]
    };
    prog + " failed: "@ + trim(first)
}

pub fn step_error(prog: &str, stderr: &str) -> (r: String)
    ensures
        r@ == step_error_spec(prog@, stderr@),
{
    let all = crate::docview::lines(stderr);
    proof {
        assert(all@.len() == crate::docview::lines_spec(stderr@).len());
    }
    let mut out = String::new();
    push_str(&mut out, prog);
    push_str(&mut out, " failed: ");
    if all.len() == 0 {
        push_str(&mut out, "(no output)");
        proof {
            reveal_strlit("(no output)");
            crate::text::lemma_trim_keeps_solid("(no output)"@);
        }
    } else {
        assert(all@[0]@ == crate::docview::lines_spec(stderr@)[0]);
        let first = trimmed(&chars_of(all[0].as_str()));
        push_chars(&mut out, &first);
    }
    out
}

} // verus!
