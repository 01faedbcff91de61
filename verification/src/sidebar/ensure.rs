//! The launcher's decisions for sidebar ensure/toggle runs: which tab a
//! hook's snooze marker belongs to, when a run must wait for the launcher
//! lock, what to do with the dock decision (focus, close, replace a dead
//! pane, or open one), and where a new sidebar docks.

use vstd::prelude::*;
use vstd::view::View as _;

use crate::json::{get_spec, get_str, str_of, Json};
use crate::panes::{focused_tab, focused_tab_spec, ListedPane};
use crate::sidebar::state::View;
use crate::text::{
    chars_of, eq_chars, eq_str, has_char, owned, replace_char, replace_chars, split_first,
    split_once_first, string_of,
};

verus! {

/// Why the launcher was invoked.
#[derive(Clone, Copy, Debug, PartialEq, Eq, Structural)]
pub enum Mode {
    /// A focus/create hook quietly ensures the Explorer exists.
    Ensure,
    /// An explicit user action toggles the requested view.
    Toggle(View),
}

/// The view a run docks: the Explorer for hooks, the requested view for
/// toggles.
pub fn mode_view(mode: Mode) -> (r: (bool, View))
    ensures
        r == match mode {
            Mode::Ensure => (false, View::Explorer),
            Mode::Toggle(v) => (true, v),
        },
{
    match mode {
        Mode::Ensure => (false, View::Explorer),
        Mode::Toggle(v) => (true, v),
    }
}

/// With auto-open off, hooks leave closed tabs alone; an explicit toggle
/// always runs.
pub fn should_run(toggle: bool, auto_open: bool) -> (r: bool)
    ensures
        r == (toggle || auto_open),
{
    toggle || auto_open
}

/// The tab a snooze marker is about: a scoped event names its tab
/// (`w:t`); an unscoped run uses the focused tab; a workspace-only scope
/// has no tab to snooze.
pub open spec fn snooze_tab_spec(panes: Option<Seq<ListedPane>>, scope: Seq<char>) -> Seq<char> {
    if scope.contains(':') {
        scope
    } else if scope.len() == 0 {
        focused_tab_spec(panes)
    } else {
        Seq::empty()
    }
}

pub fn snooze_tab_for_scope(panes: Option<&Vec<ListedPane>>, scope: &str) -> (r: String)
    ensures
        r@ == snooze_tab_spec(
            match panes {
                Some(v) => Some(v@),
                None => None,
            },
            scope@,
        ),
{
    let v = chars_of(scope);
    if has_char(&v, ':') {
        owned(scope)
    } else if v.len() == 0 {
        focused_tab(panes)
    } else {
        String::new()
    }
}

/// The kind of a plugin event: its `event` member with `.` read as `_`
/// (`tab.created` and `tab_created` are the same event); empty when the
/// event is missing or not JSON.
pub open spec fn event_kind_spec(event: Option<Json>) -> Seq<char> {
    match event {
        Some(v) => match str_of(get_spec(v, "event"@)) {
            Some(k) => replace_char(k, '.', "_"@),
            None => Seq::empty(),
        },
        None => Seq::empty(),
    }
}

pub fn event_kind(event: Option<&Json>) -> (r: String)
    ensures
        r@ == event_kind_spec(crate::json::deref_opt(event)),
{
    match event {
        Some(v) => match get_str(v, "event") {
            Some(k) => string_of(&replace_chars(&chars_of(k.as_str()), '.', "_")),
            None => String::new(),
        },
        None => String::new(),
    }
}

/// Discrete user actions and tab creation wait for the launcher lock;
/// redundant focus hooks only try it and yield.
pub open spec fn must_wait_spec(toggle: bool, event: Option<Json>) -> bool {
    toggle || event_kind_spec(event) == "tab_created"@
}

pub fn must_wait_for_lock(toggle: bool, event: Option<&Json>) -> (r: bool)
    ensures
        r == must_wait_spec(toggle, crate::json::deref_opt(event)),
{
    if toggle {
        return true;
    }
    let kind = event_kind(event);
    crate::text::eq_strings(kind.as_str(), "tab_created")
}

/// What to do with the dock decision of a run.
#[derive(Clone, Debug, PartialEq, Eq)]
pub enum EnsureStep {
    Nothing,
    /// Focus the existing pane.
    Focus(String),
    /// Ask the pane to close; when `snooze`, mark its tab snoozed.
    Close(String, bool),
    /// A dead pane: close it, re-list, and dock a fresh one.
    Replace(String),
    /// Dock a new pane; `focus` moves focus to it, `clear_snooze` clears the
    /// tab's snooze marker first.
    Open(bool, bool),
}

/// A step as the contracts see it.
pub enum StepView {
    Nothing,
    Focus(Seq<char>),
    Close(Seq<char>, bool),
    Replace(Seq<char>),
    Open(bool, bool),
}

pub open spec fn step_view(s: EnsureStep) -> StepView {
    match s {
        EnsureStep::Nothing => StepView::Nothing,
        EnsureStep::Focus(id) => StepView::Focus(id@),
        EnsureStep::Close(id, snooze) => StepView::Close(id@, snooze),
        EnsureStep::Replace(id) => StepView::Replace(id@),
        EnsureStep::Open(focus, clear) => StepView::Open(focus, clear),
    }
}

/// The dock when the decision is to open: a toggle docks (focusing the new
/// pane when the user wants that, and clearing the tab's snooze when the
/// view tracks one); a hook docks quietly unless the tab is snoozed.
pub open spec fn open_step(toggle: bool, tracks_snooze: bool, snoozed: bool, focus_on_open: bool) -> StepView {
    if toggle {
        StepView::Open(focus_on_open, tracks_snooze)
    } else if !snoozed {
        StepView::Open(false, false)
    } else {
        StepView::Nothing
    }
}

/// The run's step for a `OPEN` | `FOCUS <id>` | `CLOSE <id>` |
/// `REPLACE <id>` decision. Focus and close are for toggles only (hooks
/// never move focus or close); a dead pane is replaced either way.
pub open spec fn ensure_step_spec(
    toggle: bool,
    decision: Seq<char>,
    tracks_snooze: bool,
    snoozed: bool,
    focus_on_open: bool,
) -> StepView {
    match split_first(decision, ' ') {
        Some((verb, id)) => if verb == "FOCUS"@ {
            if toggle {
                StepView::Focus(id)
            } else {
                StepView::Nothing
            }
        } else if verb == "CLOSE"@ {
            if toggle {
                StepView::Close(id, tracks_snooze)
            } else {
                StepView::Nothing
            }
        } else if verb == "REPLACE"@ {
            StepView::Replace(id)
        } else {
            open_step(toggle, tracks_snooze, snoozed, focus_on_open)
        },
        None => open_step(toggle, tracks_snooze, snoozed, focus_on_open),
    }
}

fn open_step_of(toggle: bool, tracks_snooze: bool, snoozed: bool, focus_on_open: bool) -> (r: EnsureStep)
    ensures
        step_view(r) == open_step(toggle, tracks_snooze, snoozed, focus_on_open),
{
    if toggle {
        EnsureStep::Open(focus_on_open, tracks_snooze)
    } else if !snoozed {
        EnsureStep::Open(false, false)
    } else {
        EnsureStep::Nothing
    }
}

pub fn ensure_step(
    toggle: bool,
    decision: &str,
    tracks_snooze: bool,
    snoozed: bool,
    focus_on_open: bool,
) -> (r: EnsureStep)
    ensures
        step_view(r) == ensure_step_spec(toggle, decision@, tracks_snooze, snoozed, focus_on_open),
{
    let v = chars_of(decision);
    match split_once_first(&v, ' ') {
        Some((verb, id)) => {
            if eq_str(&verb, "FOCUS") {
                if toggle {
                    EnsureStep::Focus(string_of(&id))
                } else {
                    EnsureStep::Nothing
                }
            } else if eq_str(&verb, "CLOSE") {
                if toggle {
                    EnsureStep::Close(string_of(&id), tracks_snooze)
                } else {
                    EnsureStep::Nothing
                }
            } else if eq_str(&verb, "REPLACE") {
                EnsureStep::Replace(string_of(&id))
            } else {
                open_step_of(toggle, tracks_snooze, snoozed, focus_on_open)
            }
        },
        None => open_step_of(toggle, tracks_snooze, snoozed, focus_on_open),
    }
}

/// A hook never moves focus or closes a pane: whatever the decision, a
/// quiet run only docks (unfocused) or replaces a dead pane.
pub proof fn lemma_hooks_stay_quiet(decision: Seq<char>, tracks_snooze: bool, snoozed: bool, focus_on_open: bool)
    ensures
        !(ensure_step_spec(false, decision, tracks_snooze, snoozed, focus_on_open) is Focus),
        !(ensure_step_spec(false, decision, tracks_snooze, snoozed, focus_on_open) is Close),
        ensure_step_spec(false, decision, tracks_snooze, snoozed, focus_on_open) matches StepView::Open(
            f,
            _,
        ) ==> !f,
{
}

/// Where a new sidebar docks, from the dock plan line
/// (`<target>\t<ratio>\t<swap>`): the plan's target pane, or the focused
/// pane when the plan names none; and whether the new pane is swapped
/// into the target's slot (the plan's `true`/`false`, or, when it gives
/// neither, only for a left dock).
pub struct DockPlan {
    pub target: String,
    pub needs_swap: bool,
}

pub open spec fn dock_target_spec(plan: Seq<char>, focused_id: Seq<char>) -> Seq<char> {
    let fs = crate::text::fields(plan, crate::text::is_char('\t'));
    if fs[0].len() > 0 {
        fs[0]
    } else {
        focused_id
    }
}

pub open spec fn needs_swap_spec(plan: Seq<char>, dock_right: bool) -> bool {
    let fs = crate::text::fields(plan, crate::text::is_char('\t'));
    if fs.len() > 2 && fs[2] == "true"@ {
        true
    } else if fs.len() > 2 && fs[2] == "false"@ {
        false
    } else {
        !dock_right
    }
}

pub fn dock_plan(plan: &str, focused_id: &str, dock_right: bool) -> (r: DockPlan)
    ensures
        r.target@ == dock_target_spec(plan@, focused_id@),
        r.needs_swap == needs_swap_spec(plan@, dock_right),
{
    let fs = crate::text::split_fields(&chars_of(plan), '\t');
    proof {
        crate::text::lemma_fields_nonempty(plan@, crate::text::is_char('\t'));
    }
    let target = if fs[0].len() > 0 {
        string_of(&fs[0])
    } else {
        owned(focused_id)
    };
    let needs_swap = if fs.len() > 2 && eq_str(&fs[2], "true") {
        true
    } else if fs.len() > 2 && eq_str(&fs[2], "false") {
        false
    } else {
        !dock_right
    };
    DockPlan { target, needs_swap }
}

/// The pane a new sidebar is rooted from: the focused pane's id and
/// working directory (`<id>\t<cwd>`), or nothing to open when the scope
/// has no focused pane.
pub fn dock_source(focused: &str) -> (r: Option<(String, String)>)
    ensures
        match r {
            Some((id, cwd)) => split_first(focused@, '\t') == Some((id@, cwd@)),
            None => split_first(focused@, '\t') is None,
        },
{
    match split_once_first(&chars_of(focused), '\t') {
        Some((id, cwd)) => Some((string_of(&id), string_of(&cwd))),
        None => None,
    }
}

} // verus!
