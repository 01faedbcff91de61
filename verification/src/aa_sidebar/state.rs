//! Unified-sidebar state for the sidebar binary that hosts both views:
//! which layout the user chose (one combined Sidebar pane or separate
//! Explorer / Source Control panes) and which view was active last, as
//! persisted in a small JSON file.

use vstd::prelude::*;
use vstd::view::View as _;

use crate::json::{bool_of, get_bool, get_spec, get_str, str_of, Json};
use crate::text::push_str;

pub use crate::filetree::sidebar::state_path;

verus! {

/// Pane label (and metadata identity) of the unified pane.
pub fn sidebar_label() -> (r: &'static str)
    ensures
        r@ == "Sidebar"@,
{
    "Sidebar"
}

/// Unix seconds now: the heartbeat clock for pane identity tokens.
pub fn unix_now() -> (s: u64) {
    crate::clock::unix_seconds()
}

/// Why a view's event loop ended.
#[derive(Clone, Copy, PartialEq, Eq, Debug, Structural)]
pub enum Exit {
    Quit,
    /// The user picked the other view; the host re-renders in process.
    Switch,
}

#[derive(Clone, Copy, PartialEq, Eq, Debug, Structural)]
pub enum View {
    Explorer,
    SourceControl,
}

pub open spec fn other_spec(v: View) -> View {
    match v {
        View::Explorer => View::SourceControl,
        View::SourceControl => View::Explorer,
    }
}

pub open spec fn label_spec(v: View) -> Seq<char> {
    match v {
        View::Explorer => "Explorer"@,
        View::SourceControl => "Source Control"@,
    }
}

pub open spec fn plugin_id_spec(v: View) -> Seq<char> {
    match v {
        View::Explorer => "herdr-aa-sidebar-explorer"@,
        View::SourceControl => "herdr-aa-sidebar-git"@,
    }
}

/// The `--view` flag value that pins a separated pane to a view.
pub open spec fn view_flag_spec(v: View) -> Seq<char> {
    match v {
        View::Explorer => "explorer"@,
        View::SourceControl => "git"@,
    }
}

pub open spec fn from_view_flag_spec(flag: Seq<char>) -> Option<View> {
    if flag == "explorer"@ {
        Some(View::Explorer)
    } else if flag == "git"@ {
        Some(View::SourceControl)
    } else {
        None
    }
}

pub open spec fn token_spec(v: View) -> Seq<char> {
    match v {
        View::Explorer => "explorer"@,
        View::SourceControl => "source-control"@,
    }
}

/// The name a view is stored under in the state file.
pub open spec fn state_name_spec(v: View) -> Seq<char> {
    match v {
        View::Explorer => "explorer"@,
        View::SourceControl => "source-control"@,
    }
}

pub open spec fn from_state_name_spec(name: Seq<char>) -> Option<View> {
    if name == "explorer"@ {
        Some(View::Explorer)
    } else if name == "source-control"@ {
        Some(View::SourceControl)
    } else {
        None
    }
}

impl View {
    pub fn other(self) -> (r: View)
        ensures
            r == other_spec(self),
    {
        match self {
            View::Explorer => View::SourceControl,
            View::SourceControl => View::Explorer,
        }
    }

    /// The standalone pane label for this view.
    pub fn label(self) -> (r: &'static str)
        ensures
            r@ == label_spec(self),
    {
        match self {
            View::Explorer => "Explorer",
            View::SourceControl => "Source Control",
        }
    }

    /// The plugin that renders this view.
    pub fn plugin_id(self) -> (r: &'static str)
        ensures
            r@ == plugin_id_spec(self),
    {
        match self {
            View::Explorer => "herdr-aa-sidebar-explorer",
            View::SourceControl => "herdr-aa-sidebar-git",
        }
    }

    /// The `--view` flag value that pins a separated pane to this view.
    pub fn view_flag(self) -> (r: &'static str)
        ensures
            r@ == view_flag_spec(self),
    {
        match self {
            View::Explorer => "explorer",
            View::SourceControl => "git",
        }
    }

    pub fn from_view_flag(flag: &str) -> (r: Option<View>)
        ensures
            r == from_view_flag_spec(flag@),
    {
        if crate::text::eq_strings(flag, "explorer") {
            Some(View::Explorer)
        } else if crate::text::eq_strings(flag, "git") {
            Some(View::SourceControl)
        } else {
            None
        }
    }

    /// The metadata token value this view reports on its pane.
    pub fn token(self) -> (r: &'static str)
        ensures
            r@ == token_spec(self),
    {
        match self {
            View::Explorer => "explorer",
            View::SourceControl => "source-control",
        }
    }

    pub fn state_name(self) -> (r: &'static str)
        ensures
            r@ == state_name_spec(self),
    {
        match self {
            View::Explorer => "explorer",
            View::SourceControl => "source-control",
        }
    }

    pub fn from_state_name(name: &str) -> (r: Option<View>)
        ensures
            r == from_state_name_spec(name@),
    {
        if crate::text::eq_strings(name, "explorer") {
            Some(View::Explorer)
        } else if crate::text::eq_strings(name, "source-control") {
            Some(View::SourceControl)
        } else {
            None
        }
    }
}

/// Switching twice returns to the starting view, and a view is never its
/// own other.
pub proof fn lemma_other_pairs_up(v: View)
    ensures
        other_spec(other_spec(v)) == v,
        other_spec(v) != v,
{
}

/// A view's `--view` flag reads back as the same view.
pub proof fn lemma_view_flag_roundtrip(v: View)
    ensures
        from_view_flag_spec(view_flag_spec(v)) == Some(v),
{
    reveal_strlit("explorer");
    reveal_strlit("git");
    assert("explorer"@.len() != "git"@.len());
}

/// A stored view name reads back as the same view.
pub proof fn lemma_state_name_roundtrip(v: View)
    ensures
        from_state_name_spec(state_name_spec(v)) == Some(v),
{
    reveal_strlit("explorer");
    reveal_strlit("source-control");
    assert("explorer"@.len() != "source-control"@.len());
}

/// The sticky sidebar setting, shared by both plugins.
#[derive(Clone, Copy, PartialEq, Eq, Debug, Structural)]
pub struct State {
    pub merged: bool,
    pub active: View,
}

pub open spec fn default_state() -> State {
    State { merged: false, active: View::Explorer }
}

impl Default for State {
    fn default() -> (r: Self)
        ensures
            r == default_state(),
    {
        State { merged: false, active: View::Explorer }
    }
}

/// Forgiving parse of a state document (`None` when the text was not JSON):
/// each field that is missing or of the wrong kind keeps its default.
pub open spec fn parse_state_spec(doc: Option<Json>) -> State {
    match doc {
        None => default_state(),
        Some(v) => State {
            merged: match bool_of(get_spec(v, "merged"@)) {
                Some(b) => b,
                None => default_state().merged,
            },
            active: match str_of(get_spec(v, "active"@)) {
                Some(name) => match from_state_name_spec(name) {
                    Some(view) => view,
                    None => default_state().active,
                },
                None => default_state().active,
            },
        },
    }
}

/// Forgiving parse: any missing/garbled field falls back to the default, so
/// a hand-edited or truncated file can never wedge the panels.
pub fn parse_state(doc: Option<&Json>) -> (r: State)
    ensures
        r == parse_state_spec(match doc {
            Some(v) => Some(*v),
            None => None,
        }),
{
    let default = State::default();
    let Some(value) = doc else { return default };
    let merged = match get_bool(value, "merged") {
        Some(b) => b,
        None => default.merged,
    };
    let active = match get_str(value, "active") {
        Some(name) => match View::from_state_name(name.as_str()) {
            Some(view) => view,
            None => default.active,
        },
        None => default.active,
    };
    State { merged, active }
}

pub open spec fn bool_text(b: bool) -> Seq<char> {
    if b {
        "true"@
    } else {
        "false"@
    }
}

pub fn bool_str(b: bool) -> (r: &'static str)
    ensures
        r@ == bool_text(b),
{
    if b {
        "true"
    } else {
        "false"
    }
}

/// The state file's text: `{"merged":<bool>,"active":"<view>"}`.
pub open spec fn state_json_spec(s: State) -> Seq<char> {
    "{\"merged\":"@ + bool_text(s.merged) + ",\"active\":\""@ + state_name_spec(s.active) + "\"}"@
}

pub fn state_json(state: State) -> (r: String)
    ensures
        r@ == state_json_spec(state),
{
    let mut out = String::new();
    push_str(&mut out, "{\"merged\":");
    push_str(&mut out, bool_str(state.merged));
    push_str(&mut out, ",\"active\":\"");
    push_str(&mut out, state.active.state_name());
    push_str(&mut out, "\"}");
    out
}

/// A document that records `s`: its `merged` member is `s.merged` and its
/// `active` member is the stored name of `s.active`.
pub open spec fn records_state(doc: Json, s: State) -> bool {
    &&& bool_of(get_spec(doc, "merged"@)) == Some(s.merged)
    &&& str_of(get_spec(doc, "active"@)) == Some(state_name_spec(s.active))
}

/// Reading back what was saved gives the saved state: any document that
/// records a state parses to exactly that state.
pub proof fn lemma_state_roundtrip(doc: Json, s: State)
    requires
        records_state(doc, s),
    ensures
        parse_state_spec(Some(doc)) == s,
{
    lemma_state_name_roundtrip(s.active);
}

/// A document that is not JSON at all parses to the default state.
pub proof fn lemma_garbage_is_default()
    ensures
        parse_state_spec(None) == default_state(),
{
}

} // verus!
