//! Merged-sidebar coordination shared by the explorer and the source control
//! plugin: which view a pane shows, the sticky `merged`/`active` setting and
//! its forgiving parse, and where the other plugin's binary lives.

use vstd::prelude::*;
use vstd::view::View as _;

use crate::json::{bool_of, get_bool, get_spec, get_str, str_of, Json};
use crate::seqs::{first_where, lemma_first_where_is, lemma_first_where_none};
use crate::text::{
    chars_of, drop_leading, join_path, join_spec, push_str, starts_with, strip_prefix,
    string_of,
};

verus! {

/// Guest exit code meaning "the user switched back to your view".
pub const EXIT_SWITCH: i32 = 42;

/// Spawn the guest with this flag; a guest exits with `EXIT_SWITCH` on
/// switch instead of spawning a nested host.
pub fn guest_flag() -> (r: &'static str)
    ensures
        r@ == "--sidebar-guest"@,
{
    "--sidebar-guest"
}

/// Pane label (and metadata identity) of the merged pane.
pub fn sidebar_label() -> (r: &'static str)
    ensures
        r@ == "Sidebar"@,
{
    "Sidebar"
}

#[derive(Clone, Copy, PartialEq, Eq, Debug, Structural)]
pub enum View {
    Explorer,
    SourceControl,
}

pub open spec fn other_spec(v: View) -> View {
    match v {
        View::Explorer => View::SourceControl,
        View::SourceControl => View::Explorer,
    }
}

pub open spec fn label_spec(v: View) -> Seq<char> {
    match v {
        View::Explorer => "Explorer"@,
        View::SourceControl => "Source Control"@,
    }
}

pub open spec fn plugin_id_spec(v: View) -> Seq<char> {
    match v {
        View::Explorer => "herdr-aa-filetree"@,
        View::SourceControl => "herdr-aa-git"@,
    }
}

pub open spec fn token_spec(v: View) -> Seq<char> {
    match v {
        View::Explorer => "explorer"@,
        View::SourceControl => "source-control"@,
    }
}

/// The name a view is stored under in the state file.
pub open spec fn state_name_spec(v: View) -> Seq<char> {
    match v {
        View::Explorer => "explorer"@,
        View::SourceControl => "source-control"@,
    }
}

pub open spec fn from_state_name_spec(name: Seq<char>) -> Option<View> {
    if name == "explorer"@ {
        Some(View::Explorer)
    } else if name == "source-control"@ {
        Some(View::SourceControl)
    } else {
        None
    }
}

impl View {
    pub fn other(self) -> (r: View)
        ensures
            r == other_spec(self),
    {
        match self {
            View::Explorer => View::SourceControl,
            View::SourceControl => View::Explorer,
        }
    }

    /// The standalone pane label for this view.
    pub fn label(self) -> (r: &'static str)
        ensures
            r@ == label_spec(self),
    {
        match self {
            View::Explorer => "Explorer",
            View::SourceControl => "Source Control",
        }
    }

    /// The plugin that renders this view.
    pub fn plugin_id(self) -> (r: &'static str)
        ensures
            r@ == plugin_id_spec(self),
    {
        match self {
            View::Explorer => "herdr-aa-filetree",
            View::SourceControl => "herdr-aa-git",
        }
    }

    /// The metadata token value this view reports on its pane.
    pub fn token(self) -> (r: &'static str)
        ensures
            r@ == token_spec(self),
    {
        match self {
            View::Explorer => "explorer",
            View::SourceControl => "source-control",
        }
    }

    pub fn state_name(self) -> (r: &'static str)
        ensures
            r@ == state_name_spec(self),
    {
        match self {
            View::Explorer => "explorer",
            View::SourceControl => "source-control",
        }
    }

    pub fn from_state_name(name: &str) -> (r: Option<View>)
        ensures
            r == from_state_name_spec(name@),
    {
        if crate::text::eq_strings(name, "explorer") {
            Some(View::Explorer)
        } else if crate::text::eq_strings(name, "source-control") {
            Some(View::SourceControl)
        } else {
            None
        }
    }
}

/// Switching twice returns to the starting view, and a view is never its
/// own other.
pub proof fn lemma_other_pairs_up(v: View)
    ensures
        other_spec(other_spec(v)) == v,
        other_spec(v) != v,
{
}

/// A stored view name reads back as the same view.
pub proof fn lemma_state_name_roundtrip(v: View)
    ensures
        from_state_name_spec(state_name_spec(v)) == Some(v),
{
    reveal_strlit("explorer");
    reveal_strlit("source-control");
    assert("explorer"@.len() != "source-control"@.len());
}

/// The sticky sidebar setting, shared by both plugins.
#[derive(Clone, Copy, PartialEq, Eq, Debug, Structural)]
pub struct State {
    pub merged: bool,
    pub active: View,
}

pub open spec fn default_state() -> State {
    State { merged: false, active: View::Explorer }
}

impl Default for State {
    fn default() -> (r: Self)
        ensures
            r == default_state(),
    {
        State { merged: false, active: View::Explorer }
    }
}

/// Forgiving parse of a state document (`None` when the text was not JSON):
/// each field that is missing or of the wrong kind keeps its default.
pub open spec fn parse_state_spec(doc: Option<Json>) -> State {
    match doc {
        None => default_state(),
        Some(v) => State {
            merged: match bool_of(get_spec(v, "merged"@)) {
                Some(b) => b,
                None => default_state().merged,
            },
            active: match str_of(get_spec(v, "active"@)) {
                Some(name) => match from_state_name_spec(name) {
                    Some(view) => view,
                    None => default_state().active,
                },
                None => default_state().active,
            },
        },
    }
}

/// Forgiving parse: any missing/garbled field falls back to the default, so
/// a hand-edited or truncated file can never wedge the panels.
pub fn parse_state(doc: Option<&Json>) -> (r: State)
    ensures
        r == parse_state_spec(match doc {
            Some(v) => Some(*v),
            None => None,
        }),
{
    let default = State::default();
    let Some(value) = doc else { return default };
    let merged = match get_bool(value, "merged") {
        Some(b) => b,
        None => default.merged,
    };
    let active = match get_str(value, "active") {
        Some(name) => match View::from_state_name(name.as_str()) {
            Some(view) => view,
            None => default.active,
        },
        None => default.active,
    };
    State { merged, active }
}

pub open spec fn bool_text(b: bool) -> Seq<char> {
    if b {
        "true"@
    } else {
        "false"@
    }
}

pub fn bool_str(b: bool) -> (r: &'static str)
    ensures
        r@ == bool_text(b),
{
    if b {
        "true"
    } else {
        "false"
    }
}

/// The state file's text: `{"merged":<bool>,"active":"<view>"}`.
pub open spec fn state_json_spec(s: State) -> Seq<char> {
    "{\"merged\":"@ + bool_text(s.merged) + ",\"active\":\""@ + state_name_spec(s.active) + "\"}"@
}

pub fn state_json(state: State) -> (r: String)
    ensures
        r@ == state_json_spec(state),
{
    let mut out = String::new();
    push_str(&mut out, "{\"merged\":");
    push_str(&mut out, bool_str(state.merged));
    push_str(&mut out, ",\"active\":\"");
    push_str(&mut out, state.active.state_name());
    push_str(&mut out, "\"}");
    out
}

/// A document that records `s`: its `merged` member is `s.merged` and its
/// `active` member is the stored name of `s.active`.
pub open spec fn records_state(doc: Json, s: State) -> bool {
    &&& bool_of(get_spec(doc, "merged"@)) == Some(s.merged)
    &&& str_of(get_spec(doc, "active"@)) == Some(state_name_spec(s.active))
}

/// Reading back what was saved gives the saved state: any document that
/// records a state parses to exactly that state.
pub proof fn lemma_state_roundtrip(doc: Json, s: State)
    requires
        records_state(doc, s),
    ensures
        parse_state_spec(Some(doc)) == s,
{
    lemma_state_name_roundtrip(s.active);
}

/// A document that is not JSON at all parses to the default state.
pub proof fn lemma_garbage_is_default()
    ensures
        parse_state_spec(None) == default_state(),
{
}

// ---------------------------------------------------------------------------
// Where the state lives
// ---------------------------------------------------------------------------

/// The state file beside herdr's own configuration:
/// `<config>/herdr/aa-sidebar.json`, where `<config>` is the platform's
/// configuration directory (`XDG_CONFIG_HOME`, else `$HOME/.config`; on
/// Windows `APPDATA` is passed as `config_home` with no `home`), or nothing
/// when neither is known.
pub open spec fn state_path_spec(config_home: Option<Seq<char>>, home: Option<Seq<char>>) -> Option<Seq<char>> {
    let base = match config_home {
        Some(c) => Some(c),
        None => match home {
            Some(h) => Some(join_spec(h, ".config"@)),
            None => None,
        },
    };
    match base {
        Some(b) => Some(join_spec(join_spec(b, "herdr"@), "aa-sidebar.json"@)),
        None => None,
    }
}

pub fn state_path(config_home: Option<&str>, home: Option<&str>) -> (r: Option<String>)
    ensures
        match r {
            Some(p) => state_path_spec(
                match config_home {
                    Some(c) => Some(c@),
                    None => None,
                },
                match home {
                    Some(h) => Some(h@),
                    None => None,
                },
            ) == Some(p@),
            None => state_path_spec(
                match config_home {
                    Some(c) => Some(c@),
                    None => None,
                },
                match home {
                    Some(h) => Some(h@),
                    None => None,
                },
            ) is None,
        },
{
    let base = match config_home {
        Some(c) => chars_of(c),
        None => match home {
            Some(h) => join_path(&chars_of(h), &chars_of(".config")),
            None => return None,
        },
    };
    let p = join_path(&base, &chars_of("herdr"));
    let p = join_path(&p, &chars_of("aa-sidebar.json"));
    Some(string_of(&p))
}

// ---------------------------------------------------------------------------
// The other plugin's binary
// ---------------------------------------------------------------------------

/// One entry of a `plugin.list` response.
pub struct PluginEntry {
    pub plugin_id: Option<String>,
    pub plugin_root: Option<String>,
    pub enabled: bool,
}

/// The predicate "this entry is the enabled plugin `id`".
pub open spec fn is_enabled_plugin(id: Seq<char>) -> spec_fn(PluginEntry) -> bool {
    |p: PluginEntry| p.enabled && (p.plugin_id matches Some(pid) && pid@ == id)
}

/// `\\?\` (the Windows verbatim-path prefix) removed when present.
pub open spec fn strip_verbatim_spec(path: Seq<char>) -> Seq<char> {
    if starts_with(path, "\\\\?\\"@) {
        path.skip(4)
    } else {
        path
    }
}

/// The executable name for a plugin id (`.exe` on Windows).
pub open spec fn exe_name_spec(id: Seq<char>, windows: bool) -> Seq<char> {
    if windows {
        id + ".exe"@
    } else {
        id
    }
}

/// Where the other plugin's binary would be: the first enabled entry for the
/// view's plugin, its root without the verbatim prefix, then
/// `target/release/<plugin_id>[.exe]`. `None` when the list did not parse,
/// no enabled entry exists, or that entry has no root.
pub open spec fn binary_path_spec(plugins: Option<Seq<PluginEntry>>, other: View, windows: bool)
    -> Option<Seq<char>> {
    match plugins {
        None => None,
        Some(ps) => match first_where(ps, is_enabled_plugin(plugin_id_spec(other))) {
            None => None,
            Some(i) => match ps[i].plugin_root {
                None => None,
                Some(root) => Some(
                    join_spec(
                        join_spec(
                            join_spec(strip_verbatim_spec(root@), "target"@),
                            "release"@,
                        ),
                        exe_name_spec(plugin_id_spec(other), windows),
                    ),
                ),
            },
        },
    }
}

/// The other plugin's TUI binary path from a parsed `plugin.list` response
/// (`None` when it did not parse). The caller still checks that the file
/// exists before using it.
pub fn binary_path(plugins: Option<&Vec<PluginEntry>>, other: View, windows: bool) -> (r: Option<
    String,
>)
    ensures
        match r {
            Some(p) => binary_path_spec(
                match plugins {
                    Some(v) => Some(v@),
                    None => None,
                },
                other,
                windows,
            ) == Some(p@),
            None => binary_path_spec(
                match plugins {
                    Some(v) => Some(v@),
                    None => None,
                },
                other,
                windows,
            ) is None,
        },
{
    let ps = match plugins {
        Some(ps) => ps,
        None => return None,
    };
    let id = other.plugin_id();
    let ghost p = is_enabled_plugin(id@);
    let mut i: usize = 0;
    while i < ps.len()
        invariant
            0 <= i <= ps.len(),
            plugins == Some(ps),
            p == is_enabled_plugin(id@),
            id@ == plugin_id_spec(other),
            forall|j: int| 0 <= j < i ==> !p(#[trigger] ps@[j]),
        decreases ps.len() - i,
    {
        let entry = &ps[i];
        let matches = match &entry.plugin_id {
            Some(pid) => entry.enabled && crate::text::eq_strings(pid.as_str(), id),
            None => false,
        };
        if matches {
            proof {
                lemma_first_where_is(ps@, p, i as int);
            }
            assert(first_where(ps@, is_enabled_plugin(plugin_id_spec(other))) == Some(i as int));
            let root = match &entry.plugin_root {
                Some(r) => r,
                None => {
                    assert(binary_path_spec(Some(ps@), other, windows) is None);
                    return None;
                },
            };
            let root_chars = chars_of(root.as_str());
            let base = match strip_prefix(&root_chars, "\\\\?\\") {
                Some(rest) => rest,
                None => root_chars,
            };
            proof {
                reveal_strlit("\\\\?\\");
            }
            let t = join_path(&base, &chars_of("target"));
            let rel = join_path(&t, &chars_of("release"));
            let mut exe = String::new();
            push_str(&mut exe, id);
            if windows {
                push_str(&mut exe, ".exe");
            }
            let path = join_path(&rel, &chars_of(exe.as_str()));
            return Some(string_of(&path));
        }
        i += 1;
    }
    proof {
        lemma_first_where_none(ps@, p);
    }
    None
}

} // verus!
