//! The unified sidebar's persisted settings: layout (one combined Sidebar
//! pane or separate panes), the view shown last, the footer hotkeys, the
//! icon theme, the first-run font prompt and auto-open; plus the tree shape
//! remembered per workspace root and the tree root remembered per workspace
//! label. The files are read and written by the caller; this module decodes
//! and encodes their contents.

use vstd::prelude::*;
use vstd::view::View as _;

use crate::icons::{theme_from_name_spec, theme_name_spec, IconTheme};
use crate::json::{bool_of, get, get_bool, get_spec, get_str, member_of, str_of, Json, Member};
use crate::seqs::{first_where, lemma_first_where, lemma_first_where_is, lemma_first_where_none};
use crate::text::{chars_of, join_path, join_spec, owned, push_str, string_of};

verus! {

/// Pane label (and metadata identity) of the unified pane.
pub fn sidebar_label() -> (r: &'static str)
    ensures
        r@ == "Sidebar"@,
{
    "Sidebar"
}

/// Unix seconds now: the heartbeat clock for pane identity tokens.
pub fn unix_now() -> (s: u64) {
    crate::clock::unix_seconds()
}

/// Why a view's event loop ended.
#[derive(Clone, Copy, PartialEq, Eq, Debug, Structural)]
pub enum Exit {
    Quit,
    /// The user picked the other view; the host re-renders in process.
    Switch,
}

#[derive(Clone, Copy, PartialEq, Eq, Debug, Structural)]
pub enum View {
    Explorer,
    SourceControl,
}

pub open spec fn other_spec(v: View) -> View {
    match v {
        View::Explorer => View::SourceControl,
        View::SourceControl => View::Explorer,
    }
}

pub open spec fn label_spec(v: View) -> Seq<char> {
    match v {
        View::Explorer => "Explorer"@,
        View::SourceControl => "Source Control"@,
    }
}

pub open spec fn plugin_id_spec(v: View) -> Seq<char> {
    match v {
        View::Explorer => "herdr-sidebar-explorer"@,
        View::SourceControl => "herdr-sidebar-git"@,
    }
}

/// The `--view` flag value that pins a separated pane to a view.
pub open spec fn view_flag_spec(v: View) -> Seq<char> {
    match v {
        View::Explorer => "explorer"@,
        View::SourceControl => "git"@,
    }
}

pub open spec fn from_view_flag_spec(flag: Seq<char>) -> Option<View> {
    if flag == "explorer"@ {
        Some(View::Explorer)
    } else if flag == "git"@ {
        Some(View::SourceControl)
    } else {
        None
    }
}

pub open spec fn token_spec(v: View) -> Seq<char> {
    match v {
        View::Explorer => "explorer"@,
        View::SourceControl => "source-control"@,
    }
}

/// The name a view is stored under in the state file.
pub open spec fn state_name_spec(v: View) -> Seq<char> {
    match v {
        View::Explorer => "explorer"@,
        View::SourceControl => "source-control"@,
    }
}

pub open spec fn from_state_name_spec(name: Seq<char>) -> Option<View> {
    if name == "explorer"@ {
        Some(View::Explorer)
    } else if name == "source-control"@ {
        Some(View::SourceControl)
    } else {
        None
    }
}

impl View {
    pub fn other(self) -> (r: View)
        ensures
            r == other_spec(self),
    {
        match self {
            View::Explorer => View::SourceControl,
            View::SourceControl => View::Explorer,
        }
    }

    /// The standalone pane label for this view.
    pub fn label(self) -> (r: &'static str)
        ensures
            r@ == label_spec(self),
    {
        match self {
            View::Explorer => "Explorer",
            View::SourceControl => "Source Control",
        }
    }

    /// The plugin that renders this view.
    pub fn plugin_id(self) -> (r: &'static str)
        ensures
            r@ == plugin_id_spec(self),
    {
        match self {
            View::Explorer => "herdr-sidebar-explorer",
            View::SourceControl => "herdr-sidebar-git",
        }
    }

    /// The `--view` flag value that pins a separated pane to this view.
    pub fn view_flag(self) -> (r: &'static str)
        ensures
            r@ == view_flag_spec(self),
    {
        match self {
            View::Explorer => "explorer",
            View::SourceControl => "git",
        }
    }

    pub fn from_view_flag(flag: &str) -> (r: Option<View>)
        ensures
            r == from_view_flag_spec(flag@),
    {
        if crate::text::eq_strings(flag, "explorer") {
            Some(View::Explorer)
        } else if crate::text::eq_strings(flag, "git") {
            Some(View::SourceControl)
        } else {
            None
        }
    }

    /// The metadata token value this view reports on its pane.
    pub fn token(self) -> (r: &'static str)
        ensures
            r@ == token_spec(self),
    {
        match self {
            View::Explorer => "explorer",
            View::SourceControl => "source-control",
        }
    }

    pub fn state_name(self) -> (r: &'static str)
        ensures
            r@ == state_name_spec(self),
    {
        match self {
            View::Explorer => "explorer",
            View::SourceControl => "source-control",
        }
    }

    pub fn from_state_name(name: &str) -> (r: Option<View>)
        ensures
            r == from_state_name_spec(name@),
    {
        if crate::text::eq_strings(name, "explorer") {
            Some(View::Explorer)
        } else if crate::text::eq_strings(name, "source-control") {
            Some(View::SourceControl)
        } else {
            None
        }
    }
}

/// Switching twice returns to the starting view, and a view is never its
/// own other.
pub proof fn lemma_other_pairs_up(v: View)
    ensures
        other_spec(other_spec(v)) == v,
        other_spec(v) != v,
{
}

/// A view's `--view` flag reads back as the same view.
pub proof fn lemma_view_flag_roundtrip(v: View)
    ensures
        from_view_flag_spec(view_flag_spec(v)) == Some(v),
{
    reveal_strlit("explorer");
    reveal_strlit("git");
    assert("explorer"@.len() != "git"@.len());
}

/// A stored view name reads back as the same view.
pub proof fn lemma_state_name_roundtrip(v: View)
    ensures
        from_state_name_spec(state_name_spec(v)) == Some(v),
{
    reveal_strlit("explorer");
    reveal_strlit("source-control");
    assert("explorer"@.len() != "source-control"@.len());
}

/// The sticky sidebar settings.
#[derive(Clone, Copy, PartialEq, Eq, Debug, Structural)]
pub struct State {
    pub merged: bool,
    pub active: View,
    /// Show the hotkey chips at the bottom of the sidebar.
    pub show_hotkeys: bool,
    /// The user's explicit icon theme; `None` lets the Nerd Font probe
    /// decide.
    pub icons: Option<IconTheme>,
    /// The first-run font prompt was answered, either way.
    pub font_prompt_done: bool,
    /// Focus/create hooks dock a sidebar into tabs that lack one.
    pub auto_open: bool,
}

pub open spec fn default_state() -> State {
    State {
        merged: true,
        active: View::Explorer,
        show_hotkeys: false,
        icons: None,
        font_prompt_done: false,
        auto_open: true,
    }
}

impl Default for State {
    fn default() -> (r: Self)
        ensures
            r == default_state(),
    {
        State {
            merged: true,
            active: View::Explorer,
            show_hotkeys: false,
            icons: None,
            font_prompt_done: false,
            auto_open: true,
        }
    }
}

pub open spec fn bool_or(v: Option<bool>, d: bool) -> bool {
    match v {
        Some(b) => b,
        None => d,
    }
}

/// Forgiving parse of the settings document (`None` when the text was not
/// JSON): every field that is missing or of the wrong kind keeps its
/// default, and an unknown icon theme means "auto".
pub open spec fn parse_state_spec(doc: Option<Json>) -> State {
    match doc {
        None => default_state(),
        Some(v) => State {
            merged: bool_or(bool_of(get_spec(v, "merged"@)), default_state().merged),
            active: match str_of(get_spec(v, "active"@)) {
                Some(name) => match from_state_name_spec(name) {
                    Some(view) => view,
                    None => default_state().active,
                },
                None => default_state().active,
            },
            show_hotkeys: bool_or(bool_of(get_spec(v, "hotkeys"@)), default_state().show_hotkeys),
            icons: match str_of(get_spec(v, "icons"@)) {
                Some(name) => theme_from_name_spec(name),
                None => None,
            },
            font_prompt_done: bool_or(
                bool_of(get_spec(v, "font_prompt"@)),
                default_state().font_prompt_done,
            ),
            auto_open: bool_or(bool_of(get_spec(v, "auto_open"@)), default_state().auto_open),
        },
    }
}

fn bool_field(v: &Json, key: &str, d: bool) -> (r: bool)
    ensures
        r == bool_or(bool_of(get_spec(*v, key@)), d),
{
    match get_bool(v, key) {
        Some(b) => b,
        None => d,
    }
}

/// Forgiving parse: any missing or garbled field falls back to its default,
/// so a hand-edited or truncated file can never wedge the panels.
pub fn parse_state(doc: Option<&Json>) -> (r: State)
    ensures
        r == parse_state_spec(crate::json::deref_opt(doc)),
{
    let d = State::default();
    let Some(v) = doc else { return d };
    let active = match get_str(v, "active") {
        Some(name) => match View::from_state_name(name.as_str()) {
            Some(view) => view,
            None => d.active,
        },
        None => d.active,
    };
    let icons = match get_str(v, "icons") {
        Some(name) => IconTheme::from_state_name(name.as_str()),
        None => None,
    };
    State {
        merged: bool_field(v, "merged", d.merged),
        active,
        show_hotkeys: bool_field(v, "hotkeys", d.show_hotkeys),
        icons,
        font_prompt_done: bool_field(v, "font_prompt", d.font_prompt_done),
        auto_open: bool_field(v, "auto_open", d.auto_open),
    }
}

pub open spec fn bool_text(b: bool) -> Seq<char> {
    if b {
        "true"@
    } else {
        "false"@
    }
}

fn bool_str(b: bool) -> (r: &'static str)
    ensures
        r@ == bool_text(b),
{
    if b {
        "true"
    } else {
        "false"
    }
}

/// The settings file's text: merged, active, hotkeys, font_prompt and
/// auto_open, then the icon theme when one was chosen.
pub open spec fn state_json_spec(s: State) -> Seq<char> {
    "{\"merged\":"@ + bool_text(s.merged) + ",\"active\":\""@ + state_name_spec(s.active)
        + "\",\"hotkeys\":"@ + bool_text(s.show_hotkeys) + ",\"font_prompt\":"@ + bool_text(
        s.font_prompt_done,
    ) + ",\"auto_open\":"@ + bool_text(s.auto_open) + match s.icons {
        Some(t) => ",\"icons\":\""@ + theme_name_spec(t) + "\""@,
        None => Seq::empty(),
    } + "}"@
}

pub fn state_json(s: State) -> (r: String)
    ensures
        r@ == state_json_spec(s),
{
    let mut out = String::new();
    push_str(&mut out, "{\"merged\":");
    push_str(&mut out, bool_str(s.merged));
    push_str(&mut out, ",\"active\":\"");
    push_str(&mut out, s.active.state_name());
    push_str(&mut out, "\",\"hotkeys\":");
    push_str(&mut out, bool_str(s.show_hotkeys));
    push_str(&mut out, ",\"font_prompt\":");
    push_str(&mut out, bool_str(s.font_prompt_done));
    push_str(&mut out, ",\"auto_open\":");
    push_str(&mut out, bool_str(s.auto_open));
    if let Some(t) = s.icons {
        push_str(&mut out, ",\"icons\":\"");
        push_str(&mut out, t.state_name());
        push_str(&mut out, "\"");
    }
    push_str(&mut out, "}");
    out
}

/// A document that records `s` the way the settings file does.
pub open spec fn records_state(doc: Json, s: State) -> bool {
    &&& bool_of(get_spec(doc, "merged"@)) == Some(s.merged)
    &&& str_of(get_spec(doc, "active"@)) == Some(state_name_spec(s.active))
    &&& bool_of(get_spec(doc, "hotkeys"@)) == Some(s.show_hotkeys)
    &&& bool_of(get_spec(doc, "font_prompt"@)) == Some(s.font_prompt_done)
    &&& bool_of(get_spec(doc, "auto_open"@)) == Some(s.auto_open)
    &&& match s.icons {
        Some(t) => str_of(get_spec(doc, "icons"@)) == Some(theme_name_spec(t)),
        None => get_spec(doc, "icons"@) is None,
    }
}

/// Reading back what was saved gives the saved settings.
pub proof fn lemma_state_roundtrip(doc: Json, s: State)
    requires
        records_state(doc, s),
    ensures
        parse_state_spec(Some(doc)) == s,
{
    lemma_state_name_roundtrip(s.active);
    if let Some(t) = s.icons {
        crate::icons::lemma_theme_name_roundtrip(t);
    }
}

/// A file that is not JSON gives the defaults.
pub proof fn lemma_garbage_is_default()
    ensures
        parse_state_spec(None) == default_state(),
{
}

// ---------------------------------------------------------------------------
// Where the files live
// ---------------------------------------------------------------------------

/// The plugin's state directory: herdr's `HERDR_PLUGIN_STATE_DIR` when it
/// is set and not empty, else `<base>/herdr/plugins/herdr-sidebar` under the
/// platform state base, or nothing when neither is known.
pub open spec fn state_dir_spec(plugin_dir: Option<Seq<char>>, base: Option<Seq<char>>) -> Option<
    Seq<char>,
> {
    match plugin_dir {
        Some(d) if d.len() > 0 => Some(d),
        _ => match base {
            Some(b) => Some(join_spec(join_spec(join_spec(b, "herdr"@), "plugins"@), "herdr-sidebar"@)),
            None => None,
        },
    }
}

pub fn state_dir(plugin_dir: Option<&str>, base: Option<&str>) -> (r: Option<String>)
    ensures
        match r {
            Some(d) => state_dir_spec(
                match plugin_dir {
                    Some(p) => Some(p@),
                    None => None,
                },
                match base {
                    Some(b) => Some(b@),
                    None => None,
                },
            ) == Some(d@),
            None => state_dir_spec(
                match plugin_dir {
                    Some(p) => Some(p@),
                    None => None,
                },
                match base {
                    Some(b) => Some(b@),
                    None => None,
                },
            ) is None,
        },
{
    if let Some(d) = plugin_dir {
        if chars_of(d).len() > 0 {
            return Some(owned(d));
        }
    }
    match base {
        Some(b) => {
            let p = join_path(&chars_of(b), &chars_of("herdr"));
            let p = join_path(&p, &chars_of("plugins"));
            let p = join_path(&p, &chars_of("herdr-sidebar"));
            Some(string_of(&p))
        },
        None => None,
    }
}

/// The platform state base off Windows: `XDG_STATE_HOME`, else
/// `$HOME/.local/state`.
pub open spec fn state_base_spec(xdg_state_home: Option<Seq<char>>, home: Option<Seq<char>>) -> Option<
    Seq<char>,
> {
    match xdg_state_home {
        Some(x) => Some(x),
        None => match home {
            Some(h) => Some(join_spec(h, ".local/state"@)),
            None => None,
        },
    }
}

pub fn state_base(xdg_state_home: Option<&str>, home: Option<&str>) -> (r: Option<String>)
    ensures
        match r {
            Some(b) => state_base_spec(
                match xdg_state_home {
                    Some(p) => Some(p@),
                    None => None,
                },
                match home {
                    Some(h) => Some(h@),
                    None => None,
                },
            ) == Some(b@),
            None => state_base_spec(
                match xdg_state_home {
                    Some(p) => Some(p@),
                    None => None,
                },
                match home {
                    Some(h) => Some(h@),
                    None => None,
                },
            ) is None,
        },
{
    match xdg_state_home {
        Some(x) => Some(owned(x)),
        None => match home {
            Some(h) => Some(string_of(&join_path(&chars_of(h), &chars_of(".local/state")))),
            None => None,
        },
    }
}

/// A file of the state directory.
fn file_in(dir: &str, name: &str) -> (r: String)
    ensures
        r@ == join_spec(dir@, name@),
{
    string_of(&join_path(&chars_of(dir), &chars_of(name)))
}

/// `state.json` in the state directory.
pub fn state_path(dir: &str) -> (r: String)
    ensures
        r@ == join_spec(dir@, "state.json"@),
{
    file_in(dir, "state.json")
}

/// `tree.json` in the state directory.
pub fn tree_path(dir: &str) -> (r: String)
    ensures
        r@ == join_spec(dir@, "tree.json"@),
{
    file_in(dir, "tree.json")
}

/// `roots.json` in the state directory.
pub fn roots_path(dir: &str) -> (r: String)
    ensures
        r@ == join_spec(dir@, "roots.json"@),
{
    file_in(dir, "roots.json")
}

// ---------------------------------------------------------------------------
// Tree state per root, tree root per workspace label
// ---------------------------------------------------------------------------

/// The tree a freshly opened sidebar starts with.
#[derive(Clone, Debug, PartialEq, Eq)]
pub struct TreeState {
    pub expanded: Vec<String>,
    pub selected: Option<String>,
}

impl Default for TreeState {
    fn default() -> (r: Self)
        ensures
            r.expanded@.len() == 0,
            r.selected is None,
    {
        TreeState { expanded: Vec::new(), selected: None }
    }
}

/// A tree state as the contracts see it.
pub open spec fn tree_view(t: TreeState) -> (Seq<Seq<char>>, Option<Seq<char>>) {
    (
        t.expanded@.map_values(|s: String| s@),
        match t.selected {
            Some(s) => Some(s@),
            None => None,
        },
    )
}

/// The members of a decoded file; `Json::Null` when nothing usable was
/// found.
pub open spec fn object_members(doc: Option<Json>) -> Seq<Member> {
    match doc {
        Some(Json::Object(m)) => m@,
        _ => Seq::empty(),
    }
}

/// Forgiving decode of the tree file: an object keyed by root. Anything
/// else, including the older shapes that predate root keys (a bare array,
/// a flat `{expanded, selected}` object), yields no entries.
pub open spec fn decode_tree_file_spec(doc: Option<Json>) -> Seq<Member> {
    match doc {
        Some(Json::Object(m)) => if member_of(m@, "expanded"@) is Some {
            Seq::empty()
        } else {
            m@
        },
        _ => Seq::empty(),
    }
}

pub fn decode_tree_file(doc: Option<Json>) -> (r: Vec<Member>)
    ensures
        r@ == decode_tree_file_spec(doc),
{
    match doc {
        Some(Json::Object(m)) => {
            if crate::json::find_member(&m, "expanded").is_some() {
                Vec::new()
            } else {
                m
            }
        },
        _ => Vec::new(),
    }
}

/// The strings of a JSON array, skipping anything else.
pub open spec fn strings_of(items: Seq<Json>) -> Seq<Seq<char>>
    decreases items.len(),
{
    if items.len() == 0 {
        Seq::empty()
    } else {
        strings_of(items.drop_last()) + match items.last() {
            Json::Str(s) => seq![s@],
            _ => Seq::empty(),
        }
    }
}

/// The expanded paths and selection stored for `root`; nothing for a root
/// the file does not know.
pub open spec fn tree_state_for_spec(file: Seq<Member>, root: Seq<char>) -> (Seq<Seq<char>>, Option<
    Seq<char>,
>) {
    match member_of(file, root) {
        None => (Seq::empty(), None),
        Some(entry) => (
            match get_spec(entry, "expanded"@) {
                Some(Json::Array(a)) => strings_of(a@),
                _ => Seq::empty(),
            },
            str_of(get_spec(entry, "selected"@)),
        ),
    }
}

fn strings_in(items: &Vec<Json>) -> (r: Vec<String>)
    ensures
        r@.map_values(|s: String| s@) == strings_of(items@),
{
    let mut out: Vec<String> = Vec::new();
    let mut i: usize = 0;
    while i < items.len()
        invariant
            0 <= i <= items.len(),
            out@.map_values(|s: String| s@) == strings_of(items@.take(i as int)),
        decreases items.len() - i,
    {
        assert(items@.take(i + 1).drop_last() =~= items@.take(i as int));
        let ghost before = out@;
        if let Json::Str(s) = &items[i] {
            out.push(owned(s.as_str()));
            assert(out@.map_values(|s: String| s@) =~= before.map_values(|s: String| s@) + seq![s@]);
        } else {
            assert(out@.map_values(|s: String| s@) =~= before.map_values(|s: String| s@));
        }
        i += 1;
    }
    assert(items@.take(items.len() as int) =~= items@);
    out
}

pub fn tree_state_for(file: &Vec<Member>, root: &str) -> (r: TreeState)
    ensures
        tree_view(r) == tree_state_for_spec(file@, root@),
{
    let entry = match crate::json::find_member(file, root) {
        Some(e) => e,
        None => return TreeState::default(),
    };
    let expanded = match get(entry, "expanded") {
        Some(Json::Array(a)) => strings_in(a),
        _ => {
            let v: Vec<String> = Vec::new();
            assert(v@.map_values(|s: String| s@) =~= Seq::<Seq<char>>::empty());
            v
        },
    };
    let selected = match get_str(entry, "selected") {
        Some(s) => Some(owned(s.as_str())),
        None => None,
    };
    TreeState { expanded, selected }
}

/// How a tree state is stored: `{"expanded": [...], "selected": <path or null>}`.
pub fn encode_tree(t: &TreeState) -> (r: Json)
    ensures
        tree_state_entry_spec(r) == tree_view(*t),
{
    let mut items: Vec<Json> = Vec::new();
    let mut i: usize = 0;
    while i < t.expanded.len()
        invariant
            0 <= i <= t.expanded.len(),
            items@.len() == i,
            forall|k: int| 0 <= k < i ==> #[trigger] items@[k] is Str && items@[k]->Str_0@
                == t.expanded@[k]@,
            strings_of(items@) == t.expanded@.take(i as int).map_values(|s: String| s@),
        decreases t.expanded.len() - i,
    {
        let ghost before = items@;
        items.push(Json::Str(owned(t.expanded[i].as_str())));
        assert(items@.drop_last() =~= before);
        assert(t.expanded@.take(i + 1).map_values(|s: String| s@) =~= t.expanded@.take(
            i as int,
        ).map_values(|s: String| s@).push(t.expanded@[i as int]@));
        i += 1;
    }
    assert(t.expanded@.take(t.expanded.len() as int) =~= t.expanded@);
    let selected = match &t.selected {
        Some(s) => Json::Str(owned(s.as_str())),
        None => Json::Null,
    };
    let mut members: Vec<Member> = Vec::new();
    members.push(Member { key: owned("expanded"), value: Json::Array(items) });
    members.push(Member { key: owned("selected"), value: selected });
    proof {
        reveal_strlit("expanded");
        reveal_strlit("selected");
        let ms = members@;
        assert(crate::json::key_is("expanded"@)(ms[0]));
        lemma_first_where_is(ms, crate::json::key_is("expanded"@), 0);
        assert("expanded"@[0] != "selected"@[0]);
        assert(!crate::json::key_is("selected"@)(ms[0]));
        assert(crate::json::key_is("selected"@)(ms[1]));
        lemma_first_where_is(ms, crate::json::key_is("selected"@), 1);
    }
    Json::Object(members)
}

/// The tree state an entry of the tree file describes.
pub open spec fn tree_state_entry_spec(entry: Json) -> (Seq<Seq<char>>, Option<Seq<char>>) {
    (
        match get_spec(entry, "expanded"@) {
            Some(Json::Array(a)) => strings_of(a@),
            _ => Seq::empty(),
        },
        str_of(get_spec(entry, "selected"@)),
    )
}

/// Set `key`'s member to `value`: replaced in place when the key is there,
/// appended otherwise. Every other key keeps its value.
pub fn set_member(file: &mut Vec<Member>, key: &str, value: Json)
    ensures
        forall|k: Seq<char>| #[trigger] member_of(final(file)@, k) == if k == key@ {
            Some(value)
        } else {
            member_of(old(file)@, k)
        },
{
    let ghost p = crate::json::key_is(key@);
    let mut i: usize = 0;
    while i < file.len()
        invariant
            0 <= i <= file.len(),
            file@ == old(file)@,
            p == crate::json::key_is(key@),
            forall|j: int| 0 <= j < i ==> !p(#[trigger] file@[j]),
        decreases file.len() - i,
    {
        if crate::text::eq_strings(file[i].key.as_str(), key) {
            proof {
                assert(p(file@[i as int]));
                lemma_first_where_is(file@, p, i as int);
            }
            let ghost before = file@;
            let k = owned(file[i].key.as_str());
            file.set(i, Member { key: k, value });
            proof {
                assert forall|q: Seq<char>| #[trigger] member_of(file@, q) == if q == key@ {
                    Some(value)
                } else {
                    member_of(before, q)
                } by {
                    assert forall|j: int| 0 <= j < file@.len() implies crate::json::key_is(q)(
                        #[trigger] file@[j],
                    ) == crate::json::key_is(q)(before[j]) by {
                        if j == i {
                            assert(file@[j].key@ == before[j].key@);
                        }
                    }
                    crate::seqs::lemma_first_where_congruent(file@, before, crate::json::key_is(q));
                    crate::seqs::lemma_first_where(before, crate::json::key_is(q));
                    if q == key@ {
                        assert(first_where(before, p) == Some(i as int));
                    } else if let Some(m) = first_where(before, crate::json::key_is(q)) {
                        if m == i {
                            assert(before[m].key@ == q);
                            assert(before[m].key@ == key@);
                        }
                    }
                }
            }
            return;
        }
        i += 1;
    }
    proof {
        lemma_first_where_none(file@, p);
    }
    let ghost before = file@;
    file.push(Member { key: owned(key), value });
    proof {
        assert forall|q: Seq<char>| #[trigger] member_of(file@, q) == if q == key@ {
            Some(value)
        } else {
            member_of(before, q)
        } by {
            assert(file@ == before.push(Member { key: file@.last().key, value }));
            crate::seqs::lemma_first_where_push(before, file@.last(), crate::json::key_is(q));
            if q == key@ {
                assert(crate::json::key_is(q)(file@.last()));
            }
            crate::seqs::lemma_first_where(before, crate::json::key_is(q));
            if let Some(m) = first_where(before, crate::json::key_is(q)) {
                assert(file@[m] == before[m]);
            }
        }
    }
}

/// Record `root`'s tree state in the tree file, leaving every other root's
/// entry alone.
pub fn record_tree_state(file: &mut Vec<Member>, root: &str, t: &TreeState)
    ensures
        tree_state_for_spec(final(file)@, root@) == tree_view(*t),
        forall|other: Seq<char>| other != root@ ==> #[trigger] tree_state_for_spec(final(file)@, other)
            == tree_state_for_spec(old(file)@, other),
        member_of(final(file)@, root@) matches Some(e) && tree_state_entry_spec(e) == tree_view(*t),
        forall|k: Seq<char>| k != root@ ==> #[trigger] member_of(final(file)@, k) == member_of(old(file)@, k),
        member_of(old(file)@, "expanded"@) is None && root@ != "expanded"@ ==> decode_tree_file_spec(
            Some(Json::Object(*final(file))),
        ) == final(file)@,
{
    let entry = encode_tree(t);
    set_member(file, root, entry);
    assert(member_of(file@, root@) is Some);
    assert(member_of(file@, "expanded"@) == if "expanded"@ == root@ {
        Some(entry)
    } else {
        member_of(old(file)@, "expanded"@)
    });
}

/// Forgiving decode of the roots file: an object keyed by workspace label,
/// or no entries at all.
pub open spec fn decode_roots_file_spec(doc: Option<Json>) -> Seq<Member> {
    object_members(doc)
}

pub fn decode_roots_file(doc: Option<Json>) -> (r: Vec<Member>)
    ensures
        r@ == decode_roots_file_spec(doc),
{
    match doc {
        Some(Json::Object(m)) => m,
        _ => Vec::new(),
    }
}

/// The root remembered for a workspace label. An empty label never
/// matches: it would collide across every space that failed to report one.
pub open spec fn root_for_label_spec(file: Seq<Member>, label: Seq<char>) -> Option<Seq<char>> {
    if label.len() == 0 {
        None
    } else {
        str_of(member_of(file, label))
    }
}

pub fn root_for_label(file: &Vec<Member>, label: &str) -> (r: Option<String>)
    ensures
        match r {
            Some(p) => root_for_label_spec(file@, label@) == Some(p@),
            None => root_for_label_spec(file@, label@) is None,
        },
{
    if chars_of(label).len() == 0 {
        return None;
    }
    match crate::json::find_member(file, label) {
        Some(Json::Str(s)) => Some(owned(s.as_str())),
        _ => None,
    }
}

/// Remember `root` for `label`, leaving other labels' choices alone; an
/// empty label is never recorded.
pub fn record_root(file: &mut Vec<Member>, label: &str, root: &str)
    ensures
        label@.len() == 0 ==> final(file)@ == old(file)@,
        label@.len() > 0 ==> root_for_label_spec(final(file)@, label@) == Some(root@),
        forall|other: Seq<char>| other != label@ ==> #[trigger] root_for_label_spec(final(file)@, other)
            == root_for_label_spec(old(file)@, other),
        label@.len() > 0 ==> (member_of(final(file)@, label@) matches Some(Json::Str(r)) && r@ == root@),
        forall|k: Seq<char>| k != label@ ==> #[trigger] member_of(final(file)@, k) == member_of(old(file)@, k),
{
    if chars_of(label).len() == 0 {
        return;
    }
    set_member(file, label, Json::Str(owned(root)));
    assert(member_of(file@, label@) is Some);
}

} // verus!
