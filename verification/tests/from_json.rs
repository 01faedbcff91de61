//! Tests whose inputs are the JSON documents herdr sends or the plugins
//! store; each document is parsed with serde_json and handed to the library
//! in its own shapes, the way the binaries do it.

use herdr_plugins::aa_sidebar::state as aa_state;
use herdr_plugins::aa_sidebar::ui::sibling_panes_of;
use herdr_plugins::aa_sidebar::viewer as aa_viewer;
use herdr_plugins::filetree::launch::{focused_pane, launch_decision, open_plan, LayoutPane, Pane, Rect};
use herdr_plugins::filetree::sidebar::{binary_path, parse_state, PluginEntry, State, View};
use herdr_plugins::json::{Json, Member};
use herdr_plugins::panes::{right_neighbor, tab_of, ListedPane, PaneRect, PlacedPane};
use herdr_plugins::sidebar::ensure::{must_wait_for_lock, snooze_tab_for_scope};
use herdr_plugins::sidebar::state as hs_state;
use herdr_plugins::sidebar::viewer::{
    diff_request, file_request, parse_request, preview_for_doc, previews_in, reusable_preview,
    route, show_request, sidebar_in_tab, viewer_pane_at, viewer_pane_in_tab, PreviewPane, Request, Route,
};

fn convert(v: &serde_json::Value) -> Json {
    match v {
        serde_json::Value::Null => Json::Null,
        serde_json::Value::Bool(b) => Json::Bool(*b),
        serde_json::Value::Number(_) => Json::Number,
        serde_json::Value::String(s) => Json::Str(s.clone()),
        serde_json::Value::Array(a) => Json::Array(a.iter().map(convert).collect()),
        serde_json::Value::Object(m) => Json::Object(
            m.iter().map(|(k, v)| Member { key: k.clone(), value: convert(v) }).collect(),
        ),
    }
}

/// The text with byte-order marks removed (by the library), parsed.
fn parse(text: &str) -> Option<serde_json::Value> {
    let chars: Vec<char> = text.chars().collect();
    let clean: String = herdr_plugins::text::strip_bom(&chars).into_iter().collect();
    serde_json::from_str(&clean).ok()
}

fn json(text: &str) -> Option<Json> {
    parse(text).map(|v| convert(&v))
}

fn opt_string(v: Option<&serde_json::Value>) -> Result<Option<String>, ()> {
    match v {
        None | Some(serde_json::Value::Null) => Ok(None),
        Some(serde_json::Value::String(s)) => Ok(Some(s.clone())),
        Some(_) => Err(()),
    }
}

fn opt_bool(v: Option<&serde_json::Value>) -> Result<bool, ()> {
    match v {
        None => Ok(false),
        Some(serde_json::Value::Bool(b)) => Ok(*b),
        Some(_) => Err(()),
    }
}

/// `{"result":{"panes":[...]}}`, panes defaulting to none.
fn pane_values(text: &str) -> Option<Vec<serde_json::Value>> {
    let v = parse(text)?;
    let result = v.get("result")?.as_object()?;
    match result.get("panes") {
        None => Some(Vec::new()),
        Some(serde_json::Value::Array(a)) => Some(a.clone()),
        Some(_) => None,
    }
}

fn launch_panes(text: &str) -> Option<Vec<Pane>> {
    pane_values(text)?
        .iter()
        .map(|p| {
            Ok(Pane {
                pane_id: opt_string(p.get("pane_id"))?,
                label: opt_string(p.get("label"))?,
                cwd: opt_string(p.get("cwd"))?,
                focused: opt_bool(p.get("focused"))?,
                tab_id: opt_string(p.get("tab_id"))?,
            })
        })
        .collect::<Result<Vec<_>, ()>>()
        .ok()
}

fn listed_panes(text: &str) -> Option<Vec<ListedPane>> {
    pane_values(text)?
        .iter()
        .map(|p| {
            let tokens = match p.get("tokens") {
                None => Vec::new(),
                Some(serde_json::Value::Object(m)) => m
                    .iter()
                    .map(|(k, v)| Member { key: k.clone(), value: convert(v) })
                    .collect(),
                Some(_) => return Err(()),
            };
            Ok(ListedPane {
                pane_id: opt_string(p.get("pane_id"))?,
                label: opt_string(p.get("label"))?,
                tab_id: opt_string(p.get("tab_id"))?,
                workspace_id: opt_string(p.get("workspace_id"))?,
                focused: opt_bool(p.get("focused"))?,
                tokens,
            })
        })
        .collect::<Result<Vec<_>, ()>>()
        .ok()
}

fn layout_panes(text: &str) -> Option<Vec<LayoutPane>> {
    let v = parse(text)?;
    let layout = v.get("result")?.get("layout")?.as_object()?;
    let panes = match layout.get("panes") {
        None => return Some(Vec::new()),
        Some(serde_json::Value::Array(a)) => a.clone(),
        Some(_) => return None,
    };
    panes
        .iter()
        .map(|p| {
            let rect = match p.get("rect") {
                None | Some(serde_json::Value::Null) => None,
                Some(r) => Some(Rect {
                    x: r.get("x").and_then(|x| x.as_i64()).ok_or(())?,
                    y: r.get("y").and_then(|x| x.as_i64()).ok_or(())?,
                    width: r.get("width").and_then(|x| x.as_i64()).ok_or(())?,
                }),
            };
            Ok(LayoutPane { pane_id: opt_string(p.get("pane_id"))?, rect })
        })
        .collect::<Result<Vec<_>, ()>>()
        .ok()
}

fn decision(text: &str) -> String {
    launch_decision(launch_panes(text).as_ref())
}

fn focused(text: &str) -> String {
    focused_pane(launch_panes(text).as_ref())
}

fn plan(text: &str) -> String {
    open_plan(layout_panes(text).as_ref())
}

fn pane_list(panes: &str) -> String {
    format!(r#"{{"id":"cli:pane:list","result":{{"panes":[{panes}]}}}}"#)
}

const FOCUSED: &str = r#"{"pane_id":"w1:p1","focused":true,"tab_id":"w1:t1","cwd":"C:\\work\\my repo"}"#;

#[test]
fn decision_opens_when_no_explorer_in_tab() {
    let json = pane_list(&format!(
        r#"{FOCUSED},{{"pane_id":"w1:p9","label":"Explorer","tab_id":"w1:t2"}}"#
    ));
    assert_eq!(decision(&json), "OPEN", "other-tab Explorer is ignored");
}

#[test]
fn decision_focuses_unfocused_explorer_in_same_tab() {
    let json = pane_list(&format!(
        r#"{FOCUSED},{{"pane_id":"w1:p2","label":"Explorer","tab_id":"w1:t1"}}"#
    ));
    assert_eq!(decision(&json), "FOCUS w1:p2");
}

#[test]
fn decision_closes_when_explorer_is_focused() {
    let json =
        pane_list(r#"{"pane_id":"w1:p2","label":"Explorer","tab_id":"w1:t1","focused":true}"#);
    assert_eq!(decision(&json), "CLOSE w1:p2");
}

#[test]
fn decision_degrades_to_open_on_garbage_or_unsafe_ids() {
    assert_eq!(decision("not json"), "OPEN");
    assert_eq!(decision(&pane_list(r#"{"pane_id":"w1:p1"}"#)), "OPEN");
    let json = pane_list(&format!(
        r#"{FOCUSED},{{"pane_id":"--evil","label":"Explorer","tab_id":"w1:t1"}}"#
    ));
    assert_eq!(decision(&json), "OPEN");
}

fn layout(panes: &str) -> String {
    format!(r#"{{"id":"cli:pane:layout","result":{{"layout":{{"panes":[{panes}]}}}}}}"#)
}

#[test]
fn utf8_bom_from_powershell_pipe_is_stripped() {
    let json = format!("\u{feff}{}", pane_list(FOCUSED));
    assert_eq!(decision(&json), "OPEN");
    assert!(focused(&json).starts_with("w1:p1\t"));
    let layout_json = format!(
        "\u{feff}{}",
        layout(r#"{"pane_id":"w1:p1","rect":{"x":0,"y":0,"width":90,"height":50}}"#)
    );
    assert_eq!(plan(&layout_json), "w1:p1\t0.36");
}

#[test]
fn focused_pane_reports_id_and_stripped_cwd() {
    let json = pane_list(&format!(
        r#"{{"pane_id":"w1:p3","focused":true,"tab_id":"w1:t1","cwd":"\\\\?\\C:\\work\\my repo"}},{FOCUSED}"#
    ));
    assert_eq!(focused(&json), "w1:p3\tC:\\work\\my repo");
    assert_eq!(focused("not json"), "");
    assert_eq!(focused(&pane_list(r#"{"pane_id":"w1:p1"}"#)), "");
}

#[test]
fn open_plan_picks_leftmost_topmost_pane() {
    let json = layout(
        r#"{"pane_id":"w1:p2","rect":{"x":119,"y":1,"width":90,"height":70}},
           {"pane_id":"w1:p3","rect":{"x":29,"y":36,"width":90,"height":35}},
           {"pane_id":"w1:p1","rect":{"x":29,"y":1,"width":90,"height":35}}"#,
    );
    let plan = plan(&json);
    let (id, ratio) = plan.split_once('\t').unwrap();
    assert_eq!(id, "w1:p1");
    assert_eq!(ratio, "0.36"); // 32 / 90
}

#[test]
fn open_plan_clamps_ratio() {
    let wide = layout(r#"{"pane_id":"w1:p1","rect":{"x":0,"y":0,"width":400,"height":50}}"#);
    assert_eq!(plan(&wide), "w1:p1\t0.15");
    let narrow = layout(r#"{"pane_id":"w1:p1","rect":{"x":0,"y":0,"width":40,"height":50}}"#);
    assert_eq!(plan(&narrow), "w1:p1\t0.50");
}

#[test]
fn open_plan_is_empty_on_failure() {
    assert_eq!(plan("not json"), "");
    assert_eq!(plan(&layout("")), "");
    let unsafe_id = layout(r#"{"pane_id":"--x","rect":{"x":0,"y":0,"width":90,"height":50}}"#);
    assert_eq!(plan(&unsafe_id), "");
}

#[test]
fn open_plan_ratio_matches_two_decimal_rounding_of_32_over_width() {
    for width in 1..=600i64 {
        let json = layout(&format!(
            r#"{{"pane_id":"w1:p1","rect":{{"x":0,"y":0,"width":{width},"height":50}}}}"#
        ));
        let expected = format!("w1:p1\t{:.2}", (32.0f64 / width as f64).clamp(0.15, 0.5));
        assert_eq!(plan(&json), expected, "width {width}");
    }
}

fn filetree_state(text: &str) -> State {
    parse_state(json(text).as_ref())
}

#[test]
fn sidebar_state_roundtrip_and_forgiving_parse() {
    let state = State { merged: true, active: View::SourceControl };
    let json = "{\"merged\":true,\"active\":\"source-control\"}";
    assert_eq!(filetree_state(json), state);
    assert!(filetree_state("\u{feff}{\"merged\":true}").merged);
    assert_eq!(filetree_state("garbage"), State::default());
    assert_eq!(filetree_state("{\"active\":\"bogus\"}"), State::default());
}

fn plugins(text: &str) -> Option<Vec<PluginEntry>> {
    let v = parse(text)?;
    let result = v.get("result")?.as_object()?;
    let list = match result.get("plugins") {
        None => return Some(Vec::new()),
        Some(serde_json::Value::Array(a)) => a.clone(),
        Some(_) => return None,
    };
    list.iter()
        .map(|p| {
            Ok(PluginEntry {
                plugin_id: opt_string(p.get("plugin_id"))?,
                plugin_root: opt_string(p.get("plugin_root"))?,
                enabled: opt_bool(p.get("enabled"))?,
            })
        })
        .collect::<Result<Vec<_>, ()>>()
        .ok()
}

/// The other plugin's binary: the path, when it is also a file on disk.
fn other_binary(text: &str, other: View) -> Option<String> {
    let path = binary_path(plugins(text).as_ref(), other, false)?;
    std::path::Path::new(&path).is_file().then_some(path)
}

#[test]
fn other_binary_requires_registered_enabled_plugin() {
    let json = r#"{"result":{"plugins":[
        {"plugin_id":"herdr-aa-git","plugin_root":"\\\\?\\C:\\nowhere","enabled":true}
    ]}}"#;
    // Registered but binary missing on disk -> None.
    assert_eq!(other_binary(json, View::SourceControl), None);
    assert_eq!(other_binary(json, View::Explorer), None, "not registered");
    assert_eq!(other_binary("not json", View::SourceControl), None);
    let disabled = r#"{"result":{"plugins":[
        {"plugin_id":"herdr-aa-git","plugin_root":"C:\\x","enabled":false}
    ]}}"#;
    assert_eq!(other_binary(disabled, View::SourceControl), None);
    // The path itself is computed for a registered, enabled plugin.
    assert_eq!(
        binary_path(plugins(json).as_ref(), View::SourceControl, false).as_deref(),
        Some("C:\\nowhere/target/release/herdr-aa-git")
    );
}

#[test]
fn state_state_roundtrip_and_forgiving_parse() {
    // The two-view sidebar binary.
    let aa = |t: &str| aa_state::parse_state(json(t).as_ref());
    let state = aa_state::State { merged: true, active: aa_state::View::SourceControl };
    let text = "{\"merged\":true,\"active\":\"source-control\"}";
    assert_eq!(aa(text), state);
    assert!(aa("\u{feff}{\"merged\":true}").merged);
    assert_eq!(aa("garbage"), aa_state::State::default());
    assert_eq!(aa("{\"active\":\"bogus\"}"), aa_state::State::default());

    // The unified sidebar.
    let hs = |t: &str| hs_state::parse_state(json(t).as_ref());
    let state = hs_state::State {
        merged: true,
        active: hs_state::View::SourceControl,
        show_hotkeys: true,
        icons: Some(herdr_plugins::icons::IconTheme::Emoji),
        font_prompt_done: true,
        auto_open: false,
    };
    let text = "{\"merged\":true,\"active\":\"source-control\",\"hotkeys\":true,\"font_prompt\":true,\"auto_open\":false,\"icons\":\"emoji\"}";
    assert_eq!(hs(text), state);
    assert_eq!(hs(&hs_state::state_json(state)), state);
    assert!(hs("\u{feff}{\"merged\":true}").merged);
    // Files written before the flag existed keep auto-open on.
    assert!(hs("{\"merged\":true}").auto_open);
    assert_eq!(hs("garbage"), hs_state::State::default());
    assert_eq!(hs("{\"active\":\"bogus\"}"), hs_state::State::default());
}

#[test]
fn sibling_lookup_matches_label_or_token() {
    let json = r#"{"result":{"panes":[
        {"pane_id":"w1:p1","tab_id":"w1:t1","label":"Sidebar"},
        {"pane_id":"w1:p2","tab_id":"w1:t1","label":"Source Control"},
        {"pane_id":"w1:p3","tab_id":"w1:t1","tokens":{"herdr-aa-sidebar-git":{}}},
        {"pane_id":"w1:p9","tab_id":"w1:t2","label":"Source Control"}
    ]}}"#;
    let found = sibling_panes_of(listed_panes(json).as_ref(), "w1:p1", aa_state::View::SourceControl);
    assert_eq!(found, ["w1:p2", "w1:p3"], "same tab only, label or token");
}

#[test]
fn viewer_requests_roundtrip() {
    let f = file_request("C:/x/y.rs");
    assert_eq!(parse_request(&f), Some(Request::File("C:/x/y.rs".into())));
    let s = show_request("C:/repo", "stash@{1}", None);
    assert_eq!(
        parse_request(&s),
        Some(Request::Show { root: "C:/repo".into(), spec: "stash@{1}".into(), path: None })
    );
    let s = show_request("C:/repo", "a1b2c3d", Some("src/a.rs"));
    assert_eq!(
        parse_request(&s),
        Some(Request::Show {
            root: "C:/repo".into(),
            spec: "a1b2c3d".into(),
            path: Some("src/a.rs".into()),
        })
    );
    let d = diff_request("C:/repo", "src/a.rs", "staged");
    assert_eq!(
        parse_request(&d),
        Some(Request::Diff { root: "C:/repo".into(), rel: "src/a.rs".into(), kind: "staged".into() })
    );
    // Legacy bare path still works.
    assert_eq!(parse_request("C:/plain.txt"), Some(Request::File("C:/plain.txt".into())));
    assert_eq!(parse_request("  "), None);
    // The same protocol serves the two-view sidebar's preview.
    assert_eq!(aa_viewer::parse_request(&aa_viewer::file_request("/r/a.rs")), Some(Request::File("/r/a.rs".into())));
    // A diff without a kind is a working-tree diff; a show without a spec is no request.
    assert_eq!(
        parse_request("diff\t/r\ta.rs"),
        Some(Request::Diff { root: "/r".into(), rel: "a.rs".into(), kind: "worktree".into() })
    );
    assert_eq!(parse_request("show\t/r"), None);
}

#[test]
fn viewer_viewer_lookup_reports_staleness() {
    let now = hs_state::unix_now();
    let panes = |source: &str, stamp: u64| {
        format!(
            r#"{{"result":{{"panes":[
                {{"pane_id":"w1:p1","tab_id":"w1:t1"}},
                {{"pane_id":"w1:p2","tab_id":"w1:t1","tokens":{{"{source}":"{stamp}"}}}}
            ]}}}}"#
        )
    };
    // The unified sidebar's preview.
    let fresh = listed_panes(&panes("herdr-sidebar-preview", now - 2));
    assert_eq!(viewer_pane_at(fresh.as_ref(), "w1:p1", now), Some(("w1:p2".into(), false)));
    let stale = listed_panes(&panes("herdr-sidebar-preview", now - 999));
    assert_eq!(viewer_pane_at(stale.as_ref(), "w1:p1", now), Some(("w1:p2".into(), true)));
    // The two-view sidebar's preview.
    let fresh = listed_panes(&panes("herdr-aa-sidebar-preview", now - 2));
    assert_eq!(aa_viewer::viewer_pane_at(fresh.as_ref(), "w1:p1", now), Some(("w1:p2".into(), false)));
    let stale = listed_panes(&panes("herdr-aa-sidebar-preview", now - 999));
    assert_eq!(aa_viewer::viewer_pane_at(stale.as_ref(), "w1:p1", now), Some(("w1:p2".into(), true)));
    assert_eq!(aa_viewer::viewer_pane_in_tab(fresh.as_ref(), "w1:p1").map(|p| p.0), Some("w1:p2".into()));
}

fn roots_file(text: &str) -> Vec<Member> {
    hs_state::decode_roots_file(json(text))
}

fn tree_file(text: &str) -> Vec<Member> {
    hs_state::decode_tree_file(json(text))
}

#[test]
fn remembered_roots_are_keyed_by_workspace_label() {
    let file = roots_file(r#"{"tremor":"/repo/tremor","faultline":"/repo/faultline"}"#);
    assert_eq!(hs_state::root_for_label(&file, "tremor").as_deref(), Some("/repo/tremor"));
    assert_eq!(hs_state::root_for_label(&file, "faultline").as_deref(), Some("/repo/faultline"));
    // An unknown space has made no choice yet — the caller falls back to cwd.
    assert_eq!(hs_state::root_for_label(&file, "bedrock"), None);
    // An empty label must never match; it would collide across spaces.
    assert_eq!(hs_state::root_for_label(&file, ""), None);
}

#[test]
fn a_garbled_roots_file_forgets_rather_than_wedges() {
    for junk in ["garbage", "[]", r#"{"tremor":42}"#, ""] {
        assert_eq!(hs_state::root_for_label(&roots_file(junk), "tremor"), None, "{junk}");
    }
}

#[test]
fn tree_state_is_per_root_so_agents_do_not_bleed_into_each_other() {
    let file = tree_file(
        r#"{"/repo/faultline":{"expanded":["/repo/faultline/src"],
                               "selected":"/repo/faultline/src/main.rs"},
            "/repo/tremor":{"expanded":["/repo/tremor/lib"],"selected":null}}"#,
    );
    let a = hs_state::tree_state_for(&file, "/repo/faultline");
    assert_eq!(a.expanded, vec!["/repo/faultline/src".to_string()]);
    assert_eq!(a.selected.as_deref(), Some("/repo/faultline/src/main.rs"));
    let b = hs_state::tree_state_for(&file, "/repo/tremor");
    assert_eq!(b.expanded, vec!["/repo/tremor/lib".to_string()]);
    assert_eq!(b.selected, None, "tremor has no selection");
    // An unknown root starts fresh instead of inheriting someone else's.
    assert_eq!(hs_state::tree_state_for(&file, "/repo/other"), hs_state::TreeState::default());
}

#[test]
fn pre_root_keyed_tree_files_are_discarded_not_misapplied() {
    for legacy in [
        r#"["/r/src"]"#,
        r#"{"expanded":["/r/src"],"selected":"/r/src/main.rs"}"#,
        "garbage",
    ] {
        let file = tree_file(legacy);
        assert_eq!(hs_state::tree_state_for(&file, "/r"), hs_state::TreeState::default(), "{legacy}");
    }
}

#[test]
fn recording_a_root_or_a_tree_leaves_the_others_alone() {
    let mut roots = roots_file(r#"{"tremor":"/repo/tremor"}"#);
    hs_state::record_root(&mut roots, "faultline", "/repo/faultline");
    hs_state::record_root(&mut roots, "", "/nowhere");
    assert_eq!(hs_state::root_for_label(&roots, "faultline").as_deref(), Some("/repo/faultline"));
    assert_eq!(hs_state::root_for_label(&roots, "tremor").as_deref(), Some("/repo/tremor"));
    assert_eq!(roots.len(), 2);
    let mut tree = tree_file(r#"{"/a":{"expanded":["/a/x"],"selected":null}}"#);
    let t = hs_state::TreeState { expanded: vec!["/b/y".into()], selected: Some("/b/y/z".into()) };
    hs_state::record_tree_state(&mut tree, "/b", &t);
    assert_eq!(hs_state::tree_state_for(&tree, "/b"), t);
    assert_eq!(hs_state::tree_state_for(&tree, "/a").expanded, vec!["/a/x".to_string()]);
}

const PREVIEWS: &str = r#"{"result":{"panes":[
    {"pane_id":"w4:p1","tab_id":"w4:t1","tokens":{"herdr-sidebar-explorer":"1"}},
    {"pane_id":"w4:p2","tab_id":"w4:t2",
     "tokens":{"herdr-sidebar-preview":"9","hs-preview-path":"/r/a.rs","hs-preview-pinned":"1"}},
    {"pane_id":"w4:p3","tab_id":"w4:t3",
     "tokens":{"herdr-sidebar-preview":"9","hs-preview-path":"/r/b.rs"}}
]}}"#;

fn previews(text: &str) -> Vec<PreviewPane> {
    previews_in(listed_panes(text).as_ref())
}

#[test]
fn a_pinned_tab_is_no_longer_reusable() {
    let before = r#"{"result":{"panes":[
        {"pane_id":"w4:p3","tab_id":"w4:t3","tokens":{"hs-preview-path":"/r/b.rs"}}
    ]}}"#;
    let after = r#"{"result":{"panes":[
        {"pane_id":"w4:p3","tab_id":"w4:t3",
         "tokens":{"hs-preview-path":"/r/b.rs","hs-preview-pinned":"1"}}
    ]}}"#;
    assert!(reusable_preview(&previews(before)).is_some());
    assert!(
        reusable_preview(&previews(after)).is_none(),
        "pinning must push the next file onto a new tab"
    );
    // ...and the pinned tab is still reachable by its document.
    assert!(preview_for_doc(&previews(after), "/r/b.rs").is_some());
}

#[test]
fn the_ephemeral_tab_is_not_shared_between_workspaces() {
    let json = r#"{"result":{"panes":[
        {"pane_id":"wB:pE","tab_id":"wB:t3","workspace_id":"wB",
         "tokens":{"hs-preview-path":"/learnings/a.md"}},
        {"pane_id":"wH:p9","tab_id":"wH:t4","workspace_id":"wH",
         "tokens":{"hs-preview-path":"/tremor/b.rs","hs-preview-pinned":"1"}}
    ]}}"#;
    let all = previews(json);
    assert_eq!(all.len(), 2);

    let tremor: Vec<_> = all.iter().filter(|p| p.workspace_id == "wH").cloned().collect();
    assert!(
        reusable_preview(&tremor).is_none(),
        "learnings' ephemeral tab must not be reusable from tremor"
    );
    let learnings: Vec<_> = all.iter().filter(|p| p.workspace_id == "wB").cloned().collect();
    assert_eq!(reusable_preview(&learnings).unwrap().pane_id, "wB:pE");

    // Matching an already-open document is scoped too.
    assert!(preview_for_doc(&tremor, "/learnings/a.md").is_none());
    assert_eq!(herdr_plugins::sidebar::viewer::in_workspace(&all, "wH"), tremor);
}

#[test]
fn previews_carry_their_document_and_pin_state() {
    let ps = previews(PREVIEWS);
    assert_eq!(ps.len(), 2, "only panes with hs-preview-path are previews");
    let a = ps.iter().find(|p| p.doc_key == "/r/a.rs").unwrap();
    assert!(a.pinned);
    assert_eq!(a.tab_id, "w4:t2");
    assert!(!ps.iter().find(|p| p.doc_key == "/r/b.rs").unwrap().pinned);
}

#[test]
fn an_open_document_is_matched_before_anything_is_reused() {
    let ps = previews(PREVIEWS);
    assert_eq!(preview_for_doc(&ps, "/r/a.rs").unwrap().tab_id, "w4:t2");
    assert!(preview_for_doc(&ps, "/r/zz.rs").is_none());
    assert!(matches!(route(&ps, "/r/a.rs"), Route::Existing(p) if p.pane_id == "w4:p2"));
    assert!(matches!(route(&ps, "/r/zz.rs"), Route::Reuse(p) if p.pane_id == "w4:p3"));
}

#[test]
fn only_unpinned_previews_are_reusable() {
    let ps = previews(PREVIEWS);
    assert_eq!(reusable_preview(&ps).unwrap().doc_key, "/r/b.rs");

    let all_pinned = r#"{"result":{"panes":[
        {"pane_id":"w4:p2","tab_id":"w4:t2",
         "tokens":{"hs-preview-path":"/r/a.rs","hs-preview-pinned":"1"}}
    ]}}"#;
    assert!(
        reusable_preview(&previews(all_pinned)).is_none(),
        "every tab pinned must force a new tab"
    );
}

#[test]
fn workspace_events_do_not_borrow_the_globally_focused_tabs_snooze() {
    let panes = r#"{"result":{"panes":[
        {"pane_id":"w1:p1","tab_id":"w1:t1","focused":true},
        {"pane_id":"w2:p1","tab_id":"w2:t1"}
    ]}}"#;
    let ps = listed_panes(panes);
    assert_eq!(snooze_tab_for_scope(ps.as_ref(), ""), "w1:t1");
    assert_eq!(snooze_tab_for_scope(ps.as_ref(), "w2:t1"), "w2:t1");
    assert_eq!(snooze_tab_for_scope(ps.as_ref(), "w2"), "");
}

#[test]
fn discrete_tab_creation_and_manual_toggles_wait_for_the_lock() {
    assert!(must_wait_for_lock(false, json(r#"{"event":"tab_created"}"#).as_ref()));
    assert!(must_wait_for_lock(false, json(r#"{"event":"tab.created"}"#).as_ref()));
    assert!(must_wait_for_lock(true, json("").as_ref()));
    assert!(!must_wait_for_lock(false, json(r#"{"event":"tab_focused"}"#).as_ref()));
}

#[test]
fn the_preview_of_a_tab_and_the_sidebar_beside_it() {
    let ps = listed_panes(PREVIEWS);
    assert_eq!(sidebar_in_tab(ps.as_ref(), "w4:t1").as_deref(), Some("w4:p1"));
    assert_eq!(sidebar_in_tab(ps.as_ref(), "w4:t2"), None);
    assert_eq!(tab_of(ps.as_ref(), "w4:p3"), "w4:t3");
    assert_eq!(tab_of(ps.as_ref(), "w9:p9"), "");
    let placed = |id: &str, x: i64, y: i64, w: i64, h: i64| PlacedPane {
        pane_id: Some(id.to_string()),
        rect: Some(PaneRect { x, y, width: w, height: h }),
    };
    let layout = vec![placed("a", 0, 0, 30, 40), placed("b", 30, 20, 50, 20), placed("c", 30, 0, 50, 20)];
    assert_eq!(right_neighbor(Some(&layout), "a").as_deref(), Some("b"));
    assert_eq!(right_neighbor(Some(&layout), "b"), None);
}

#[test]
fn a_preview_without_a_heartbeat_is_stale_at_any_time() {
    let json = r#"{"result":{"panes":[{"pane_id":"w1:p1","tab_id":"w1:t1"},{"pane_id":"w1:p5","tab_id":"w1:t2","tokens":{"herdr-sidebar-preview":"5"}},{"pane_id":"w1:p2","tab_id":"w1:t1","label":"Preview"}]}}"#;
    let panes = listed_panes(json);
    assert_eq!(viewer_pane_in_tab(panes.as_ref(), "w1:p1"), Some(("w1:p2".to_string(), true)));
    // The unified sidebar finds its preview by token only; a token that is
    // not a timestamp is as dead as a missing one.
    assert_eq!(aa_viewer::viewer_pane_in_tab(panes.as_ref(), "w1:p1"), None);
    let odd = r#"{"result":{"panes":[{"pane_id":"w1:p1","tab_id":"w1:t1"},{"pane_id":"w1:p2","tab_id":"w1:t1","tokens":{"herdr-aa-sidebar-preview":"viewer"}}]}}"#;
    let panes = listed_panes(odd);
    assert_eq!(aa_viewer::viewer_pane_in_tab(panes.as_ref(), "w1:p1"), Some(("w1:p2".to_string(), true)));
}

fn to_value(j: &Json) -> serde_json::Value {
    match j {
        Json::Null => serde_json::Value::Null,
        Json::Bool(b) => serde_json::Value::Bool(*b),
        Json::Number => serde_json::Value::from(0),
        Json::Str(s) => serde_json::Value::String(s.clone()),
        Json::Array(a) => serde_json::Value::Array(a.iter().map(to_value).collect()),
        Json::Object(m) => serde_json::Value::Object(
            m.iter().map(|mb| (mb.key.clone(), to_value(&mb.value))).collect(),
        ),
    }
}

#[test]
fn a_saved_tree_survives_a_reload_with_every_other_root() {
    let mut tree = tree_file(r#"{"/a":{"expanded":["/a/x"],"selected":null},"/c":7}"#);
    let t = hs_state::TreeState { expanded: vec!["/b/y".into()], selected: None };
    hs_state::record_tree_state(&mut tree, "/b", &t);
    let text = to_value(&Json::Object(tree)).to_string();
    let reloaded = tree_file(&text);
    assert_eq!(reloaded.len(), 3, "no member added or lost: {text}");
    assert_eq!(hs_state::tree_state_for(&reloaded, "/b"), t);
    assert_eq!(hs_state::tree_state_for(&reloaded, "/a").expanded, vec!["/a/x".to_string()]);
}
