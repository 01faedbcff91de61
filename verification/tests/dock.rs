use herdr_plugins::filetree::sidebar::state_path;
use herdr_plugins::sidebar::ensure::{dock_plan, dock_source};

#[test]
fn dock_plans_name_a_target_and_a_swap() {
    let p = dock_plan("w:p2\t0.25\ttrue", "w:p1", true);
    assert_eq!((p.target.as_str(), p.needs_swap), ("w:p2", true));
    let p = dock_plan("w:p2\t0.75\tfalse", "w:p1", false);
    assert_eq!((p.target.as_str(), p.needs_swap), ("w:p2", false));
    // Nothing usable in the plan: dock at the focused pane, swap only for a left dock.
    let p = dock_plan("", "w:p1", false);
    assert_eq!((p.target.as_str(), p.needs_swap), ("w:p1", true));
    let p = dock_plan("\t0.5\tmaybe", "w:p1", true);
    assert_eq!((p.target.as_str(), p.needs_swap), ("w:p1", false));
}

#[test]
fn dock_sources_split_id_and_cwd() {
    assert_eq!(dock_source("w:p1\t/home/me/src"), Some(("w:p1".to_string(), "/home/me/src".to_string())));
    assert_eq!(dock_source("w:p1\t"), Some(("w:p1".to_string(), String::new())));
    assert_eq!(dock_source(""), None);
}

#[test]
fn state_files_live_beside_herdr_config() {
    assert_eq!(state_path(Some("/x/cfg"), Some("/home/me")), Some("/x/cfg/herdr/aa-sidebar.json".to_string()));
    assert_eq!(state_path(None, Some("/home/me")), Some("/home/me/.config/herdr/aa-sidebar.json".to_string()));
    assert_eq!(state_path(None, None), None);
    assert_eq!(herdr_plugins::aa_sidebar::state::state_path(None, Some("/h")), Some("/h/.config/herdr/aa-sidebar.json".to_string()));
}
