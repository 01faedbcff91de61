use herdr_plugins::aa_sidebar::explorer::{
    first_action, hits_chevron, hits_collapse_button, menu_item_at, menu_rect, prompt_edit,
    row_index_at, settings_rect, settings_row_at, step_menu, BodyGeom,
};
use herdr_plugins::aa_sidebar::scm::{
    self, file_menu, inline_field_width, move_by, nearest_selectable, reselect, row_click, row_hit,
    row_y, rows as scm_rows, sync_label, Drawer, DrawerState, MenuAction, MenuEntry, Repo, Row,
    RowClick,
};
use herdr_plugins::aa_sidebar::state::{self as aa_state, View as AaView};
use herdr_plugins::aa_sidebar::ui::{
    activity_icons, branch_icon, gear_icon, hint_width, hits, pack_hints, sparkle_icon, within,
    Rect,
};
use herdr_plugins::icons::IconTheme;
use herdr_plugins::keys::{Key, KeyPress};
use herdr_plugins::sidebar::actions::{menu_entries, MenuEntry as ActionEntry};
use herdr_plugins::sidebar::state::View as SidebarView;

#[test]
fn explorer_app_collapse_button_hit_region_is_header_right_edge() {
    assert!(hits_collapse_button(30, 49, 32, 50), "footer right edge");
    assert!(hits_collapse_button(28, 49, 32, 50));
    assert!(!hits_collapse_button(27, 49, 32, 50), "left of the button");
    assert!(!hits_collapse_button(30, 0, 32, 50), "header row");
    assert!(!hits_collapse_button(30, 48, 32, 50), "tree row");
}

#[test]
fn explorer_app_menu_navigation_skips_separators_and_clamps() {
    let entries = menu_entries(Some(false));
    // First entry is an action; stepping up from it stays put.
    assert_eq!(step_menu(&entries, 0, -1), 0);
    // Stepping down over a separator lands on the next action.
    let sep = entries.iter().position(|e| matches!(e, ActionEntry::Separator)).unwrap();
    assert_eq!(step_menu(&entries, sep - 1, 1), sep + 1);
    let last = entries.len() - 1;
    assert_eq!(step_menu(&entries, last, 1), last);
}

#[test]
fn chevron_hit_region_follows_indent_depth() {
    assert!(hits_chevron(0, 0));
    assert!(hits_chevron(1, 0));
    assert!(!hits_chevron(2, 0), "icon cell");
    assert!(hits_chevron(2, 1));
    assert!(hits_chevron(3, 1));
    assert!(!hits_chevron(0, 1), "indent cell");
}

#[test]
fn row_index_accounts_for_header_and_scroll() {
    let body = BodyGeom { top: 1, height: 10, offset: 5 };
    assert_eq!(row_index_at(body, 100, 0), None, "header row");
    assert_eq!(row_index_at(body, 100, 1), Some(5));
    assert_eq!(row_index_at(body, 100, 10), Some(14));
    assert_eq!(row_index_at(body, 100, 11), None, "footer row");
    assert_eq!(row_index_at(body, 6, 2), None, "past the last row");
}

#[test]
fn popups_stay_inside_the_pane_and_hit_their_rows() {
    let entries = menu_entries(None);
    assert_eq!(first_action(&entries), 0);
    let r = menu_rect(70, 40, 20, entries.len(), 80, 30);
    assert_eq!(r, Rect { x: 56, y: 21, width: 24, height: 9 });
    assert_eq!(menu_item_at(r, &entries, 22, 60), Some(0));
    assert_eq!(menu_item_at(r, &entries, 24, 60), None, "separator");
    assert_eq!(menu_item_at(r, &entries, 21, 60), None, "border");
    let s = settings_rect(3, 80, 30);
    assert_eq!(s, Rect { x: 25, y: 8, width: 30, height: 6 });
    assert_eq!(settings_row_at(s, 3, 9, 30), Some(0));
    assert_eq!(settings_row_at(s, 3, 12, 30), None);
    let mut input = String::from("ab");
    prompt_edit(&mut input, KeyPress { key: Key::Backspace, ctrl: false });
    prompt_edit(&mut input, KeyPress { key: Key::Char('z'), ctrl: false });
    assert_eq!(input, "az");
}

#[test]
fn scm_app_menu_navigation_skips_separators_and_clamps() {
    let entries = [
        MenuEntry::Action(MenuAction::StageOrUnstage, "Stage Changes"),
        MenuEntry::Separator,
        MenuEntry::Action(MenuAction::CopyPath, "Copy Path"),
    ];
    assert_eq!(scm::step_menu(&entries, 0, -1), 0);
    assert_eq!(scm::step_menu(&entries, 0, 1), 2, "skips the separator");
    assert_eq!(scm::step_menu(&entries, 2, 1), 2);
}

#[test]
fn drawer_titles_match_git_graph() {
    let titles: Vec<&str> = Drawer::all().iter().map(|d| d.title()).collect();
    assert_eq!(
        titles,
        ["GRAPH", "COMMITS", "FILE HISTORY", "BRANCHES", "REMOTES", "STASHES", "TAGS"]
    );
    assert_eq!(Drawer::Stashes.index(), 5);
}

fn repo(name: &str, staged: usize, unstaged: usize) -> Repo {
    let mut r = Repo::new(name.to_string());
    r.staged = staged;
    r.unstaged = unstaged;
    r
}

fn drawers() -> Vec<DrawerState> {
    let mut d = vec![DrawerState::default(); 7];
    d[1] = DrawerState { expanded: true, lines: 2 };
    d
}

#[test]
fn several_repos_get_inline_message_boxes_that_keys_skip() {
    let repos = vec![repo("a", 1, 0), repo("b", 0, 1)];
    let rows = scm_rows(&repos, &drawers());
    assert_eq!(
        rows[..9],
        [
            Row::RepoHeader(0),
            Row::Message(0),
            Row::Commit(0),
            Row::StagedHeader(0),
            Row::Staged(0, 0),
            Row::ChangesHeader(0),
            Row::RepoHeader(1),
            Row::Message(1),
            Row::Commit(1),
        ]
    );
    assert_eq!(rows.len(), 11 + 7 + 2);
    // Down from the first header skips the message box and commit button.
    assert_eq!(move_by(&rows, Some(0), 1), Some(3));
    assert_eq!(move_by(&rows, Some(3), -1), Some(0));
    assert_eq!(nearest_selectable(&rows, 1), 3);
    assert_eq!(reselect(&rows, Some(1)), Some(3));
    // The message box is three lines tall.
    let body = BodyGeom { top: 2, height: 10, offset: 0 };
    let geom = scm::BodyGeom { top: body.top, height: body.height, offset: body.offset };
    assert_eq!(row_hit(&rows, geom, 3), Some((1, 0)));
    assert_eq!(row_hit(&rows, geom, 5), Some((1, 2)));
    assert_eq!(row_hit(&rows, geom, 6), Some((2, 0)));
    assert_eq!(row_y(&rows, geom, 2), Some(6));
    assert_eq!(row_y(&rows, geom, 15), None, "below the body");
    let single = scm_rows(&vec![repo("a", 0, 2)], &drawers());
    assert_eq!(single[0], Row::ChangesHeader(0));
}

#[test]
fn row_clicks_hit_the_inline_widgets() {
    assert_eq!(row_click(Row::Message(1), 4, 1, 38, 40), RowClick::Suggest(1));
    assert_eq!(row_click(Row::Message(1), 4, 0, 38, 40), RowClick::FocusMessage(1));
    assert_eq!(row_click(Row::RepoHeader(0), 0, 0, 38, 40), RowClick::Commit(0));
    assert_eq!(row_click(Row::RepoHeader(0), 0, 0, 35, 40), RowClick::Sync(0));
    assert_eq!(row_click(Row::RepoHeader(0), 0, 0, 10, 40), RowClick::SelectAndActivate(0));
    assert_eq!(row_click(Row::Staged(0, 0), 7, 0, 10, 40), RowClick::Select(7));
    assert_eq!(inline_field_width(40), 35);
    assert_eq!(inline_field_width(3), 0);
}

#[test]
fn repo_rows_decorate_and_sync_labels_count() {
    let mut r = repo("a", 0, 0);
    r.branch = "main".to_string();
    assert_eq!(r.branch_decor(), "main");
    r.unstaged = 1;
    assert_eq!(r.branch_decor(), "main*");
    assert_eq!(sync_label(false, true, 2, 1).as_deref(), Some("⇅ Sync Changes  2↑ 1↓"));
    assert_eq!(sync_label(false, true, 0, 0), None);
    assert_eq!(sync_label(false, false, 3, 0), None);
    assert_eq!(sync_label(true, false, 0, 0).as_deref(), Some("⇅ Syncing…"));
    let menu = file_menu(true);
    assert!(matches!(menu[0], MenuEntry::Action(MenuAction::StageOrUnstage, "Unstage Changes")));
    assert_eq!(file_menu(false).len(), 7);
}

#[test]
fn state_views_pair_up() {
    assert_eq!(AaView::Explorer.other(), AaView::SourceControl);
    assert_eq!(AaView::SourceControl.other(), AaView::Explorer);
    assert_eq!(AaView::Explorer.label(), "Explorer");
    assert_eq!(AaView::SourceControl.plugin_id(), "herdr-aa-sidebar-git");
    assert_eq!(SidebarView::Explorer.other(), SidebarView::SourceControl);
    assert_eq!(SidebarView::SourceControl.other(), SidebarView::Explorer);
    assert_eq!(SidebarView::Explorer.label(), "Explorer");
    assert_eq!(SidebarView::SourceControl.plugin_id(), "herdr-sidebar-git");
}

#[test]
fn view_flags_read_back() {
    assert_eq!(AaView::SourceControl.view_flag(), "git");
    assert_eq!(AaView::from_view_flag("git"), Some(AaView::SourceControl));
    assert_eq!(AaView::from_view_flag("explorer"), Some(AaView::Explorer));
    assert_eq!(AaView::from_view_flag("nope"), None);
    assert_eq!(SidebarView::from_view_flag(SidebarView::Explorer.view_flag()), Some(SidebarView::Explorer));
    assert_eq!(aa_state::sidebar_label(), "Sidebar");
}

#[test]
fn theme_glyphs_and_hit_tests() {
    assert_eq!(activity_icons(IconTheme::Emoji), ("📁", "🔀"));
    assert_eq!(activity_icons(IconTheme::Material), ("\u{f07b}", "\u{f126}"));
    assert_eq!(gear_icon(IconTheme::Emoji), "⚙");
    assert_eq!(sparkle_icon(IconTheme::Emoji), "✧");
    assert_eq!(branch_icon(IconTheme::Material), "\u{e725}");
    assert!(within(3, (3, 5)));
    assert!(!within(5, (3, 5)));
    let r = Rect { x: 2, y: 3, width: 4, height: 1 };
    assert!(hits(r, 5, 3));
    assert!(!hits(r, 6, 3));
    assert!(!hits(r, 5, 4));
}

fn packed_widths(hints: &[(&str, &str)]) -> Vec<usize> {
    hints.iter().map(|(k, l)| hint_width(k, l)).collect()
}

fn line_width(line: &[usize], widths: &[usize]) -> usize {
    1 + line.iter().map(|&i| widths[i]).sum::<usize>() + 2 * line.len().saturating_sub(1)
}

#[test]
fn hints_wrap_instead_of_clipping() {
    let hints = [("⏎", "stage"), ("a", "all"), ("u", "none"), ("q", "quit")];
    let widths = packed_widths(&hints);
    let wide = pack_hints(&widths, 80, 0);
    assert_eq!(wide.len(), 1);
    let narrow = pack_hints(&widths, 14, 0);
    assert!(narrow.len() >= 2, "narrow pane stacks hints");
    for line in &narrow {
        assert!(line_width(line, &widths) <= 14, "no line exceeds the pane width");
    }
}

#[test]
fn hints_have_no_line_cap() {
    let hints = [
        ("a", "aaa"),
        ("b", "bbb"),
        ("c", "ccc"),
        ("d", "ddd"),
        ("e", "eee"),
        ("f", "fff"),
        ("g", "ggg"),
        ("h", "hhh"),
    ];
    // Every chip lands on its own line rather than overflowing the width.
    let widths = packed_widths(&hints);
    let lines = pack_hints(&widths, 10, 0);
    assert_eq!(lines.len(), hints.len());
    for line in &lines {
        assert!(line_width(line, &widths) <= 10, "no line exceeds the pane width");
    }
}
