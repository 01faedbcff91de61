use herdr_plugins::filetree::explorer::{
    hits_collapse_button, initial, on_key, on_mouse, row_prefix, sliver_lines, Effect,
    DEFAULT_EXPANDED_WIDTH, SLIVER_TARGET,
};
use herdr_plugins::filetree::session::{after_guest, after_tui, start, Exit, Next};
use herdr_plugins::filetree::sidebar::{
    bool_str, guest_flag, parse_state, sidebar_label, state_json, State, View, EXIT_SWITCH,
};
use herdr_plugins::filetree::sideways::{glyph, lines, sextant};
use herdr_plugins::filetree::viewer::{control_path, control_target};
use herdr_plugins::icons::IconTheme;
use herdr_plugins::keys::{Key, Mouse, MouseKind};
use herdr_plugins::tree_nav::TreeRow;

#[test]
fn app_collapse_button_hit_region_is_header_right_edge() {
    assert!(hits_collapse_button(30, 1, 32));
    assert!(hits_collapse_button(28, 1, 32));
    assert!(!hits_collapse_button(27, 1, 32), "left of the button");
    assert!(!hits_collapse_button(30, 0, 32), "border row");
    assert!(!hits_collapse_button(30, 2, 32), "tree row");
}

#[test]
fn sliver_spells_explorer_and_truncates_on_short_panes() {
    let chars = sliver_lines(20);
    assert_eq!(chars[0], "»");
    assert_eq!(chars[2..], ["E", "X", "P", "L", "O", "R", "E", "R"]);
    assert_eq!(sliver_lines(5).len(), 5, "never exceeds the pane height");
}

#[test]
fn sidebar_views_pair_up() {
    assert_eq!(View::Explorer.other(), View::SourceControl);
    assert_eq!(View::SourceControl.other(), View::Explorer);
    assert_eq!(View::Explorer.label(), "Explorer");
    assert_eq!(View::SourceControl.plugin_id(), "herdr-aa-git");
}

#[test]
fn one_row_per_letter_reading_bottom_to_top() {
    let all = lines("EXPLORER", 100);
    assert_eq!(all.len(), 8);
    assert!(all.iter().all(|l| l.chars().count() == 3));
    // Reversed stack is R,E,R,O,L,P,X,E top-to-bottom: the two E rows
    // (indices 1 and 7) and the two R rows (0 and 2) render identically.
    assert_eq!(all[1], all[7], "both E rows render identically");
    assert_eq!(all[0], all[2], "both R rows render identically");
    assert_eq!(lines("EXPLORER", 3).len(), 3);
    assert!(lines("", 10).is_empty());
}

#[test]
fn sextant_encoding_matches_block_element_gaps() {
    assert_eq!(sextant(0), ' ');
    assert_eq!(sextant(21), '▌');
    assert_eq!(sextant(42), '▐');
    assert_eq!(sextant(63), '█');
    assert_eq!(sextant(1), '\u{1FB00}');
    assert_eq!(sextant(22), '\u{1FB14}'); // one past the ▌ gap
    assert_eq!(sextant(62), '\u{1FB3B}'); // last sextant before █
}

#[test]
fn glyphs_are_solid_marks() {
    for l in lines("EXPLORER", 100) {
        assert!(l.chars().any(|c| c != ' '), "every letter row has visible pixels");
        assert!(l.chars().all(|c| {
            c == ' '
                || c == '▌'
                || c == '▐'
                || c == '█'
                || ('\u{1fb00}'..='\u{1fb3b}').contains(&c)
        }));
    }
}

#[test]
fn unknown_letters_have_no_glyph_and_are_skipped() {
    assert!(glyph('E').is_some());
    assert!(glyph('?').is_none());
    assert_eq!(lines("E?", 10).len(), 1);
}

#[test]
fn the_merged_state_file_reads_back() {
    let s = State { merged: true, active: View::SourceControl };
    assert_eq!(state_json(s), "{\"merged\":true,\"active\":\"source-control\"}");
    assert_eq!(parse_state(None), State::default());
    assert_eq!(bool_str(false), "false");
    assert_eq!(EXIT_SWITCH, 42);
    assert_eq!(guest_flag(), "--sidebar-guest");
    assert_eq!(sidebar_label(), "Sidebar");
}

fn row(path: &str, depth: usize, is_dir: bool, expanded: bool) -> TreeRow {
    TreeRow {
        path: path.to_string(),
        name: path.rsplit('/').next().unwrap().to_string(),
        depth,
        is_dir,
        expanded,
    }
}

fn sample_rows() -> Vec<TreeRow> {
    vec![
        row("/r/src", 0, true, true),
        row("/r/src/app", 1, true, false),
        row("/r/src/main.rs", 1, false, false),
        row("/r/Cargo.toml", 0, false, false),
    ]
}

#[test]
fn arrow_keys_walk_and_fold_the_tree() {
    let rows = sample_rows();
    let mut s = initial(rows.len(), IconTheme::Emoji);
    assert_eq!(s.selected, Some(0));
    // Right on an expanded directory steps to its first child.
    assert_eq!(on_key(&mut s, Key::Right, &rows), Effect::Redraw);
    assert_eq!(s.selected, Some(1));
    // Right on a collapsed directory asks for it to be expanded.
    assert_eq!(on_key(&mut s, Key::Char('l'), &rows), Effect::Expand(1));
    // Down twice, then Left on a file jumps to its parent row.
    on_key(&mut s, Key::Down, &rows);
    assert_eq!(s.selected, Some(2));
    assert_eq!(on_key(&mut s, Key::Left, &rows), Effect::Redraw);
    assert_eq!(s.selected, Some(0));
    // Left on an expanded directory folds it.
    assert_eq!(on_key(&mut s, Key::Char('h'), &rows), Effect::Collapse(0));
    // End / Home clamp to the list.
    on_key(&mut s, Key::End, &rows);
    assert_eq!(s.selected, Some(3));
    on_key(&mut s, Key::PageDown, &rows);
    assert_eq!(s.selected, Some(3));
    on_key(&mut s, Key::Home, &rows);
    assert_eq!(s.selected, Some(0));
    assert_eq!(on_key(&mut s, Key::Up, &rows), Effect::Redraw);
    assert_eq!(s.selected, Some(0));
    assert_eq!(on_key(&mut s, Key::Enter, &rows), Effect::Toggle(0));
    assert_eq!(on_key(&mut s, Key::Char('.'), &rows), Effect::ToggleHidden);
    assert_eq!(on_key(&mut s, Key::Char('r'), &rows), Effect::Refresh);
    assert_eq!(on_key(&mut s, Key::Char('q'), &rows), Effect::Quit);
}

#[test]
fn collapsing_to_the_sliver_and_back_restores_the_width() {
    let rows = sample_rows();
    let mut s = initial(rows.len(), IconTheme::Material);
    s.last_width = 40;
    assert_eq!(on_key(&mut s, Key::Char('b'), &rows), Effect::Resize(40, SLIVER_TARGET));
    assert!(s.collapsed);
    s.last_width = 5;
    // In the sliver any key but q expands again, to the remembered width.
    assert_eq!(on_key(&mut s, Key::Down, &rows), Effect::Resize(5, 40));
    assert!(!s.collapsed);
    // A click on the « button collapses; a click in the sliver expands.
    s.last_width = 20;
    let click = Mouse { kind: MouseKind::LeftDown, column: 18, row: 1 };
    assert_eq!(on_mouse(&mut s, click), Effect::Resize(20, SLIVER_TARGET));
    assert_eq!(s.expanded_width, 20);
    assert_eq!(on_mouse(&mut s, click), Effect::Resize(20, DEFAULT_EXPANDED_WIDTH));
}

#[test]
fn row_prefixes_indent_and_mark_folders() {
    assert_eq!(row_prefix(0, true, true), "▾ ");
    assert_eq!(row_prefix(2, true, false), "    ▸ ");
    assert_eq!(row_prefix(1, false, false), "    ");
}

#[test]
fn a_guest_hands_the_pane_back_and_never_nests() {
    assert_eq!(start(false, true, View::SourceControl), Next::RunGuest);
    assert_eq!(start(true, true, View::SourceControl), Next::RunTui);
    assert_eq!(start(false, false, View::SourceControl), Next::RunTui);
    assert_eq!(after_tui(Exit::Switch, true), Next::HandBack);
    assert_eq!(after_tui(Exit::Switch, false), Next::RunGuest);
    assert_eq!(after_tui(Exit::Quit, false), Next::Quit);
    assert_eq!(after_guest(false, Some(42)), Next::RunTui);
    assert_eq!(after_guest(false, Some(0)), Next::Quit);
    assert_eq!(after_guest(true, None), Next::RunTui);
    assert_eq!(after_guest(false, None), Next::Quit);
}

#[test]
fn the_preview_control_file_is_named_after_the_explorer_pane() {
    assert_eq!(
        control_path("/tmp", "w1:p3"),
        "/tmp/herdr-aa-filetree-preview-w1_p3.ctl"
    );
    assert_eq!(control_target("  /r/a.rs \n").as_deref(), Some("/r/a.rs"));
    assert_eq!(control_target("   "), None);
}

#[test]
fn sliver_rows_are_the_letters_one_by_one() {
    let rows = lines("Ex-plorer!", 20);
    let shown: Vec<char> = "Ex-plorer!".chars().rev().filter(|c| glyph(*c).is_some()).collect();
    assert_eq!(rows.len(), shown.len());
    for (row, c) in rows.iter().zip(shown.iter()) {
        assert_eq!(row.chars().count(), 3);
        assert_eq!(row, &lines(&c.to_string(), 1)[0]);
    }
    assert_eq!(lines("Explorer", 3).len(), 3);
}
