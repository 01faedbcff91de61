use herdr_plugins::aa_sidebar::explorer::{
    create_dir, explorer_hints, explorer_key, footer_height, open_menu, prompt_op, sliver_lines, PromptOp, explorer_mouse, is_double_click, menu_outcome, no_activity_zones,
    overlay_key, overlay_mouse, row_action, setting_to_toggle, settings_rows, ActivityZones,
    BodyGeom, ExplorerClick, ExplorerCmd, ExplorerFrame, MenuOutcome, Overlay, OverlayCmd,
    PromptKind, RowAction, Setting,
};
use herdr_plugins::aa_sidebar::scm::{
    context_menu, left_click, scm_key, scm_mouse, scm_overlay_key, scm_overlay_mouse,
    activate_row, follow_selection, scm_hints, Activation, DrawerState, Repo, scm_settings_rows, zone_at, Follow, Drawer, BodyGeom as ScmBody, ClickZones, FileRef, Focus, Row, RowClick,
    ScmClick, ScmCmd, ScmMouse, ScmOverlay, ScmOverlayCmd, Zone,
};
use herdr_plugins::aa_sidebar::state::View;
use herdr_plugins::aa_sidebar::ui::Rect;
use herdr_plugins::icons::IconTheme;
use herdr_plugins::keys::{Key, KeyPress, Mouse, MouseKind};
use herdr_plugins::sidebar::actions::{menu_entries, MenuAction};

fn key(k: Key) -> KeyPress {
    KeyPress { key: k, ctrl: false }
}

fn mouse(kind: MouseKind, column: u16, row: u16) -> Mouse {
    Mouse { kind, column, row }
}

fn rect(x: u16, y: u16, width: u16, height: u16) -> Rect {
    Rect { x, y, width, height }
}

fn menu_overlay() -> Overlay {
    let entries = menu_entries(Some(false));
    Overlay::Menu { x: 3, y: 4, target: Some(("/w/a.txt".to_string(), false)), entries, selected: 0, rect: rect(2, 2, 30, 14) }
}

#[test]
fn settings_overlay_keys_move_toggle_and_close() {
    let mut ov = Overlay::Settings { selected: 0, rect: rect(0, 0, 30, 6) };
    assert_eq!(overlay_key(&mut ov, key(Key::Down), 3), OverlayCmd::Nothing);
    assert_eq!(overlay_key(&mut ov, key(Key::Char('j')), 3), OverlayCmd::Nothing);
    // Clamped at the last row.
    assert_eq!(overlay_key(&mut ov, key(Key::Down), 3), OverlayCmd::Nothing);
    assert_eq!(ov, Overlay::Settings { selected: 2, rect: rect(0, 0, 30, 6) });
    assert_eq!(overlay_key(&mut ov, key(Key::Enter), 3), OverlayCmd::ToggleSetting(2));
    assert_eq!(overlay_key(&mut ov, key(Key::Up), 3), OverlayCmd::Nothing);
    assert_eq!(overlay_key(&mut ov, key(Key::Char(' ')), 3), OverlayCmd::ToggleSetting(1));
    assert_eq!(overlay_key(&mut ov, key(Key::Char('q')), 3), OverlayCmd::Close);
}

#[test]
fn menu_overlay_keys_skip_separators() {
    let mut ov = menu_overlay();
    assert_eq!(overlay_key(&mut ov, key(Key::Down), 3), OverlayCmd::Nothing);
    assert_eq!(overlay_key(&mut ov, key(Key::Down), 3), OverlayCmd::Nothing);
    // New File, New Folder, separator, Open with Default App.
    match &ov {
        Overlay::Menu { selected, .. } => assert_eq!(*selected, 3),
        other => panic!("menu expected, got {other:?}"),
    }
    assert_eq!(overlay_key(&mut ov, key(Key::Enter), 3), OverlayCmd::Activate);
    assert_eq!(overlay_key(&mut ov, key(Key::Esc), 3), OverlayCmd::Close);
}

#[test]
fn prompt_overlay_edits_and_confirms() {
    let mut ov = Overlay::Prompt {
        title: "Rename".to_string(),
        input: "ab".to_string(),
        kind: PromptKind::Rename("/w/ab".to_string()),
    };
    assert_eq!(overlay_key(&mut ov, key(Key::Backspace), 3), OverlayCmd::Nothing);
    assert_eq!(overlay_key(&mut ov, key(Key::Char('z')), 3), OverlayCmd::Nothing);
    match &ov {
        Overlay::Prompt { input, title, .. } => {
            assert_eq!(input, "az");
            assert_eq!(title, "Rename");
        }
        other => panic!("prompt expected, got {other:?}"),
    }
    assert_eq!(overlay_key(&mut ov, key(Key::Enter), 3), OverlayCmd::ConfirmPrompt);
    assert_eq!(overlay_key(&mut ov, key(Key::Esc), 3), OverlayCmd::Close);
}

#[test]
fn delete_confirmation_needs_y() {
    let mut ov = Overlay::ConfirmDelete { path: "/w/x".to_string(), is_dir: true };
    assert_eq!(
        overlay_key(&mut ov, key(Key::Char('Y')), 3),
        OverlayCmd::DeleteConfirmed("/w/x".to_string(), true)
    );
    assert_eq!(overlay_key(&mut ov, key(Key::Char('n')), 3), OverlayCmd::Close);
    assert_eq!(overlay_key(&mut ov, key(Key::Enter), 3), OverlayCmd::Close);
}

#[test]
fn settings_overlay_mouse_hover_click_border_and_outside() {
    let r = rect(10, 5, 30, 6);
    let mut ov = Overlay::Settings { selected: 0, rect: r };
    // Row 1 sits on screen row 7 (just inside the top border at 5, row 0 at 6).
    assert_eq!(overlay_mouse(&mut ov, mouse(MouseKind::Moved, 12, 7), 3), OverlayCmd::Nothing);
    assert_eq!(ov, Overlay::Settings { selected: 1, rect: r });
    assert_eq!(overlay_mouse(&mut ov, mouse(MouseKind::LeftDown, 12, 8), 3), OverlayCmd::ToggleSetting(2));
    assert_eq!(ov, Overlay::Settings { selected: 2, rect: r });
    // The border: inside the popup but on no row.
    assert_eq!(overlay_mouse(&mut ov, mouse(MouseKind::LeftDown, 10, 5), 3), OverlayCmd::Nothing);
    assert_eq!(overlay_mouse(&mut ov, mouse(MouseKind::LeftDown, 0, 0), 3), OverlayCmd::Close);
    assert_eq!(ov, Overlay::Settings { selected: 2, rect: r });
}

#[test]
fn menu_overlay_mouse_activates_actions_only() {
    let mut ov = menu_overlay();
    // Inner area starts at (3, 3); entry 2 is a separator.
    assert_eq!(overlay_mouse(&mut ov, mouse(MouseKind::Moved, 5, 4), 3), OverlayCmd::Nothing);
    match &ov {
        Overlay::Menu { selected, .. } => assert_eq!(*selected, 1),
        other => panic!("menu expected, got {other:?}"),
    }
    assert_eq!(overlay_mouse(&mut ov, mouse(MouseKind::LeftDown, 5, 5), 3), OverlayCmd::Close);
    assert_eq!(overlay_mouse(&mut ov, mouse(MouseKind::LeftDown, 5, 6), 3), OverlayCmd::Activate);
    match &ov {
        Overlay::Menu { selected, .. } => assert_eq!(*selected, 3),
        other => panic!("menu expected, got {other:?}"),
    }
    assert_eq!(overlay_mouse(&mut ov, mouse(MouseKind::RightDown, 40, 1), 3), OverlayCmd::Reopen(40, 1));
    let mut prompt = Overlay::ConfirmDelete { path: "/w".to_string(), is_dir: true };
    assert_eq!(overlay_mouse(&mut prompt, mouse(MouseKind::LeftDown, 5, 5), 3), OverlayCmd::Nothing);
}

#[test]
fn settings_rows_follow_state() {
    let rows = settings_rows(true, false, IconTheme::Emoji, false);
    assert_eq!(rows.len(), 3);
    assert_eq!((rows[0].setting, rows[0].label, rows[0].value, rows[0].enabled), (Setting::UnifiedSidebar, "Unified sidebar", "on", false));
    assert_eq!((rows[1].label, rows[1].value), ("Icon theme", "emoji"));
    assert_eq!((rows[2].label, rows[2].value), ("Hidden files", "hidden"));
    assert_eq!(setting_to_toggle(&rows, 0), None, "disabled row");
    assert_eq!(setting_to_toggle(&rows, 2), Some(Setting::HiddenFiles));
    assert_eq!(setting_to_toggle(&rows, 3), None);
    let scm = scm_settings_rows(false, true, IconTheme::Material);
    assert_eq!(scm.len(), 2);
    assert_eq!((scm[0].value, scm[0].enabled, scm[1].value), ("off", true, "material"));
}

#[test]
fn new_entries_go_to_folder_parent_or_root() {
    let dir = Some(("/w/src".to_string(), true));
    let file = Some(("/w/src/a.rs".to_string(), false));
    assert_eq!(create_dir(&dir, Some("/w"), "/w"), "/w/src");
    assert_eq!(create_dir(&file, Some("/w/src"), "/w"), "/w/src");
    assert_eq!(create_dir(&file, None, "/w"), "/w");
    assert_eq!(create_dir(&None, None, "/w"), "/w");
}

#[test]
fn menu_outcomes_open_prompts_and_need_targets() {
    let file = Some(("/w/a.txt".to_string(), false));
    assert_eq!(
        menu_outcome(MenuAction::NewFile, &file, "/w".to_string(), "a.txt".to_string()),
        MenuOutcome::Open(Overlay::Prompt {
            title: "New file".to_string(),
            input: String::new(),
            kind: PromptKind::NewFile("/w".to_string()),
        })
    );
    assert_eq!(
        menu_outcome(MenuAction::Rename, &file, "/w".to_string(), "a.txt".to_string()),
        MenuOutcome::Open(Overlay::Prompt {
            title: "Rename".to_string(),
            input: "a.txt".to_string(),
            kind: PromptKind::Rename("/w/a.txt".to_string()),
        })
    );
    assert_eq!(
        menu_outcome(MenuAction::Delete, &file, "/w".to_string(), String::new()),
        MenuOutcome::Open(Overlay::ConfirmDelete { path: "/w/a.txt".to_string(), is_dir: false })
    );
    assert_eq!(
        menu_outcome(MenuAction::CopyRelativePath, &file, "/w".to_string(), String::new()),
        MenuOutcome::Copy("/w/a.txt".to_string(), true)
    );
    assert_eq!(menu_outcome(MenuAction::Rename, &None, "/w".to_string(), String::new()), MenuOutcome::Nothing);
    assert_eq!(menu_outcome(MenuAction::Reveal, &None, "/w".to_string(), String::new()), MenuOutcome::Reveal(None));
}

#[test]
fn explorer_keys_map_to_commands() {
    assert_eq!(explorer_key(key(Key::Char('x')), true, 10), ExplorerCmd::Expand);
    assert_eq!(explorer_key(key(Key::Char('q')), true, 10), ExplorerCmd::Quit);
    assert_eq!(explorer_key(key(Key::Esc), false, 10), ExplorerCmd::Quit);
    assert_eq!(explorer_key(key(Key::PageUp), false, 10), ExplorerCmd::MoveBy(-10));
    assert_eq!(explorer_key(key(Key::Char('j')), false, 10), ExplorerCmd::MoveBy(1));
    assert_eq!(explorer_key(key(Key::Char('G')), false, 10), ExplorerCmd::SelectLast);
    assert_eq!(explorer_key(key(Key::Char('.')), false, 10), ExplorerCmd::ToggleHidden);
    assert_eq!(explorer_key(key(Key::Char('2')), false, 10), ExplorerCmd::SwitchTo(View::SourceControl));
    assert_eq!(explorer_key(key(Key::Tab), false, 10), ExplorerCmd::Nothing);
}

fn frame() -> ExplorerFrame {
    ExplorerFrame {
        collapsed: false,
        merged: true,
        activity: ActivityZones { row: 0, explorer: (1, 3), source_control: (4, 6) },
        gear: rect(28, 0, 2, 1),
        width: 32,
        height: 50,
        body: BodyGeom { top: 2, height: 40, offset: 0 },
        row_count: 5,
    }
}

#[test]
fn explorer_clicks_try_bar_gear_collapse_then_rows() {
    let f = frame();
    assert_eq!(explorer_mouse(f, mouse(MouseKind::LeftDown, 4, 0)), ExplorerClick::SwitchTo(View::SourceControl));
    assert_eq!(explorer_mouse(f, mouse(MouseKind::LeftDown, 29, 0)), ExplorerClick::OpenSettings);
    assert_eq!(explorer_mouse(f, mouse(MouseKind::LeftDown, 30, 49)), ExplorerClick::Collapse);
    assert_eq!(explorer_mouse(f, mouse(MouseKind::LeftDown, 10, 3)), ExplorerClick::Row(1));
    assert_eq!(explorer_mouse(f, mouse(MouseKind::LeftDown, 10, 30)), ExplorerClick::Nothing);
    assert_eq!(explorer_mouse(f, mouse(MouseKind::Moved, 10, 2)), ExplorerClick::Hover(Some(0)));
    assert_eq!(explorer_mouse(f, mouse(MouseKind::ScrollDown, 10, 2)), ExplorerClick::MoveBy(3));
    let unmerged = ExplorerFrame { merged: false, ..f };
    assert_eq!(explorer_mouse(unmerged, mouse(MouseKind::LeftDown, 4, 0)), ExplorerClick::Nothing);
    let folded = ExplorerFrame { collapsed: true, ..f };
    assert_eq!(explorer_mouse(folded, mouse(MouseKind::LeftDown, 4, 0)), ExplorerClick::Expand);
    assert_eq!(explorer_mouse(folded, mouse(MouseKind::Moved, 4, 0)), ExplorerClick::Nothing);
    let fresh = ExplorerFrame { activity: no_activity_zones(), ..f };
    assert_eq!(explorer_mouse(fresh, mouse(MouseKind::LeftDown, 0, 0)), ExplorerClick::Nothing);
}

#[test]
fn folders_toggle_on_chevron_or_double_click() {
    assert!(is_double_click(Some((2, 100)), 2));
    assert!(!is_double_click(Some((2, 450)), 2));
    assert!(!is_double_click(Some((1, 100)), 2));
    assert!(!is_double_click(None, 2));
    assert_eq!(row_action(true, true, false), RowAction::Toggle);
    assert_eq!(row_action(true, false, true), RowAction::Toggle);
    assert_eq!(row_action(true, false, false), RowAction::Nothing);
    assert_eq!(row_action(false, false, false), RowAction::Preview);
}

#[test]
fn scm_keys_depend_on_focus() {
    assert_eq!(scm_key(Focus::Message, key(Key::Enter), 5), ScmCmd::Commit);
    assert_eq!(scm_key(Focus::Message, key(Key::Tab), 5), ScmCmd::SetFocus(Focus::Commit));
    assert_eq!(scm_key(Focus::Message, key(Key::Char('q')), 5), ScmCmd::EditMessage);
    assert_eq!(scm_key(Focus::Commit, key(Key::Up), 5), ScmCmd::SetFocus(Focus::Message));
    assert_eq!(scm_key(Focus::Commit, key(Key::Char('x')), 5), ScmCmd::Nothing);
    assert_eq!(scm_key(Focus::List, key(Key::Char('q')), 5), ScmCmd::Quit);
    assert_eq!(scm_key(Focus::List, key(Key::PageDown), 5), ScmCmd::MoveBy(5));
    assert_eq!(scm_key(Focus::List, key(Key::Char('S')), 5), ScmCmd::SyncChanges);
    assert_eq!(scm_key(Focus::List, key(Key::Char('A')), 5), ScmCmd::SuggestMessage);
    assert_eq!(scm_key(Focus::List, key(Key::Char('1')), 5), ScmCmd::SwitchTo(View::Explorer));
}

fn zones() -> ClickZones {
    ClickZones {
        activity_row: 0,
        explorer: (1, 3),
        source_control: (4, 6),
        gear: rect(28, 0, 2, 1),
        message: rect(0, 2, 24, 3),
        sparkle: rect(24, 3, 2, 1),
        button: rect(0, 5, 30, 1),
        sync: rect(0, 0, 0, 0),
    }
}

#[test]
fn scm_clicks_hit_zones_before_rows() {
    let z = zones();
    let rows = vec![Row::StagedHeader(0), Row::Staged(0, 0), Row::ChangesHeader(0), Row::Unstaged(0, 0)];
    let body = ScmBody { top: 7, height: 20, offset: 0 };
    assert_eq!(zone_at(z, true, 2, 0), Some(Zone::Explorer));
    assert_eq!(zone_at(z, false, 2, 0), None);
    assert_eq!(zone_at(z, true, 25, 3), Some(Zone::Suggest), "sparkle wins over the message box");
    assert_eq!(zone_at(z, true, 3, 3), Some(Zone::Message));
    assert_eq!(left_click(z, true, &rows, body, 30, 10, 5), ScmClick::Zone(Zone::Commit));
    assert_eq!(left_click(z, true, &rows, body, 30, 10, 8), ScmClick::Row(RowClick::Select(1)));
    assert_eq!(left_click(z, true, &rows, body, 30, 10, 9), ScmClick::Row(RowClick::SelectAndActivate(2)));
    assert_eq!(left_click(z, true, &rows, body, 30, 10, 20), ScmClick::Nothing);
    assert_eq!(scm_mouse(z, true, &rows, body, 30, mouse(MouseKind::Moved, 1, 10)), ScmMouse::Hover(Some(3)));
    assert_eq!(scm_mouse(z, true, &rows, body, 30, mouse(MouseKind::ScrollUp, 1, 10)), ScmMouse::MoveBy(-3));
    assert_eq!(scm_mouse(z, true, &rows, body, 30, mouse(MouseKind::RightDown, 1, 10)), ScmMouse::ContextMenu(1, 10));
}

#[test]
fn scm_context_menu_and_discard_flow() {
    assert_eq!(context_menu(Row::StagedHeader(0), 1, 1), None);
    let mut ov = context_menu(Row::Unstaged(1, 4), 3, 9).unwrap();
    match &ov {
        ScmOverlay::Menu { target, entries, selected, .. } => {
            assert_eq!(*target, FileRef { repo: 1, file: 4, staged: false });
            assert_eq!(entries.len(), 7);
            assert_eq!(*selected, 0);
        }
        other => panic!("menu expected, got {other:?}"),
    }
    assert_eq!(scm_overlay_key(&mut ov, key(Key::Down), 2), ScmOverlayCmd::Nothing);
    match &ov {
        ScmOverlay::Menu { selected, .. } => assert_eq!(*selected, 1),
        other => panic!("menu expected, got {other:?}"),
    }
    assert_eq!(scm_overlay_key(&mut ov, key(Key::Enter), 2), ScmOverlayCmd::Activate);
    let mut confirm = ScmOverlay::ConfirmDiscard { repo: 1, file: 4 };
    assert_eq!(scm_overlay_key(&mut confirm, key(Key::Char('y')), 2), ScmOverlayCmd::DiscardConfirmed(1, 4));
    assert_eq!(scm_overlay_key(&mut confirm, key(Key::Char('n')), 2), ScmOverlayCmd::Close);
    assert_eq!(scm_overlay_mouse(&mut confirm, mouse(MouseKind::LeftDown, 0, 0), 2), ScmOverlayCmd::Nothing);
    let r = rect(0, 0, 30, 5);
    let mut settings = ScmOverlay::Settings { selected: 0, rect: r };
    assert_eq!(scm_overlay_mouse(&mut settings, mouse(MouseKind::LeftDown, 3, 2), 2), ScmOverlayCmd::ToggleSetting(1));
    assert_eq!(settings, ScmOverlay::Settings { selected: 1, rect: r });
    assert_eq!(scm_overlay_mouse(&mut settings, mouse(MouseKind::LeftDown, 40, 40), 2), ScmOverlayCmd::Close);
}

#[test]
fn context_menu_opens_on_first_action() {
    let ov = open_menu(7, 8, Some(("/w/src".to_string(), true)));
    match &ov {
        Overlay::Menu { x, y, target, entries, selected, rect } => {
            assert_eq!((*x, *y, *selected), (7, 8, 0));
            assert_eq!(target, &Some(("/w/src".to_string(), true)));
            assert_eq!(entries, &menu_entries(Some(true)));
            assert_eq!(*rect, Rect::default());
        }
        other => panic!("menu expected, got {other:?}"),
    }
    match open_menu(0, 0, None) {
        Overlay::Menu { entries, .. } => assert_eq!(entries, menu_entries(None)),
        other => panic!("menu expected, got {other:?}"),
    }
}

#[test]
fn sliver_is_a_single_theme_icon() {
    let material: Vec<String> = sliver_lines(IconTheme::Material).iter().map(|l| l.to_string()).collect();
    assert_eq!(material, ["", "\u{f07b}"]);
    let emoji: Vec<String> = sliver_lines(IconTheme::Emoji).iter().map(|l| l.to_string()).collect();
    assert_eq!(emoji, ["", "📁"]);
}

#[test]
fn footer_hints_add_view_switches_when_merged() {
    assert_eq!(explorer_hints(false).len(), 8);
    assert_eq!(explorer_hints(true)[8..], [("1", "files"), ("2", "git")]);
    assert_eq!(explorer_hints(false)[0], ("↑↓", "move"));
    assert_eq!(scm_hints(false).len(), 9);
    assert_eq!(scm_hints(true)[9..], [("1", "files"), ("2", "git")]);
    assert_eq!(scm_hints(false)[0], ("⏎", "stage"));
}

#[test]
fn footer_height_counts_wrapped_lines() {
    assert_eq!(footer_height(true, &vec![10, 10, 10], 20), 1);
    // Limit 20 - 3 = 17: "1 + 10" fits, "+ 2 + 10" does not.
    assert_eq!(footer_height(false, &vec![10, 10, 10], 20), 3);
    assert_eq!(footer_height(false, &vec![4, 4, 4], 20), 1);
    assert_eq!(footer_height(false, &vec![], 20), 1);
}

#[test]
fn prompts_submit_trimmed_valid_names_only() {
    assert_eq!(
        prompt_op(&PromptKind::NewFile("/w".to_string()), "  a.txt "),
        Some(PromptOp::CreateFile { dir: "/w".to_string(), name: "a.txt".to_string() })
    );
    assert_eq!(
        prompt_op(&PromptKind::Rename("/w/a".to_string()), "b"),
        Some(PromptOp::Rename { path: "/w/a".to_string(), name: "b".to_string() })
    );
    assert_eq!(prompt_op(&PromptKind::NewFolder("/w".to_string()), "x/y"), None);
    assert_eq!(prompt_op(&PromptKind::NewFolder("/w".to_string()), ".."), None);
    assert_eq!(prompt_op(&PromptKind::NewFolder("/w".to_string()), "   "), None);
}

#[test]
fn selection_follows_repos_and_files() {
    let rows = vec![
        Row::RepoHeader(0),
        Row::Unstaged(0, 2),
        Row::RepoHeader(1),
        Row::Staged(1, 0),
        Row::DrawerHeader(Drawer::Graph),
    ];
    assert_eq!(follow_selection(&rows, Some(1), 0, 2), Follow::TrackFile(FileRef { repo: 0, file: 2, staged: false }));
    assert_eq!(follow_selection(&rows, Some(3), 0, 2), Follow::SwitchRepo(1));
    assert_eq!(follow_selection(&rows, Some(3), 1, 2), Follow::TrackFile(FileRef { repo: 1, file: 0, staged: true }));
    assert_eq!(follow_selection(&rows, Some(3), 0, 1), Follow::Keep, "repository is gone");
    assert_eq!(follow_selection(&rows, Some(4), 0, 2), Follow::Keep);
    assert_eq!(follow_selection(&rows, Some(0), 0, 2), Follow::Keep);
    assert_eq!(follow_selection(&rows, None, 0, 2), Follow::Keep);
    assert_eq!(follow_selection(&rows, Some(9), 0, 2), Follow::Keep);
}

#[test]
fn activating_headers_folds_and_files_stage() {
    let mut repos = vec![Repo::new("a".to_string()), Repo::new("b".to_string())];
    let mut drawers = vec![DrawerState::default(); 7];
    assert_eq!(activate_row(&mut repos, &mut drawers, Row::StagedHeader(1)), Activation::Rebuild);
    assert!(repos[1].staged_collapsed && !repos[0].staged_collapsed && !repos[1].collapsed);
    assert_eq!(activate_row(&mut repos, &mut drawers, Row::RepoHeader(0)), Activation::Rebuild);
    assert!(repos[0].collapsed);
    assert_eq!(repos[0].name, "a");
    assert_eq!(activate_row(&mut repos, &mut drawers, Row::RepoHeader(5)), Activation::Nothing);
    assert_eq!(activate_row(&mut repos, &mut drawers, Row::DrawerHeader(Drawer::Commits)), Activation::ReloadDrawers);
    assert!(drawers[1].expanded && !drawers[0].expanded);
    assert_eq!(
        activate_row(&mut repos, &mut drawers, Row::Unstaged(0, 3)),
        Activation::Stage(FileRef { repo: 0, file: 3, staged: false })
    );
    assert_eq!(
        activate_row(&mut repos, &mut drawers, Row::Staged(1, 0)),
        Activation::Unstage(FileRef { repo: 1, file: 0, staged: true })
    );
    assert_eq!(activate_row(&mut repos, &mut drawers, Row::Message(0)), Activation::Nothing);
}
