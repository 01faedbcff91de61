use herdr_plugins::docview::{
    clamp_scroll, diff_what, file_preview, fit_tail, git_shown, gutter, lines, preview_lines,
    scroll_key, scroll_mouse, GitShown,
};
use herdr_plugins::keys::{Key, MouseKind};
use herdr_plugins::sidebar::actions::{
    already_exists, applescript_escape, fresh_path, menu_entries, picked_folder, validate_name,
    MenuAction, MenuEntry,
};
use herdr_plugins::sidebar::ensure::{ensure_step, mode_view, should_run, EnsureStep, Mode};
use herdr_plugins::sidebar::fontsetup::{
    install_finished, prompt_key, should_prompt, step_error, PromptStep, Screen,
};
use herdr_plugins::sidebar::state::{
    roots_path, state_base, state_dir, state_json, state_path, tree_path, State, View,
};
use herdr_plugins::sidebar::viewer::{
    control_id_of, control_path_for_pane, doc_key_for_diff, doc_key_for_file, doc_key_for_show,
    focus_preview_tab, parse_tab_label, tab_label,
};
use herdr_plugins::icons::IconTheme;

fn has(entries: &[MenuEntry], action: MenuAction) -> bool {
    entries.iter().any(|e| matches!(e, MenuEntry::Action(a, _) if *a == action))
}

#[test]
fn menu_shape_for_rows_and_root() {
    let row = menu_entries(Some(false));
    assert!(matches!(row[0], MenuEntry::Action(MenuAction::NewFile, _)));
    assert!(has(&row, MenuAction::Delete));
    let root = menu_entries(None);
    assert!(!has(&root, MenuAction::Rename));
    assert!(has(&root, MenuAction::Reveal));
}

#[test]
fn open_external_is_offered_for_files_only() {
    assert!(has(&menu_entries(Some(false)), MenuAction::OpenExternal), "file row");
    assert!(!has(&menu_entries(Some(true)), MenuAction::OpenExternal), "directory row");
    assert!(!has(&menu_entries(None), MenuAction::OpenExternal), "empty space");
    // Directories keep everything else they had.
    assert!(has(&menu_entries(Some(true)), MenuAction::Rename));
}

#[test]
fn name_validation_rejects_paths_and_blanks() {
    assert_eq!(validate_name("  notes.md "), Some("notes.md"));
    assert_eq!(validate_name(""), None);
    assert_eq!(validate_name("   "), None);
    assert_eq!(validate_name("a/b"), None);
    assert_eq!(validate_name("a\\b"), None);
    assert_eq!(validate_name("C:"), None);
    assert_eq!(validate_name(".."), None);
}

#[test]
fn applescript_literals_escape_quotes_and_backslashes() {
    assert_eq!(applescript_escape("/tmp/plain"), "/tmp/plain");
    assert_eq!(applescript_escape(r#"/tmp/a"b"#), r#"/tmp/a\"b"#);
    assert_eq!(applescript_escape(r"/tmp/a\b"), r"/tmp/a\\b");
    // Backslashes are doubled BEFORE quotes are escaped, so an escaped
    // quote never gets its own backslash re-escaped into a literal one.
    assert_eq!(applescript_escape(r#"/tmp/a\"b"#), r#"/tmp/a\\\"b"#);
}

#[test]
fn picked_folders_lose_the_trailing_slash_except_root() {
    assert_eq!(picked_folder("/Users/me/code/\n").as_deref(), Some("/Users/me/code"));
    assert_eq!(picked_folder("/\n").as_deref(), Some("/"));
    assert_eq!(picked_folder("  \n"), None);
    assert_eq!(fresh_path("/r/src", "a.txt"), "/r/src/a.txt");
    assert_eq!(already_exists("a.txt"), "a.txt already exists");
}

#[test]
fn control_files_are_addressed_by_the_preview_pane() {
    let scratch = "/tmp/herdr-sidebar-scratch";
    // The path is argv for the viewer, so it must key on something that
    // survives a tab move: the preview pane itself.
    assert_eq!(control_path_for_pane(scratch, "w4:p9"), control_path_for_pane(scratch, "w4:p9"));
    assert_ne!(control_path_for_pane(scratch, "w4:p9"), control_path_for_pane(scratch, "w4:pA"));
    assert!(
        control_path_for_pane(scratch, "w4:p9").contains("w4_p9"),
        "colons are not filename-safe"
    );
    assert_eq!(control_id_of("herdr-sidebar-preview-w4_p9.ctl").as_deref(), Some("w4_p9"));
    assert_eq!(control_id_of("other.ctl"), None);
}

#[test]
fn doc_keys_separate_a_file_from_its_diff_and_its_history() {
    let f = doc_key_for_file("/repo/src/main.rs");
    let d = doc_key_for_diff("/repo", "src/main.rs", "staged");
    let w = doc_key_for_diff("/repo", "src/main.rs", "worktree");
    let s = doc_key_for_show("/repo", "HEAD~1", Some("src/main.rs"));
    assert_eq!(f, "/repo/src/main.rs");
    assert_ne!(f, d, "a file and its diff need their own tabs");
    assert_ne!(d, w, "staged and worktree diffs are different documents");
    assert_ne!(d, s, "a diff and a git-show are different documents");
    assert!(d.starts_with("diff:"), "{d}");
    assert!(s.starts_with("show:"), "{s}");
}

#[test]
fn tab_labels_mark_the_ephemeral_tab_not_the_pinned_one() {
    // `*` warns "this one is about to be overwritten".
    assert_eq!(tab_label("/repo/src/main.rs", false), "*main.rs");
    assert_eq!(tab_label("/repo/src/main.rs", true), "main.rs");
    assert_eq!(parse_tab_label("*main.rs"), ("main.rs".to_string(), false));
    assert_eq!(parse_tab_label("main.rs"), ("main.rs".to_string(), true));
}

#[test]
fn focus_stays_in_the_sidebar_for_its_own_tab() {
    assert!(!focus_preview_tab("w1:t1", "w1:t1"));
    assert!(focus_preview_tab("w1:t2", "w1:t1"));
}

#[test]
fn settings_are_written_in_the_state_file_shape() {
    let s = State {
        merged: true,
        active: View::SourceControl,
        show_hotkeys: true,
        icons: Some(IconTheme::Emoji),
        font_prompt_done: true,
        auto_open: false,
    };
    assert_eq!(
        state_json(s),
        "{\"merged\":true,\"active\":\"source-control\",\"hotkeys\":true,\"font_prompt\":true,\"auto_open\":false,\"icons\":\"emoji\"}"
    );
    assert!(State::default().merged && State::default().auto_open);
}

#[test]
fn state_files_live_in_the_plugin_state_dir() {
    assert_eq!(state_dir(Some("/s"), Some("/b")).as_deref(), Some("/s"));
    assert_eq!(
        state_dir(Some(""), Some("/home/u/.local/state")).as_deref(),
        Some("/home/u/.local/state/herdr/plugins/herdr-sidebar")
    );
    assert_eq!(state_dir(None, None), None);
    assert_eq!(state_base(None, Some("/home/u")).as_deref(), Some("/home/u/.local/state"));
    assert_eq!(state_base(Some("/x"), Some("/home/u")).as_deref(), Some("/x"));
    assert_eq!(state_path("/s"), "/s/state.json");
    assert_eq!(tree_path("/s"), "/s/tree.json");
    assert_eq!(roots_path("/s"), "/s/roots.json");
}

#[test]
fn the_ensure_run_acts_on_the_decision() {
    assert_eq!(mode_view(Mode::Ensure), (false, View::Explorer));
    assert_eq!(mode_view(Mode::Toggle(View::SourceControl)), (true, View::SourceControl));
    assert!(should_run(true, false));
    assert!(!should_run(false, false));
    assert_eq!(ensure_step(true, "FOCUS w1:p2", true, false, true), EnsureStep::Focus("w1:p2".into()));
    assert_eq!(ensure_step(false, "FOCUS w1:p2", true, false, true), EnsureStep::Nothing);
    assert_eq!(
        ensure_step(true, "CLOSE w1:p2", true, false, true),
        EnsureStep::Close("w1:p2".into(), true)
    );
    assert_eq!(ensure_step(false, "REPLACE w1:p2", true, false, true), EnsureStep::Replace("w1:p2".into()));
    assert_eq!(ensure_step(true, "OPEN", true, true, false), EnsureStep::Open(false, true));
    assert_eq!(ensure_step(false, "OPEN", true, false, true), EnsureStep::Open(false, false));
    assert_eq!(ensure_step(false, "OPEN", true, true, true), EnsureStep::Nothing);
}

#[test]
fn the_font_prompt_runs_once() {
    assert!(should_prompt(None, false, false, false));
    assert!(!should_prompt(None, true, false, false));
    assert!(!should_prompt(Some("off"), false, false, false));
    assert!(should_prompt(Some("force"), true, true, true));
    assert_eq!(prompt_key(&Screen::Ask, Key::Char('Y')), PromptStep::Install);
    assert_eq!(prompt_key(&Screen::Ask, Key::Esc), PromptStep::Finish);
    assert_eq!(prompt_key(&Screen::Installing, Key::Enter), PromptStep::Stay);
    let (screen, icons) = install_finished(Ok(()), None);
    assert_eq!(screen, Screen::Done(Ok(())));
    assert_eq!(icons, Some(IconTheme::Material));
    let (_, icons) = install_finished(Err("x".into()), Some(IconTheme::Emoji));
    assert_eq!(icons, Some(IconTheme::Emoji));
    assert_eq!(step_error("curl", "  boom \nmore"), "curl failed: boom");
    assert_eq!(step_error("unzip", ""), "unzip failed: (no output)");
}

#[test]
fn previews_show_lines_and_guard_binaries() {
    assert_eq!(lines("a\r\nb\nc\r"), vec!["a", "b", "c\r"]);
    assert_eq!(lines("x\n"), vec!["x"]);
    assert!(lines("").is_empty());
    assert_eq!(preview_lines("", false), vec!["(empty file)"]);
    assert_eq!(preview_lines("one\ntwo", true), vec!["one", "two", "… (truncated)"]);
    assert_eq!(file_preview(b"ab\0cd"), vec!["(binary file — 5 bytes)"]);
    assert_eq!(file_preview(b"hi\nthere\n"), vec!["hi", "there"]);
    let many = "x\n".repeat(5001);
    let shown = preview_lines(&many, false);
    assert_eq!(shown.len(), 5001);
    assert_eq!(shown[5000], "… (truncated)");
}

#[test]
fn scrolling_stays_on_the_document() {
    assert_eq!(scroll_key(0, 10, 5, Key::Up), Some(0));
    assert_eq!(scroll_key(8, 10, 5, Key::PageDown), Some(10));
    assert_eq!(scroll_key(8, 10, 5, Key::PageUp), Some(3));
    assert_eq!(scroll_key(3, 10, 5, Key::End), Some(10));
    assert_eq!(scroll_key(3, 10, 5, Key::Char('q')), None);
    assert_eq!(scroll_mouse(9, 10, MouseKind::ScrollDown, 4), Some(10));
    assert_eq!(scroll_mouse(2, 10, MouseKind::ScrollUp, 4), Some(0));
    assert_eq!(scroll_mouse(2, 10, MouseKind::LeftDown, 0), None);
    assert_eq!(clamp_scroll(50, 60, 20), 40);
    assert_eq!(clamp_scroll(5, 3, 0), 2);
    assert_eq!(fit_tail("/very/long/path.rs", 8), "…path.rs");
    assert_eq!(fit_tail("short", 8), "short");
    assert_eq!(gutter(8, 120), "  9 ");
    assert_eq!(gutter(99, 100), "100 ");
}

#[test]
fn git_output_falls_back_to_its_error_or_a_placeholder() {
    assert_eq!(git_shown("diff --git a b\n", "", "(no changes)"), GitShown::Output);
    assert_eq!(git_shown("  \n", "", "(no changes)"), GitShown::Note("(no changes)".into()));
    assert_eq!(
        git_shown("", " fatal: bad revision \n", "(nothing to show)"),
        GitShown::Note("(fatal: bad revision)".into())
    );
    assert_eq!(diff_what("staged"), "staged");
    assert_eq!(diff_what("worktree"), "working tree");
}
