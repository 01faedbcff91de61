use herdr_plugins::git_panel::icons::{extension_icon, icon_for, icon_for_lower, special_name};
use herdr_plugins::git_panel::panel::{
    after_commit, initial, letter_color, on_key, rebuild, rows, Effect, Focus, LetterColor, Row,
};
use herdr_plugins::keys::{Key, KeyPress};
use herdr_plugins::message::{commit_check, edit, CommitRefusal, MessageBox};
use herdr_plugins::width::truncate_to;

#[test]
fn special_names_beat_extensions() {
    assert_eq!(icon_for("Cargo.toml"), "📦");
    assert_eq!(icon_for("Cargo.lock"), "🔒");
    assert_eq!(icon_for("README.md"), "📖");
    assert_eq!(icon_for("Dockerfile"), "🐳");
    assert_eq!(icon_for(".gitignore"), "🙈");
    assert_eq!(icon_for(".env.local"), "🔑");
}

#[test]
fn extensions_are_case_insensitive() {
    assert_eq!(icon_for("MAIN.RS"), "🦀");
    assert_eq!(icon_for("photo.JPG"), "📷");
}

#[test]
fn unknown_and_extensionless_fall_back_to_page() {
    assert_eq!(icon_for("data.xyzq"), "📄");
    assert_eq!(icon_for("CNAME"), "📄");
}

#[test]
fn lower_case_names_map_without_lowering() {
    assert_eq!(icon_for_lower("archive.tar.gz"), "🧳");
    assert_eq!(special_name("license-mit"), Some("📜"));
    assert_eq!(special_name("main.rs"), None);
    assert_eq!(extension_icon("tsx"), "🔷");
    assert_eq!(extension_icon("RS"), "📄");
}

fn press(key: Key) -> KeyPress {
    KeyPress { key, ctrl: false }
}

#[test]
fn sections_fold_and_files_move_between_lists() {
    assert_eq!(
        rows(2, 1, false, false),
        vec![Row::StagedHeader, Row::Staged(0), Row::Staged(1), Row::ChangesHeader, Row::Unstaged(0)]
    );
    assert_eq!(rows(0, 1, false, true), vec![Row::ChangesHeader]);
    let mut s = initial();
    rebuild(&mut s, 2, 1);
    assert_eq!(s.selected, Some(0));
    // Enter on the Staged header folds it.
    assert_eq!(on_key(&mut s, press(Key::Enter), true, 2, 1), Effect::Redraw);
    assert!(s.staged_collapsed);
    // Now the rows are [Staged header, Changes header, Unstaged(0)].
    on_key(&mut s, press(Key::Down), true, 2, 1);
    on_key(&mut s, press(Key::Down), true, 2, 1);
    assert_eq!(s.selected, Some(2));
    assert_eq!(on_key(&mut s, press(Key::Char(' ')), true, 2, 1), Effect::Stage(0));
    assert_eq!(on_key(&mut s, press(Key::Char('a')), true, 2, 1), Effect::StageAll);
    assert_eq!(on_key(&mut s, press(Key::Char('u')), true, 2, 1), Effect::UnstageAll);
    assert_eq!(on_key(&mut s, press(Key::Esc), true, 2, 1), Effect::Quit);
}

#[test]
fn the_message_box_edits_and_commits() {
    let mut s = initial();
    assert_eq!(on_key(&mut s, press(Key::Char('c')), true, 1, 0), Effect::Redraw);
    assert_eq!(s.focus, Focus::Message);
    for c in " fix it ".chars() {
        on_key(&mut s, press(Key::Char(c)), true, 1, 0);
    }
    on_key(&mut s, press(Key::Backspace), true, 1, 0);
    on_key(&mut s, press(Key::Home), true, 1, 0);
    on_key(&mut s, press(Key::Delete), true, 1, 0);
    assert_eq!(s.message.text.iter().collect::<String>(), "fix it");
    assert_eq!(
        on_key(&mut s, press(Key::Enter), true, 1, 0),
        Effect::Commit("fix it".to_string())
    );
    after_commit(&mut s, Ok("[main abc123] fix it".to_string()));
    assert_eq!(s.focus, Focus::List);
    assert!(s.message.text.is_empty());
    assert_eq!(s.flash, Some(("[main abc123] fix it".to_string(), false)));
}

#[test]
fn commits_are_refused_without_a_message_or_staged_files() {
    let mut s = initial();
    s.focus = Focus::Commit;
    assert_eq!(on_key(&mut s, press(Key::Enter), true, 1, 0), Effect::Redraw);
    assert_eq!(s.focus, Focus::Message);
    assert_eq!(s.flash, Some(("Commit message is empty.".to_string(), true)));
    let text: Vec<char> = "msg".chars().collect();
    assert_eq!(commit_check(&text, 0), Err(CommitRefusal::NothingStaged));
    assert_eq!(commit_check(&text, 3), Ok("msg".to_string()));
    let mut m = MessageBox { text: "abc".chars().collect(), cursor: 3 };
    edit(&mut m, KeyPress { key: Key::Char('u'), ctrl: true });
    assert!(m.text.is_empty());
    assert_eq!(m.cursor, 0);
}

#[test]
fn status_letters_take_vs_code_colors() {
    assert_eq!(letter_color('M'), LetterColor::Modified);
    assert_eq!(letter_color('C'), LetterColor::Renamed);
    assert_eq!(letter_color('!'), LetterColor::Conflict);
    assert_eq!(letter_color('?'), LetterColor::Plain);
}

#[test]
fn truncation_keeps_width_budget() {
    assert_eq!(truncate_to("short".into(), 10), "short");
    let cut = truncate_to("averylongdirectoryname".into(), 8);
    assert!(cut.ends_with('…'));
    assert!(ratatui::text::Span::raw(cut.as_str()).width() <= 8);
    assert_eq!(truncate_to("abc".into(), 1), "");
}

#[test]
fn focus_moves_between_list_message_and_button() {
    let mut s = initial();
    on_key(&mut s, press(Key::Tab), true, 0, 3);
    assert_eq!(s.focus, Focus::Message);
    on_key(&mut s, press(Key::Down), true, 0, 3);
    assert_eq!(s.focus, Focus::Commit);
    on_key(&mut s, press(Key::Up), true, 0, 3);
    assert_eq!(s.focus, Focus::Message);
    on_key(&mut s, press(Key::BackTab), true, 0, 3);
    assert_eq!(s.focus, Focus::List);
    on_key(&mut s, press(Key::BackTab), true, 0, 3);
    assert_eq!(s.focus, Focus::Commit);
    assert_eq!(on_key(&mut s, press(Key::Char(' ')), false, 0, 3), Effect::Redraw);
    assert_eq!(s.flash, None, "no repository: nothing happens");
    on_key(&mut s, press(Key::Tab), true, 0, 3);
    assert_eq!(s.focus, Focus::List);
    on_key(&mut s, press(Key::End), true, 0, 3);
    assert_eq!(s.selected, Some(3));
    on_key(&mut s, press(Key::PageUp), true, 0, 3);
    assert_eq!(s.selected, Some(0));
}
