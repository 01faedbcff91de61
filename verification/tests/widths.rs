use herdr_plugins::aa_sidebar::ui::hint_width;
use herdr_plugins::docview::file_preview;
use herdr_plugins::width::truncate_to;

#[test]
fn wide_characters_take_two_columns() {
    assert_eq!(truncate_to("日本語です".into(), 5), "日本…");
    assert_eq!(truncate_to("日本語です".into(), 10), "日本語です");
    assert_eq!(hint_width("日本", "x"), 8);
    assert_eq!(hint_width("q", "quit"), 8);
}

#[test]
fn invalid_utf8_previews_with_replacement_characters() {
    assert_eq!(file_preview(&[b'a', 0xff, b'b', b'\n', b'c']), vec!["a\u{fffd}b", "c"]);
}
