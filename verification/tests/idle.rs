use herdr_plugins::aa_sidebar::scm::{field_start, inline_cursor};
use herdr_plugins::preview::{idle_step, refreshed_scroll, same_request, IdleAction, Request};

fn diff() -> Option<Request> {
    Some(Request::Diff { root: "/r".to_string(), rel: "a.rs".to_string(), kind: "worktree".to_string() })
}

#[test]
fn idle_polls_follow_the_control_file_and_refresh_diffs() {
    let file = Some(Request::File("/r/a.rs".to_string()));
    let step = idle_step(0, &file, &diff());
    assert_eq!((step.beat, step.heartbeat, step.action), (1, false, IdleAction::Load));
    assert_eq!(idle_step(3, &file, &None).action, IdleAction::Forget);
    assert_eq!(idle_step(7, &diff(), &diff()).action, IdleAction::Refresh);
    assert_eq!(idle_step(6, &diff(), &diff()).action, IdleAction::Stay);
    assert_eq!(idle_step(7, &file, &file.clone()).action, IdleAction::Stay);
    let beat = idle_step(19, &None, &None);
    assert!(beat.heartbeat);
    assert_eq!(beat.action, IdleAction::Stay);
    assert!(same_request(&diff(), &diff()));
    assert!(!same_request(&diff(), &file));
    let show = |p: Option<&str>| Some(Request::Show { root: "/r".into(), spec: "HEAD".into(), path: p.map(String::from) });
    assert!(same_request(&show(Some("x")), &show(Some("x"))));
    assert!(!same_request(&show(Some("x")), &show(None)));
}

#[test]
fn refresh_keeps_the_scroll_on_the_document() {
    assert_eq!(refreshed_scroll(5, 100), 5);
    assert_eq!(refreshed_scroll(50, 10), 9);
    assert_eq!(refreshed_scroll(3, 0), 0);
}

#[test]
fn the_inline_cursor_follows_the_scrolled_message() {
    assert_eq!(field_start(3, 25), 0);
    assert_eq!(field_start(40, 25), 16);
    assert_eq!(field_start(10, 0), 10);
    // Pane 30 wide: a 25-cell field; the box's middle line is one below its top.
    assert_eq!(inline_cursor(0, Some(5), 20, 3, 30), Some((4, 6)));
    assert_eq!(inline_cursor(0, Some(5), 20, 40, 30), Some((25, 6)));
    assert_eq!(inline_cursor(2, Some(19), 20, 0, 30), None);
    assert_eq!(inline_cursor(2, None, 20, 0, 30), None);
}

#[test]
fn a_clock_before_the_epoch_reads_as_zero() {
    assert_eq!(herdr_plugins::clock::seconds_or_zero(Some(1_700_000_000)), 1_700_000_000);
    assert_eq!(herdr_plugins::clock::seconds_or_zero(None), 0);
}

#[test]
fn huge_hint_widths_wrap_onto_lines_of_their_own() {
    let widths = vec![usize::MAX, 3, usize::MAX - 1, 4, 5];
    let lines = herdr_plugins::aa_sidebar::ui::pack_hints(&widths, 40, 0);
    assert_eq!(lines, vec![vec![0], vec![1], vec![2], vec![3, 4]]);
    assert_eq!(herdr_plugins::aa_sidebar::explorer::footer_height(false, &widths, 40), 4);
}
