//! The Source Control panel's state between events: which part has focus,
//! the commit message being typed, which sections are folded, and the
//! selected row. Keys change this state and name the git operation the
//! caller has to run.

use vstd::prelude::*;

use crate::keys::{Key, KeyPress};
use crate::message::{
    commit_check, commit_check_spec, edit, edit_spec, refusal_text, refusal_text_spec,
    CommitRefusal, MessageBox,
};
use crate::text::owned;
use crate::tree_nav::{clamp, move_by, move_spec, select, select_spec};

verus! {

#[derive(Clone, Copy, PartialEq, Eq, Debug, Structural)]
pub enum Focus {
    Message,
    Commit,
    List,
}

/// A list row.
#[derive(Clone, Copy, PartialEq, Eq, Debug, Structural)]
pub enum Row {
    StagedHeader,
    ChangesHeader,
    Staged(usize),
    Unstaged(usize),
}

/// The panel's rows: the Staged section only while something is staged,
/// then the Changes section, each with its files unless folded.
pub open spec fn rows_spec(staged: nat, unstaged: nat, staged_collapsed: bool, changes_collapsed: bool)
    -> Seq<Row> {
    let staged_part = if staged > 0 {
        seq![Row::StagedHeader] + if !staged_collapsed {
            Seq::new(staged, |i: int| Row::Staged(i as usize))
        } else {
            Seq::empty()
        }
    } else {
        Seq::empty()
    };
    let changes_part = seq![Row::ChangesHeader] + if !changes_collapsed {
        Seq::new(unstaged, |i: int| Row::Unstaged(i as usize))
    } else {
        Seq::empty()
    };
    staged_part + changes_part
}

pub fn rows(staged: usize, unstaged: usize, staged_collapsed: bool, changes_collapsed: bool) -> (r:
    Vec<Row>)
    ensures
        r@ == rows_spec(staged as nat, unstaged as nat, staged_collapsed, changes_collapsed),
{
    let mut r: Vec<Row> = Vec::new();
    if staged > 0 {
        r.push(Row::StagedHeader);
        if !staged_collapsed {
            let mut i: usize = 0;
            while i < staged
                invariant
                    0 <= i <= staged,
                    r@ == seq![Row::StagedHeader] + Seq::new(i as nat, |k: int| Row::Staged(k as usize)),
                decreases staged - i,
            {
                r.push(Row::Staged(i));
                i += 1;
                assert(r@ =~= seq![Row::StagedHeader] + Seq::new(i as nat, |k: int| Row::Staged(k as usize)));
            }
        }
    }
    let ghost head = r@;
    r.push(Row::ChangesHeader);
    if !changes_collapsed {
        let mut i: usize = 0;
        while i < unstaged
            invariant
                0 <= i <= unstaged,
                r@ == head + seq![Row::ChangesHeader] + Seq::new(i as nat, |k: int| Row::Unstaged(k as usize)),
            decreases unstaged - i,
        {
            r.push(Row::Unstaged(i));
            i += 1;
            assert(r@ =~= head + seq![Row::ChangesHeader] + Seq::new(
                i as nat,
                |k: int| Row::Unstaged(k as usize),
            ));
        }
    }
    let ghost expect = rows_spec(staged as nat, unstaged as nat, staged_collapsed, changes_collapsed);
    assert(r@ =~= expect);
    r
}

/// The panel state.
pub struct PanelState {
    pub focus: Focus,
    pub message: MessageBox,
    pub staged_collapsed: bool,
    pub changes_collapsed: bool,
    pub selected: Option<usize>,
    pub page: usize,
    /// One-shot footer notice (text, is_error), cleared by the next key.
    pub flash: Option<(String, bool)>,
}

impl PanelState {
    pub open spec fn wf(&self) -> bool {
        self.message.wf()
    }
}

/// The git work a key asks for.
#[derive(Clone, PartialEq, Eq, Debug)]
pub enum Effect {
    Redraw,
    Quit,
    /// Commit the staged changes with this (trimmed) message.
    Commit(String),
    /// Unstage the n-th staged file.
    Unstage(usize),
    /// Stage the n-th unstaged file.
    Stage(usize),
    StageAll,
    UnstageAll,
    /// Re-read git status.
    Refresh,
}

pub fn initial() -> (s: PanelState)
    ensures
        s.wf(),
        s.focus == Focus::List,
        s.message.text@.len() == 0,
        s.selected is None,
        s.flash is None,
        !s.staged_collapsed,
        !s.changes_collapsed,
        s.page == 20,
{
    PanelState {
        focus: Focus::List,
        message: MessageBox::new(),
        staged_collapsed: false,
        changes_collapsed: false,
        selected: None,
        page: 20,
        flash: None,
    }
}

/// The selection after the rows were rebuilt: the same index, kept on the
/// list (which always has the Changes header).
pub open spec fn reselect_spec(selected: Option<usize>, len: nat) -> Option<usize> {
    let i = match selected {
        Some(i) => i as int,
        None => 0,
    };
    Some(clamp(i, 0, len - 1) as usize)
}

/// Rebuild after the status or the folding changed.
pub fn rebuild(s: &mut PanelState, staged: usize, unstaged: usize) -> (r: Vec<Row>)
    ensures
        r@ == rows_spec(staged as nat, unstaged as nat, old(s).staged_collapsed, old(s).changes_collapsed),
        final(s).selected == reselect_spec(old(s).selected, r@.len()),
        final(s).focus == old(s).focus,
        final(s).message == old(s).message,
        final(s).staged_collapsed == old(s).staged_collapsed,
        final(s).changes_collapsed == old(s).changes_collapsed,
        final(s).page == old(s).page,
        final(s).flash == old(s).flash,
{
    let r = rows(staged, unstaged, s.staged_collapsed, s.changes_collapsed);
    assert(r@.len() > 0) by {
        assert(rows_spec(staged as nat, unstaged as nat, s.staged_collapsed, s.changes_collapsed).len()
            >= 1);
    }
    let i = match s.selected {
        Some(i) => i,
        None => 0,
    };
    let last = r.len() - 1;
    s.selected = Some(if i < last {
        i
    } else {
        last
    });
    r
}

/// The notice is an error reading `text`.
pub open spec fn error_notice(flash: Option<(String, bool)>, text: Seq<char>) -> bool {
    flash matches Some((t, true)) && t@ == text
}

/// The selected row, when the selection names one.
pub open spec fn row_at(rows: Seq<Row>, selected: Option<usize>) -> Option<Row> {
    match selected {
        Some(i) => if i < rows.len() {
            Some(rows[i as int])
        } else {
            None
        },
        None => None,
    }
}

/// A commit attempt from state `s` ending in `t` with effect `e`: with no
/// repository nothing happens; otherwise a message that passes the check
/// is handed to the caller to commit, an empty one moves the focus to the
/// message box with a notice, and one with nothing staged leaves a notice.
/// The message, the selection, the folding and the page stay as they were.
pub open spec fn commit_step(s: PanelState, t: PanelState, e: Effect, has_repo: bool, staged: nat) -> bool {
    &&& t.message == s.message
    &&& t.selected == s.selected
    &&& t.staged_collapsed == s.staged_collapsed
    &&& t.changes_collapsed == s.changes_collapsed
    &&& t.page == s.page
    &&& if !has_repo {
        e == Effect::Redraw && t.focus == s.focus && t.flash == s.flash
    } else {
        match commit_check_spec(s.message.text@, staged) {
            Ok(m) => (e matches Effect::Commit(c) && c@ == m) && t.focus == s.focus && t.flash == s.flash,
            Err(CommitRefusal::EmptyMessage) => e == Effect::Redraw && t.focus == Focus::Message
                && error_notice(t.flash, refusal_text_spec(CommitRefusal::EmptyMessage)),
            Err(CommitRefusal::NothingStaged) => e == Effect::Redraw && t.focus == s.focus && error_notice(
                t.flash,
                refusal_text_spec(CommitRefusal::NothingStaged),
            ),
        }
    }
}

/// `s` with the focus moved to `f`.
pub open spec fn focused_on(s: PanelState, f: Focus) -> PanelState {
    PanelState { focus: f, ..s }
}

/// `s` with the selection moved to `sel`.
pub open spec fn selecting(s: PanelState, sel: Option<usize>) -> PanelState {
    PanelState { selected: sel, ..s }
}

/// The rows `s` shows for the given status counts.
pub open spec fn rows_of(s: PanelState, staged: nat, unstaged: nat) -> Seq<Row> {
    rows_spec(staged, unstaged, s.staged_collapsed, s.changes_collapsed)
}

/// `s` after folding or unfolding a section (`staged` picks which): the
/// rows are rebuilt and the selection kept on them.
pub open spec fn folded(s: PanelState, which_staged: bool, staged: nat, unstaged: nat) -> PanelState {
    let t = if which_staged {
        PanelState { staged_collapsed: !s.staged_collapsed, ..s }
    } else {
        PanelState { changes_collapsed: !s.changes_collapsed, ..s }
    };
    selecting(t, reselect_spec(s.selected, rows_of(t, staged, unstaged).len()))
}

/// A key on the list: the state after it and the git work it asks for.
pub open spec fn list_key_spec(s: PanelState, k: KeyPress, staged: nat, unstaged: nat) -> (PanelState, Effect) {
    let rs = rows_of(s, staged, unstaged);
    let len = rs.len();
    match k.key {
        Key::Char('q') | Key::Esc => (s, Effect::Quit),
        Key::Tab | Key::Char('c') => (focused_on(s, Focus::Message), Effect::Redraw),
        Key::BackTab => (focused_on(s, Focus::Commit), Effect::Redraw),
        Key::Up | Key::Char('k') => (selecting(s, move_spec(s.selected, len, -1)), Effect::Redraw),
        Key::Down | Key::Char('j') => (selecting(s, move_spec(s.selected, len, 1)), Effect::Redraw),
        Key::PageUp => (selecting(s, move_spec(s.selected, len, -(s.page as int))), Effect::Redraw),
        Key::PageDown => (selecting(s, move_spec(s.selected, len, s.page as int)), Effect::Redraw),
        Key::Home | Key::Char('g') => (selecting(s, select_spec(s.selected, len, 0)), Effect::Redraw),
        Key::End | Key::Char('G') => (
            selecting(
                s,
                select_spec(
                    s.selected,
                    len,
                    if len == 0 {
                        0
                    } else {
                        len - 1
                    },
                ),
            ),
            Effect::Redraw,
        ),
        Key::Enter | Key::Char(' ') => match row_at(rs, s.selected) {
            Some(Row::Staged(f)) => (s, Effect::Unstage(f)),
            Some(Row::Unstaged(f)) => (s, Effect::Stage(f)),
            Some(Row::StagedHeader) => (folded(s, true, staged, unstaged), Effect::Redraw),
            Some(Row::ChangesHeader) => (folded(s, false, staged, unstaged), Effect::Redraw),
            None => (s, Effect::Redraw),
        },
        Key::Char('a') => (s, Effect::StageAll),
        Key::Char('u') => (s, Effect::UnstageAll),
        Key::Char('r') => (s, Effect::Refresh),
        _ => (s, Effect::Redraw),
    }
}

/// A key in the message box: Enter commits, Esc and Shift-Tab return to
/// the list, Tab and Down go to the commit button, and every other key
/// edits the message.
pub open spec fn message_key_step(s: PanelState, k: KeyPress, has_repo: bool, staged: nat, t: PanelState, e: Effect) -> bool {
    match k.key {
        Key::Enter => commit_step(s, t, e, has_repo, staged),
        Key::Esc | Key::BackTab => t == focused_on(s, Focus::List) && e == Effect::Redraw,
        Key::Tab | Key::Down => t == focused_on(s, Focus::Commit) && e == Effect::Redraw,
        _ => {
            &&& (t.message.text@, t.message.cursor as nat) == edit_spec(s.message.text@, s.message.cursor as nat, k)
            &&& t.focus == s.focus && t.selected == s.selected && t.page == s.page && t.flash == s.flash
            &&& t.staged_collapsed == s.staged_collapsed && t.changes_collapsed == s.changes_collapsed
            &&& e == Effect::Redraw
        },
    }
}

/// A key on the commit button: Enter and Space commit, Esc, Tab and Down
/// return to the list, Shift-Tab and Up go to the message box; other keys
/// do nothing.
pub open spec fn button_key_step(s: PanelState, k: KeyPress, has_repo: bool, staged: nat, t: PanelState, e: Effect) -> bool {
    match k.key {
        Key::Enter | Key::Char(' ') => commit_step(s, t, e, has_repo, staged),
        Key::Esc | Key::Tab | Key::Down => t == focused_on(s, Focus::List) && e == Effect::Redraw,
        Key::BackTab | Key::Up => t == focused_on(s, Focus::Message) && e == Effect::Redraw,
        _ => t == s && e == Effect::Redraw,
    }
}

/// One key by focus, from `s` (whose notice was already cleared) to `t`.
pub open spec fn key_step(
    s: PanelState,
    k: KeyPress,
    has_repo: bool,
    staged: nat,
    unstaged: nat,
    t: PanelState,
    e: Effect,
) -> bool {
    match s.focus {
        Focus::Message => message_key_step(s, k, has_repo, staged, t, e),
        Focus::Commit => button_key_step(s, k, has_repo, staged, t, e),
        Focus::List => (t, e) == list_key_spec(s, k, staged, unstaged),
    }
}

/// A commit attempt: refused ones leave a notice (and an empty message
/// sends the focus to the message box); otherwise the caller commits.
fn try_commit(s: &mut PanelState, has_repo: bool, staged: usize) -> (e: Effect)
    requires
        old(s).wf(),
    ensures
        final(s).wf(),
        commit_step(*old(s), *final(s), e, has_repo, staged as nat),
{
    if !has_repo {
        return Effect::Redraw;
    }
    match commit_check(&s.message.text, staged) {
        Ok(m) => Effect::Commit(m),
        Err(why) => {
            s.flash = Some((owned(refusal_text(why)), true));
            if why == CommitRefusal::EmptyMessage {
                s.focus = Focus::Message;
            }
            Effect::Redraw
        },
    }
}

/// What happened to the commit the caller ran: success clears the message
/// and returns to the list with the summary as a notice; a failure is
/// shown as an error notice.
pub fn after_commit(s: &mut PanelState, result: Result<String, String>)
    requires
        old(s).wf(),
    ensures
        final(s).wf(),
        match result {
            Ok(summary) => final(s).flash == Some((summary, false)) && final(s).message.text@.len() == 0
                && final(s).message.cursor == 0 && final(s).focus == Focus::List,
            Err(e) => final(s).flash == Some((e, true)) && final(s).message == old(s).message
                && final(s).focus == old(s).focus,
        },
        final(s).selected == old(s).selected,
{
    match result {
        Ok(summary) => {
            s.flash = Some((summary, false));
            s.message = MessageBox::new();
            s.focus = Focus::List;
        },
        Err(e) => {
            s.flash = Some((e, true));
        },
    }
}

/// One key press with the given status counts. The notice from the
/// previous action is cleared first.
pub fn on_key(s: &mut PanelState, k: KeyPress, has_repo: bool, staged: usize, unstaged: usize) -> (e:
    Effect)
    requires
        old(s).wf(),
        old(s).page <= isize::MAX,
    ensures
        final(s).wf(),
        key_step((PanelState { flash: None, ..*old(s) }), k, has_repo, staged as nat, unstaged as nat, *final(s), e),
{
    s.flash = None;
    match s.focus {
        Focus::Message => on_message_key(s, k, has_repo, staged),
        Focus::Commit => on_button_key(s, k, has_repo, staged),
        Focus::List => on_list_key(s, k, staged, unstaged),
    }
}

fn on_message_key(s: &mut PanelState, k: KeyPress, has_repo: bool, staged: usize) -> (e: Effect)
    requires
        old(s).wf(),
        old(s).focus == Focus::Message,
    ensures
        final(s).wf(),
        message_key_step(*old(s), k, has_repo, staged as nat, *final(s), e),
{
    match k.key {
        Key::Enter => try_commit(s, has_repo, staged),
        Key::Esc | Key::BackTab => {
            s.focus = Focus::List;
            Effect::Redraw
        },
        Key::Tab | Key::Down => {
            s.focus = Focus::Commit;
            Effect::Redraw
        },
        _ => {
            edit(&mut s.message, k);
            Effect::Redraw
        },
    }
}

fn on_button_key(s: &mut PanelState, k: KeyPress, has_repo: bool, staged: usize) -> (e: Effect)
    requires
        old(s).wf(),
        old(s).focus == Focus::Commit,
    ensures
        final(s).wf(),
        button_key_step(*old(s), k, has_repo, staged as nat, *final(s), e),
{
    match k.key {
        Key::Enter | Key::Char(' ') => try_commit(s, has_repo, staged),
        Key::Esc | Key::Tab | Key::Down => {
            s.focus = Focus::List;
            Effect::Redraw
        },
        Key::BackTab | Key::Up => {
            s.focus = Focus::Message;
            Effect::Redraw
        },
        _ => Effect::Redraw,
    }
}

fn on_list_key(s: &mut PanelState, k: KeyPress, staged: usize, unstaged: usize) -> (e: Effect)
    requires
        old(s).wf(),
        old(s).focus == Focus::List,
        old(s).page <= isize::MAX,
    ensures
        final(s).wf(),
        (*final(s), e) == list_key_spec(*old(s), k, staged as nat, unstaged as nat),
{
    let rs = rows(staged, unstaged, s.staged_collapsed, s.changes_collapsed);
    let len = rs.len();
    match k.key {
        Key::Char('q') | Key::Esc => Effect::Quit,
        Key::Tab | Key::Char('c') => {
            s.focus = Focus::Message;
            Effect::Redraw
        },
        Key::BackTab => {
            s.focus = Focus::Commit;
            Effect::Redraw
        },
        Key::Up | Key::Char('k') => {
            s.selected = move_by(s.selected, len, -1);
            Effect::Redraw
        },
        Key::Down | Key::Char('j') => {
            s.selected = move_by(s.selected, len, 1);
            Effect::Redraw
        },
        Key::PageUp => {
            s.selected = move_by(s.selected, len, -(s.page as isize));
            Effect::Redraw
        },
        Key::PageDown => {
            s.selected = move_by(s.selected, len, s.page as isize);
            Effect::Redraw
        },
        Key::Home | Key::Char('g') => {
            s.selected = select(s.selected, len, 0);
            Effect::Redraw
        },
        Key::End | Key::Char('G') => {
            let last = if len == 0 {
                0
            } else {
                len - 1
            };
            s.selected = select(s.selected, len, last);
            Effect::Redraw
        },
        Key::Enter | Key::Char(' ') => match s.selected {
            Some(i) => {
                if i < len {
                    match rs[i] {
                        Row::StagedHeader => {
                            s.staged_collapsed = !s.staged_collapsed;
                            rebuild(s, staged, unstaged);
                            Effect::Redraw
                        },
                        Row::ChangesHeader => {
                            s.changes_collapsed = !s.changes_collapsed;
                            rebuild(s, staged, unstaged);
                            Effect::Redraw
                        },
                        Row::Staged(f) => Effect::Unstage(f),
                        Row::Unstaged(f) => Effect::Stage(f),
                    }
                } else {
                    Effect::Redraw
                }
            },
            None => Effect::Redraw,
        },
        Key::Char('a') => Effect::StageAll,
        Key::Char('u') => Effect::UnstageAll,
        Key::Char('r') => Effect::Refresh,
        _ => Effect::Redraw,
    }
}

// ---------------------------------------------------------------------------
// Row text
// ---------------------------------------------------------------------------

/// VS Code's git decoration for a status letter.
#[derive(Clone, Copy, PartialEq, Eq, Debug, Structural)]
pub enum LetterColor {
    Modified,
    Untracked,
    Added,
    Renamed,
    Deleted,
    Conflict,
    Plain,
}

pub open spec fn letter_color_spec(letter: char) -> LetterColor {
    if letter == 'M' {
        LetterColor::Modified
    } else if letter == 'U' {
        LetterColor::Untracked
    } else if letter == 'A' {
        LetterColor::Added
    } else if letter == 'R' || letter == 'C' {
        LetterColor::Renamed
    } else if letter == 'D' {
        LetterColor::Deleted
    } else if letter == '!' {
        LetterColor::Conflict
    } else {
        LetterColor::Plain
    }
}

pub fn letter_color(letter: char) -> (c: LetterColor)
    ensures
        c == letter_color_spec(letter),
{
    match letter {
        'M' => LetterColor::Modified,
        'U' => LetterColor::Untracked,
        'A' => LetterColor::Added,
        'R' | 'C' => LetterColor::Renamed,
        'D' => LetterColor::Deleted,
        '!' => LetterColor::Conflict,
        _ => LetterColor::Plain,
    }
}

} // verus!
