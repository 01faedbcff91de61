//! The single-line commit message input: editing keys, and the rule for
//! what may be committed.

use vstd::prelude::*;

use crate::keys::{Key, KeyPress};
use crate::text::{string_of, trim, trimmed};

verus! {

/// The text being typed and the cursor position within it.
pub struct MessageBox {
    pub text: Vec<char>,
    pub cursor: usize,
}

impl MessageBox {
    /// The cursor sits within the text (at most one past its end).
    pub open spec fn wf(&self) -> bool {
        self.cursor <= self.text.len()
    }

    pub fn new() -> (m: MessageBox)
        ensures
            m.text@ == Seq::<char>::empty(),
            m.cursor == 0,
            m.wf(),
    {
        MessageBox { text: Vec::new(), cursor: 0 }
    }
}

/// One editing key applied to `(text, cursor)`: Backspace and Delete remove
/// the character before or under the cursor, arrows/Home/End move it,
/// Ctrl+U clears, and any other character (without Control) is inserted at
/// the cursor.
pub open spec fn edit_spec(text: Seq<char>, cursor: nat, k: KeyPress) -> (Seq<char>, nat) {
    match k.key {
        Key::Backspace => if cursor > 0 {
            (text.remove(cursor - 1), (cursor - 1) as nat)
        } else {
            (text, cursor)
        },
        Key::Delete => if cursor < text.len() {
            (text.remove(cursor as int), cursor)
        } else {
            (text, cursor)
        },
        Key::Left => (text, if cursor > 0 {
            (cursor - 1) as nat
        } else {
            0
        }),
        Key::Right => (text, if cursor + 1 < text.len() {
            cursor + 1
        } else {
            text.len()
        }),
        Key::Home => (text, 0),
        Key::End => (text, text.len()),
        Key::Char(c) => if k.ctrl {
            if c == 'u' {
                (Seq::empty(), 0)
            } else {
                (text, cursor)
            }
        } else {
            (text.insert(cursor as int, c), cursor + 1)
        },
        _ => (text, cursor),
    }
}

/// Apply one editing key.
pub fn edit(m: &mut MessageBox, k: KeyPress)
    requires
        old(m).wf(),
    ensures
        final(m).wf(),
        (final(m).text@, final(m).cursor as nat) == edit_spec(old(m).text@, old(m).cursor as nat, k),
{
    match k.key {
        Key::Backspace => {
            if m.cursor > 0 {
                m.cursor -= 1;
                m.text.remove(m.cursor);
            }
        },
        Key::Delete => {
            if m.cursor < m.text.len() {
                m.text.remove(m.cursor);
            }
        },
        Key::Left => {
            if m.cursor > 0 {
                m.cursor -= 1;
            }
        },
        Key::Right => {
            if m.cursor < m.text.len() {
                m.cursor += 1;
            }
        },
        Key::Home => {
            m.cursor = 0;
        },
        Key::End => {
            m.cursor = m.text.len();
        },
        Key::Char(c) => {
            if k.ctrl {
                if c == 'u' {
                    m.text.clear();
                    m.cursor = 0;
                }
            } else {
                m.text.insert(m.cursor, c);
                let n = m.text.len();
                assert(m.cursor < n);
                m.cursor += 1;
            }
        },
        _ => {},
    }
}

/// A key pressed without Control.
pub open spec fn plain(k: Key) -> KeyPress {
    KeyPress { key: k, ctrl: false }
}

/// The cursor keys move the cursor and leave the text alone: Left and
/// Right step by one character (stopping at the ends), Home and End jump to
/// the ends. Left then Right comes back to where it started, and so does
/// typing a character then Backspace.
pub proof fn lemma_cursor_keys_move_by_one(text: Seq<char>, cursor: nat, c: char)
    requires
        cursor <= text.len(),
    ensures
        edit_spec(text, cursor, plain(Key::Left)).0 == text,
        edit_spec(text, cursor, plain(Key::Right)).0 == text,
        edit_spec(text, cursor, plain(Key::Home)) == (text, 0nat),
        edit_spec(text, cursor, plain(Key::End)) == (text, text.len()),
        cursor > 0 ==> edit_spec(text, cursor, plain(Key::Left)).1 == cursor - 1,
        cursor == 0 ==> edit_spec(text, cursor, plain(Key::Left)).1 == 0,
        cursor < text.len() ==> edit_spec(text, cursor, plain(Key::Right)).1 == cursor + 1,
        cursor == text.len() ==> edit_spec(text, cursor, plain(Key::Right)).1 == cursor,
        cursor > 0 ==> edit_spec(
            edit_spec(text, cursor, plain(Key::Left)).0,
            edit_spec(text, cursor, plain(Key::Left)).1,
            plain(Key::Right),
        ) == (text, cursor),
        edit_spec(text, cursor, plain(Key::Char(c))).0.len() == text.len() + 1,
        edit_spec(text, cursor, plain(Key::Char(c))).1 == cursor + 1,
        edit_spec(text, cursor, plain(Key::Char(c))).0[cursor as int] == c,
        edit_spec(
            edit_spec(text, cursor, plain(Key::Char(c))).0,
            edit_spec(text, cursor, plain(Key::Char(c))).1,
            plain(Key::Backspace),
        ) == (text, cursor),
{
    let t1 = text.insert(cursor as int, c);
    assert(t1.remove(cursor as int) =~= text);
}

/// Why a commit was refused before reaching git.
#[derive(Clone, Copy, PartialEq, Eq, Debug, Structural)]
pub enum CommitRefusal {
    /// The message is empty or only whitespace.
    EmptyMessage,
    /// Nothing is staged.
    NothingStaged,
}

/// The footer notice for a refusal.
pub open spec fn refusal_text_spec(r: CommitRefusal) -> Seq<char> {
    match r {
        CommitRefusal::EmptyMessage => "Commit message is empty."@,
        CommitRefusal::NothingStaged => "No staged changes to commit."@,
    }
}

pub fn refusal_text(r: CommitRefusal) -> (t: &'static str)
    ensures
        t@ == refusal_text_spec(r),
{
    match r {
        CommitRefusal::EmptyMessage => "Commit message is empty.",
        CommitRefusal::NothingStaged => "No staged changes to commit.",
    }
}

/// What may be committed: the trimmed message, when it is not blank and
/// something is staged (the message is checked first).
pub open spec fn commit_check_spec(text: Seq<char>, staged: nat) -> Result<Seq<char>, CommitRefusal> {
    if trim(text).len() == 0 {
        Err(CommitRefusal::EmptyMessage)
    } else if staged == 0 {
        Err(CommitRefusal::NothingStaged)
    } else {
        Ok(trim(text))
    }
}

pub fn commit_check(text: &Vec<char>, staged: usize) -> (r: Result<String, CommitRefusal>)
    ensures
        match r {
            Ok(m) => commit_check_spec(text@, staged as nat) == Ok::<Seq<char>, CommitRefusal>(m@),
            Err(e) => commit_check_spec(text@, staged as nat) == Err::<Seq<char>, CommitRefusal>(e),
        },
{
    let t = trimmed(text.as_slice());
    if t.len() == 0 {
        Err(CommitRefusal::EmptyMessage)
    } else if staged == 0 {
        Err(CommitRefusal::NothingStaged)
    } else {
        Ok(string_of(&t))
    }
}

/// A successful commit is never sent a blank message, and always has
/// something staged.
pub proof fn lemma_commit_needs_text_and_staging(text: Seq<char>, staged: nat)
    ensures
        commit_check_spec(text, staged) is Ok ==> trim(text).len() > 0 && staged > 0,
{
}

} // verus!
