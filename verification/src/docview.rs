//! The preview pane's document handling: turning a file's bytes into the
//! lines shown (with the binary, size and line-count guards), scrolling,
//! the line-number gutter, fitting the header's context text, and reading
//! git's output.

use vstd::prelude::*;

use crate::keys::{Key, MouseKind};
use crate::text::{
    chars_of, decimal, fields, is_char, lemma_fields_nonempty, push_char, push_chars, push_decimal,
    push_str, split_fields, string_of, trim, trimmed,
};

verus! {

/// Preview size guards: at most this many bytes are read into a pane...
pub const MAX_BYTES: usize = 1048576;

/// ...and at most this many lines shown.
pub const MAX_LINES: usize = 5000;

/// Bytes scanned for a NUL to call a file binary.
pub const BINARY_PROBE: usize = 8192;

// ---------------------------------------------------------------------------
// Lines
// ---------------------------------------------------------------------------

/// One trailing carriage return removed.
pub open spec fn strip_cr(s: Seq<char>) -> Seq<char> {
    if s.len() > 0 && s.last() == '\r' {
        s.drop_last()
    } else {
        s
    }
}

/// `str::lines`: the text split at `\n`, each line that a `\n` ends losing
/// one `\r` before it; no line after a final `\n`, and none at all in empty
/// text.
pub open spec fn lines_spec(text: Seq<char>) -> Seq<Seq<char>> {
    let parts = fields(text, is_char('\n'));
    let n = parts.len();
    let kept = if parts[n - 1].len() == 0 {
        (n - 1) as int
    } else {
        n as int
    };
    Seq::new(
        kept as nat,
        |i: int|
            if i < n - 1 {
                strip_cr(parts[i])
            } else {
                parts[i]
            },
    )
}

pub fn lines(text: &str) -> (r: Vec<String>)
    ensures
        r@.map_values(|s: String| s@) == lines_spec(text@),
{
    let v = chars_of(text);
    let parts = split_fields(&v, '\n');
    proof {
        lemma_fields_nonempty(v@, is_char('\n'));
    }
    let n = parts.len();
    let kept = if parts[n - 1].len() == 0 {
        n - 1
    } else {
        n
    };
    let mut out: Vec<String> = Vec::new();
    let mut i: usize = 0;
    while i < kept
        invariant
            0 <= i <= kept <= n,
            n == parts@.len(),
            n == fields(text@, is_char('\n')).len(),
            n >= 1,
            v@ == text@,
            kept as int == (if fields(text@, is_char('\n'))[n - 1].len() == 0 {
                n - 1
            } else {
                n as int
            }),
            forall|k: int| 0 <= k < n ==> #[trigger] parts@[k]@ == fields(text@, is_char('\n'))[k],
            out@.len() == i,
            forall|k: int| 0 <= k < i ==> #[trigger] out@[k]@ == lines_spec(text@)[k],
        decreases kept - i,
    {
        let part = &parts[i];
        let line = if i < n - 1 && part.len() > 0 && part[part.len() - 1] == '\r' {
            let s = crate::text::slice_range(part, 0, part.len() - 1);
            assert(s@ =~= part@.drop_last());
            string_of(&s)
        } else {
            string_of(part)
        };
        out.push(line);
        i += 1;
    }
    assert(out@.map_values(|s: String| s@) =~= lines_spec(text@));
    out
}

/// The lines a text file previews as: at most `MAX_LINES` of them, then a
/// truncation marker when the file was cut short (by size or by line
/// count); an empty file shows a placeholder.
pub open spec fn preview_lines_spec(text: Seq<char>, truncated: bool) -> Seq<Seq<char>> {
    let all = lines_spec(text);
    let shown = if all.len() > MAX_LINES {
        all.take(MAX_LINES as int)
    } else {
        all
    };
    let marked = if truncated || all.len() > MAX_LINES {
        shown.push("… (truncated)"@)
    } else {
        shown
    };
    if marked.len() == 0 {
        seq!["(empty file)"@]
    } else {
        marked
    }
}

pub fn preview_lines(text: &str, truncated: bool) -> (r: Vec<String>)
    ensures
        r@.map_values(|s: String| s@) == preview_lines_spec(text@, truncated),
{
    let all = lines(text);
    let total = all.len();
    let mut out = all;
    if total > MAX_LINES {
        out.truncate(MAX_LINES);
    }
    if truncated || total > MAX_LINES {
        out.push(String::from_str("… (truncated)"));
    }
    if out.len() == 0 {
        out.push(String::from_str("(empty file)"));
    }
    assert(out@.map_values(|s: String| s@) =~= preview_lines_spec(text@, truncated));
    out
}

/// The text `String::from_utf8_lossy` decodes from bytes (invalid UTF-8
/// becomes U+FFFD).
pub uninterp spec fn utf8_lossy(bytes: Seq<u8>) -> Seq<char>;

/// `String::from_utf8_lossy`: the result is `utf8_lossy` of the bytes;
/// nothing more is stated of it.
#[verifier::external_body]
fn from_utf8_lossy(bytes: &[u8]) -> (r: String)
    ensures
        r@ == utf8_lossy(bytes@),
{
    String::from_utf8_lossy(bytes).into_owned()
}

/// A file's bytes hold a NUL within the probed head.
pub open spec fn looks_binary(bytes: Seq<u8>) -> bool {
    exists|i: int| 0 <= i < bytes.len() && i < BINARY_PROBE && bytes[i] == 0
}

/// What a file previews as: a one-line note for a binary file, otherwise
/// the preview lines of its first `MAX_BYTES` bytes decoded leniently.
pub open spec fn file_preview_spec(bytes: Seq<u8>) -> Seq<Seq<char>> {
    if looks_binary(bytes) {
        seq!["(binary file — "@ + decimal(bytes.len()) + " bytes)"@]
    } else {
        let cut = if bytes.len() > MAX_BYTES {
            MAX_BYTES as int
        } else {
            bytes.len() as int
        };
        preview_lines_spec(utf8_lossy(bytes.take(cut)), bytes.len() > MAX_BYTES)
    }
}

pub fn file_preview(bytes: &[u8]) -> (r: Vec<String>)
    ensures
        r@.map_values(|s: String| s@) == file_preview_spec(bytes@),
{
    let probe = if bytes.len() < BINARY_PROBE {
        bytes.len()
    } else {
        BINARY_PROBE
    };
    let mut i: usize = 0;
    while i < probe
        invariant
            0 <= i <= probe <= bytes.len(),
            probe <= BINARY_PROBE,
            probe == bytes.len() || probe == BINARY_PROBE,
            forall|k: int| 0 <= k < i ==> bytes@[k] != 0,
        decreases probe - i,
    {
        if bytes[i] == 0 {
            let mut note = String::new();
            push_str(&mut note, "(binary file — ");
            push_decimal(&mut note, bytes.len() as u64);
            push_str(&mut note, " bytes)");
            let mut out: Vec<String> = Vec::new();
            out.push(note);
            assert(out@.map_values(|s: String| s@) =~= file_preview_spec(bytes@));
            return out;
        }
        i += 1;
    }
    assert(!looks_binary(bytes@));
    let cut = if bytes.len() > MAX_BYTES {
        MAX_BYTES
    } else {
        bytes.len()
    };
    let head = vstd::slice::slice_subrange(bytes, 0, cut);
    assert(head@ =~= bytes@.take(cut as int));
    let text = from_utf8_lossy(head);
    preview_lines(text.as_str(), bytes.len() > MAX_BYTES)
}

// ---------------------------------------------------------------------------
// Scrolling and layout
// ---------------------------------------------------------------------------

/// What a key or mouse event does to the preview: scroll, or close it.
pub open spec fn scroll_key_spec(scroll: nat, max: nat, page: nat, key: Key) -> Option<nat> {
    match key {
        Key::Esc | Key::Char('q') => None,
        Key::Up | Key::Char('k') => Some(if scroll >= 1 {
            (scroll - 1) as nat
        } else {
            0
        }),
        Key::Down | Key::Char('j') => Some(if scroll + 1 < max {
            scroll + 1
        } else {
            max
        }),
        Key::PageUp => Some(if scroll >= page {
            (scroll - page) as nat
        } else {
            0
        }),
        Key::PageDown => Some(if scroll + page < max {
            scroll + page
        } else {
            max
        }),
        Key::Home | Key::Char('g') => Some(0),
        Key::End | Key::Char('G') => Some(max),
        _ => Some(scroll),
    }
}

/// One key in the preview: the new scroll offset (`max` is the last line's
/// index), or `None` for close.
pub fn scroll_key(scroll: usize, max: usize, page: usize, key: Key) -> (r: Option<usize>)
    ensures
        match r {
            Some(s) => scroll_key_spec(scroll as nat, max as nat, page as nat, key) == Some(s as nat),
            None => scroll_key_spec(scroll as nat, max as nat, page as nat, key) is None,
        },
{
    match key {
        Key::Esc | Key::Char('q') => None,
        Key::Up | Key::Char('k') => Some(scroll.saturating_sub(1)),
        Key::Down | Key::Char('j') => Some(if scroll < max {
            scroll + 1
        } else {
            max
        }),
        Key::PageUp => Some(scroll.saturating_sub(page)),
        Key::PageDown => Some(if scroll < max && page < max - scroll {
            scroll + page
        } else {
            max
        }),
        Key::Home | Key::Char('g') => Some(0),
        Key::End | Key::Char('G') => Some(max),
        _ => Some(scroll),
    }
}

/// A mouse event in the preview: the wheel scrolls three lines; a left
/// click on the header row (the ✕) closes.
pub open spec fn scroll_mouse_spec(scroll: nat, max: nat, kind: MouseKind, row: u16) -> Option<nat> {
    match kind {
        MouseKind::ScrollUp => Some(if scroll >= 3 {
            (scroll - 3) as nat
        } else {
            0
        }),
        MouseKind::ScrollDown => Some(if scroll + 3 < max {
            scroll + 3
        } else {
            max
        }),
        MouseKind::LeftDown => if row == 0 {
            None
        } else {
            Some(scroll)
        },
        _ => Some(scroll),
    }
}

pub fn scroll_mouse(scroll: usize, max: usize, kind: MouseKind, row: u16) -> (r: Option<usize>)
    ensures
        match r {
            Some(s) => scroll_mouse_spec(scroll as nat, max as nat, kind, row) == Some(s as nat),
            None => scroll_mouse_spec(scroll as nat, max as nat, kind, row) is None,
        },
{
    match kind {
        MouseKind::ScrollUp => Some(scroll.saturating_sub(3)),
        MouseKind::ScrollDown => Some(if scroll < max && 3 < max - scroll {
            scroll + 3
        } else {
            max
        }),
        MouseKind::LeftDown => if row == 0 {
            None
        } else {
            Some(scroll)
        },
        _ => Some(scroll),
    }
}

/// The scroll offset a draw keeps: never past the point where the last
/// page is full.
pub open spec fn clamp_scroll_spec(scroll: nat, line_count: nat, body_height: nat) -> nat {
    let h = if body_height == 0 {
        1
    } else {
        body_height
    };
    let room = if line_count >= h {
        (line_count - h) as nat
    } else {
        0
    };
    if scroll < room {
        scroll
    } else {
        room
    }
}

pub fn clamp_scroll(scroll: usize, line_count: usize, body_height: u16) -> (r: usize)
    ensures
        r == clamp_scroll_spec(scroll as nat, line_count as nat, body_height as nat),
{
    let h: usize = if body_height == 0 {
        1
    } else {
        body_height as usize
    };
    let room = line_count.saturating_sub(h);
    if scroll < room {
        scroll
    } else {
        room
    }
}

/// The header's context text within `avail` columns: whole when it fits,
/// else an ellipsis and its last `avail - 1` characters.
pub open spec fn fit_tail_spec(context: Seq<char>, avail: nat) -> Seq<char> {
    if context.len() > avail {
        let keep = if avail >= 1 {
            (avail - 1) as nat
        } else {
            0
        };
        seq!['…'] + context.skip(context.len() - keep)
    } else {
        context
    }
}

pub fn fit_tail(context: &str, avail: usize) -> (r: String)
    ensures
        r@ == fit_tail_spec(context@, avail as nat),
{
    let v = chars_of(context);
    if v.len() > avail {
        let keep = avail.saturating_sub(1);
        let tail = crate::text::slice_from(&v, v.len() - keep);
        let mut out = String::new();
        push_char(&mut out, '…');
        push_chars(&mut out, &tail);
        out
    } else {
        string_of(&v)
    }
}

/// The gutter for line `n` (0-based) of a document of `count` lines: the
/// 1-based number right-aligned to the width of `count`, then a space.
pub open spec fn gutter_spec(n: nat, count: nat) -> Seq<char> {
    let digits = decimal(n + 1);
    let width = decimal(count).len();
    let pad = if width > digits.len() {
        (width - digits.len()) as nat
    } else {
        0
    };
    Seq::new(pad, |i: int| ' ') + digits + seq![' ']
}

pub fn gutter(n: usize, count: usize) -> (r: String)
    requires
        n < count,
    ensures
        r@ == gutter_spec(n as nat, count as nat),
{
    let mut digits = String::new();
    push_decimal(&mut digits, (n + 1) as u64);
    let mut width_s = String::new();
    push_decimal(&mut width_s, count as u64);
    let d = chars_of(digits.as_str());
    let w = chars_of(width_s.as_str());
    let pad = if w.len() > d.len() {
        w.len() - d.len()
    } else {
        0
    };
    let mut out = String::new();
    let mut i: usize = 0;
    while i < pad
        invariant
            0 <= i <= pad,
            out@ =~= Seq::new(i as nat, |k: int| ' '),
        decreases pad - i,
    {
        push_char(&mut out, ' ');
        i += 1;
        assert(out@ =~= Seq::new(i as nat, |k: int| ' '));
    }
    push_chars(&mut out, &d);
    push_char(&mut out, ' ');
    out
}

// ---------------------------------------------------------------------------
// git's output
// ---------------------------------------------------------------------------

/// What a finished git run shows: its output when there is any; else its
/// trimmed error text in parentheses; else the placeholder (`(no changes)`
/// for a diff, `(nothing to show)` for a show).
#[derive(Clone, Debug, PartialEq, Eq)]
pub enum GitShown {
    /// Render the standard output.
    Output,
    /// Show this one line.
    Note(String),
}

pub open spec fn git_shown_spec(stdout: Seq<char>, stderr: Seq<char>, placeholder: Seq<char>) -> Option<
    Seq<char>,
> {
    if trim(stdout).len() > 0 {
        None
    } else if trim(stderr).len() == 0 {
        Some(placeholder)
    } else {
        Some(seq!['('] + trim(stderr) + seq![')'])
    }
}

pub fn git_shown(stdout: &str, stderr: &str, placeholder: &str) -> (r: GitShown)
    ensures
        match r {
            GitShown::Output => git_shown_spec(stdout@, stderr@, placeholder@) is None,
            GitShown::Note(t) => git_shown_spec(stdout@, stderr@, placeholder@) == Some(t@),
        },
{
    let out = trimmed(&chars_of(stdout));
    if out.len() > 0 {
        return GitShown::Output;
    }
    let err = trimmed(&chars_of(stderr));
    if err.len() == 0 {
        return GitShown::Note(crate::text::owned(placeholder));
    }
    let mut note = String::new();
    push_char(&mut note, '(');
    push_chars(&mut note, &err);
    push_char(&mut note, ')');
    GitShown::Note(note)
}

/// The name of the diff the header shows.
pub open spec fn diff_what_spec(kind: Seq<char>) -> Seq<char> {
    if kind == "staged"@ {
        "staged"@
    } else if kind == "untracked"@ {
        "untracked"@
    } else {
        "working tree"@
    }
}

pub fn diff_what(kind: &str) -> (r: &'static str)
    ensures
        r@ == diff_what_spec(kind@),
{
    if crate::text::eq_strings(kind, "staged") {
        "staged"
    } else if crate::text::eq_strings(kind, "untracked") {
        "untracked"
    } else {
        "working tree"
    }
}

} // verus!
