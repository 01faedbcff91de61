//! Display width of terminal text, as ratatui measures a span, and
//! cutting text down to a width budget.

use vstd::prelude::*;

use crate::text::{chars_of, push_char, string_of};

verus! {

/// The number of terminal columns `text` occupies when rendered as a ratatui
/// span (ratatui measures it with the `unicode-width` tables).
pub uninterp spec fn display_width(text: Seq<char>) -> usize;

/// `ratatui::text::Span::raw(text).width()`: the result is `display_width`
/// of the text; nothing more is stated of it.
#[verifier::external_body]
pub(crate) fn span_width(text: &str) -> (w: usize)
    ensures
        w == display_width(text@),
{
    ratatui::text::Span::raw(text).width()
}

/// How many leading characters of `s` survive a cut to `max` columns,
/// scanning from `j`: the first prefix that, with an ellipsis after it,
/// would no longer fit stops the scan.
pub open spec fn cut_from(s: Seq<char>, max: int, j: nat) -> nat
    decreases s.len() - j,
{
    if j >= s.len() {
        s.len()
    } else if display_width(s.take((j + 1) as int)) + 1 > max {
        j
    } else {
        cut_from(s, max, j + 1)
    }
}

/// `s` cut down to at most `max` display columns, ending in `…` when
/// trimmed; empty when even the ellipsis would not fit.
pub open spec fn truncate_spec(s: Seq<char>, max: int) -> Seq<char> {
    if display_width(s) <= max {
        s
    } else if max < 2 {
        Seq::empty()
    } else {
        s.take(cut_from(s, max, 0) as int).push('…')
    }
}

/// Cut `s` down to at most `max` display columns, ending in `…` when
/// trimmed. Empty when even the ellipsis wouldn't fit.
pub fn truncate_to(s: String, max: usize) -> (r: String)
    ensures
        r@ == truncate_spec(s@, max as int),
{
    if span_width(s.as_str()) <= max {
        return s;
    }
    if max < 2 {
        return String::new();
    }
    let v = chars_of(s.as_str());
    let mut out: Vec<char> = Vec::new();
    let mut j: usize = 0;
    let mut stopped = false;
    while j < v.len() && !stopped
        invariant
            0 <= j <= v.len(),
            v@ == s@,
            out@ == v@.take(j as int),
            stopped ==> cut_from(v@, max as int, 0) == j,
            !stopped ==> cut_from(v@, max as int, 0) == cut_from(v@, max as int, j as nat),
        decreases v.len() - j + (if stopped { 0int } else { 1int }),
    {
        let mut candidate = out.clone();
        candidate.push(v[j]);
        assert(candidate@ =~= v@.take(j + 1));
        let text = string_of(&candidate);
        let w = span_width(text.as_str());
        if w >= max {
            stopped = true;
        } else {
            out = candidate;
            j += 1;
        }
    }
    let mut r = string_of(&out);
    push_char(&mut r, '…');
    r
}

} // verus!
