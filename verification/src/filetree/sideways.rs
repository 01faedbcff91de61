//! Sideways text for the collapsed sliver: each letter is a 3×5 pixel
//! bitmap, rotated 90° counter-clockwise (reading bottom-to-top) and drawn
//! with sextant characters (2×3 pixels per cell), so a letter is exactly one
//! row of three cells.

use vstd::prelude::*;

use crate::text::{ascii_upper, char_from_u32, is_scalar, push_char, to_ascii_upper};

verus! {

/// The 3×5 bitmap of a letter, one number per row top-to-bottom: `4` is the
/// left pixel, `2` the middle one, `1` the right one.
pub open spec fn glyph_spec(c: char) -> Option<Seq<u8>> {
    let u = ascii_upper(c);
    if u == 'E' {
        Some(seq![7u8, 4, 7, 4, 7])
    } else if u == 'X' {
        Some(seq![5u8, 5, 2, 5, 5])
    } else if u == 'P' {
        Some(seq![7u8, 5, 7, 4, 4])
    } else if u == 'L' {
        Some(seq![4u8, 4, 4, 4, 7])
    } else if u == 'O' {
        Some(seq![7u8, 5, 5, 5, 7])
    } else if u == 'R' {
        Some(seq![7u8, 5, 6, 5, 5])
    } else {
        None
    }
}

/// The bitmap of a letter the sliver knows, `None` for any other character.
pub fn glyph(ch: char) -> (r: Option<[u8; 5]>)
    ensures
        match r {
            Some(rows) => glyph_spec(ch) == Some(rows@),
            None => glyph_spec(ch) is None,
        },
{
    let u = to_ascii_upper(ch);
    let rows: [u8; 5] = if u == 'E' {
        [7, 4, 7, 4, 7]
    } else if u == 'X' {
        [5, 5, 2, 5, 5]
    } else if u == 'P' {
        [7, 5, 7, 4, 4]
    } else if u == 'L' {
        [4, 4, 4, 4, 7]
    } else if u == 'O' {
        [7, 5, 5, 5, 7]
    } else if u == 'R' {
        [7, 5, 6, 5, 5]
    } else {
        return None;
    };
    assert(rows@ =~= glyph_spec(ch).unwrap());
    Some(rows)
}

/// The pixel at rotated row `y` (0..3) and rotated column `x` (0..5): the
/// glyph's row `x`, column `2 - y`. Columns past the bitmap are blank.
pub open spec fn rotated_pixel(rows: Seq<u8>, y: int, x: int) -> nat {
    if 0 <= x < 5 && 0 <= x < rows.len() && ((rows[x] as int) / if y == 0 {
        1int
    } else if y == 1 {
        2int
    } else {
        4int
    }) % 2 == 1 {
        1
    } else {
        0
    }
}

/// The 6-bit sextant pattern of cell `cx` (0..3): bit `2y + dx` is the
/// rotated pixel at row `y`, column `2cx + dx`.
pub open spec fn cell_bits(rows: Seq<u8>, cx: int) -> nat {
    rotated_pixel(rows, 0, 2 * cx) + 2 * rotated_pixel(rows, 0, 2 * cx + 1) + 4 * rotated_pixel(
        rows,
        1,
        2 * cx,
    ) + 8 * rotated_pixel(rows, 1, 2 * cx + 1) + 16 * rotated_pixel(rows, 2, 2 * cx) + 32
        * rotated_pixel(rows, 2, 2 * cx + 1)
}

/// The character for a 6-bit sextant pattern: blank, the three patterns
/// that Block Elements already encode, or the Symbols for Legacy Computing
/// sextant, whose block skips those patterns.
pub open spec fn sextant_spec(bits: u32) -> char {
    if bits == 0 {
        ' '
    } else if bits == 21 {
        '▌'
    } else if bits == 42 {
        '▐'
    } else if bits == 63 {
        '█'
    } else {
        let skipped: int = (if bits > 21 {
            1int
        } else {
            0int
        }) + (if bits > 42 {
            1int
        } else {
            0int
        });
        let u = (0x1FB00 + bits - 1 - skipped) as u32;
        if is_scalar(u) {
            u as char
        } else {
            ' '
        }
    }
}

/// Sextant character for a 6-bit (2 wide × 3 tall) pixel pattern.
pub fn sextant(bits: u32) -> (r: char)
    requires
        bits <= 0xFFFF_FFFF - 0x1FB00,
    ensures
        r == sextant_spec(bits),
{
    if bits == 0 {
        ' '
    } else if bits == 21 {
        '▌'
    } else if bits == 42 {
        '▐'
    } else if bits == 63 {
        '█'
    } else {
        let skipped: u32 = (if bits > 21 {
            1u32
        } else {
            0u32
        }) + (if bits > 42 {
            1u32
        } else {
            0u32
        });
        let u = 0x1FB00 + bits - 1 - skipped;
        match char_from_u32(u) {
            Some(c) => {
                proof {
                    vstd::utf8::char_u32_cast(c, u);
                }
                c
            },
            None => ' ',
        }
    }
}

/// Every pattern of six pixels maps to a blank, a half or full block, or a
/// sextant of the Legacy Computing block (U+1FB00..=U+1FB3B).
pub proof fn lemma_sextant_is_a_block(bits: u32)
    requires
        bits < 64,
    ensures
        sextant_spec(bits) == ' ' || sextant_spec(bits) == '▌' || sextant_spec(bits) == '▐'
            || sextant_spec(bits) == '█' || (0x1FB00 <= sextant_spec(bits) as u32 <= 0x1FB3B),
{
}

/// The three sextant cells of one rotated letter.
pub open spec fn letter_row(rows: Seq<u8>) -> Seq<char> {
    seq![
        sextant_spec(cell_bits(rows, 0) as u32),
        sextant_spec(cell_bits(rows, 1) as u32),
        sextant_spec(cell_bits(rows, 2) as u32),
    ]
}

/// One row per letter of `s` that has a glyph, last letter first (rotated
/// text reads bottom-to-top); characters without a glyph are skipped.
pub open spec fn letter_lines(s: Seq<char>) -> Seq<Seq<char>>
    decreases s.len(),
{
    if s.len() == 0 {
        Seq::empty()
    } else {
        let rest = letter_lines(s.drop_first());
        match glyph_spec(s[0]) {
            Some(rows) => rest.push(letter_row(rows)),
            None => rest,
        }
    }
}

/// The lines `lines(text, max_lines)` returns.
pub open spec fn lines_spec(text: Seq<char>, max_lines: nat) -> Seq<Seq<char>> {
    let all = letter_lines(text);
    if all.len() <= max_lines {
        all
    } else {
        all.take(max_lines as int)
    }
}

/// The lines of a suffix are a prefix of the lines of the whole text.
proof fn lemma_letter_lines_prefix(s: Seq<char>, j: int)
    requires
        0 <= j <= s.len(),
    ensures
        letter_lines(s.skip(j)).len() <= letter_lines(s).len(),
        letter_lines(s).take(letter_lines(s.skip(j)).len() as int) == letter_lines(s.skip(j)),
    decreases j,
{
    if j == 0 {
        assert(s.skip(0) =~= s);
        assert(letter_lines(s).take(letter_lines(s).len() as int) =~= letter_lines(s));
    } else {
        lemma_letter_lines_prefix(s, j - 1);
        assert(s.skip(j - 1).drop_first() =~= s.skip(j));
        let a = letter_lines(s.skip(j));
        let b = letter_lines(s.skip(j - 1));
        assert(b.take(a.len() as int) =~= a);
        assert(letter_lines(s).take(a.len() as int) =~= b.take(a.len() as int));
    }
}

/// The bit at rotated row `y`, column `x` of a bitmap, computed.
fn pixel(rows: &[u8; 5], y: usize, x: usize) -> (r: u32)
    requires
        y < 3,
    ensures
        r as nat == rotated_pixel(rows@, y as int, x as int),
{
    if x >= 5 {
        return 0;
    }
    let div: u8 = if y == 0 {
        1
    } else if y == 1 {
        2
    } else {
        4
    };
    if (rows[x] / div) % 2 == 1 {
        1
    } else {
        0
    }
}

/// The sextant row of one letter.
fn render_letter(rows: &[u8; 5]) -> (line: String)
    ensures
        line@ == letter_row(rows@),
{
    let mut line = String::new();
    let b0 = pixel(rows, 0, 0) + 2 * pixel(rows, 0, 1) + 4 * pixel(rows, 1, 0) + 8 * pixel(rows, 1, 1)
        + 16 * pixel(rows, 2, 0) + 32 * pixel(rows, 2, 1);
    let b1 = pixel(rows, 0, 2) + 2 * pixel(rows, 0, 3) + 4 * pixel(rows, 1, 2) + 8 * pixel(rows, 1, 3)
        + 16 * pixel(rows, 2, 2) + 32 * pixel(rows, 2, 3);
    let b2 = pixel(rows, 0, 4) + 2 * pixel(rows, 0, 5) + 4 * pixel(rows, 1, 4) + 8 * pixel(rows, 1, 5)
        + 16 * pixel(rows, 2, 4) + 32 * pixel(rows, 2, 5);
    push_char(&mut line, sextant(b0));
    push_char(&mut line, sextant(b1));
    push_char(&mut line, sextant(b2));
    assert(line@ =~= letter_row(rows@));
    line
}

/// `text`, rotated 90° counter-clockwise, one sextant row per letter (3 cells
/// wide), truncated to `max_lines`. Rotated-CCW text reads bottom-to-top, so
/// the LAST letter comes first (topmost).
pub fn lines(text: &str, max_lines: usize) -> (out: Vec<String>)
    ensures
        out@.len() == lines_spec(text@, max_lines as nat).len(),
        forall|i: int| 0 <= i < out@.len() ==> #[trigger] out@[i]@ == lines_spec(
            text@,
            max_lines as nat,
        )[i],
{
    let chars = crate::text::chars_of(text);
    let ghost s = text@;
    let mut out: Vec<String> = Vec::new();
    let mut j: usize = chars.len();
    assert(s.skip(s.len() as int) =~= Seq::<char>::empty());
    while j > 0
        invariant
            chars@ == s,
            j <= s.len(),
            out@.len() <= max_lines,
            out@.len() == letter_lines(s.skip(j as int)).len(),
            forall|i: int| 0 <= i < out@.len() ==> #[trigger] out@[i]@ == letter_lines(
                s.skip(j as int),
            )[i],
        ensures
            j == 0 || out@.len() >= max_lines,
            j <= s.len(),
            out@.len() == letter_lines(s.skip(j as int)).len(),
            forall|i: int| 0 <= i < out@.len() ==> #[trigger] out@[i]@ == letter_lines(
                s.skip(j as int),
            )[i],
        decreases j,
    {
        if out.len() >= max_lines {
            break;
        }
        let ch = chars[j - 1];
        assert(s.skip(j - 1).drop_first() =~= s.skip(j as int));
        assert(s.skip(j - 1)[0] == ch);
        match glyph(ch) {
            Some(rows) => {
                let line = render_letter(&rows);
                out.push(line);
            },
            None => {},
        }
        j -= 1;
    }
    proof {
        lemma_letter_lines_prefix(s, j as int);
        let all = letter_lines(s);
        let part = letter_lines(s.skip(j as int));
        if j == 0 {
            assert(s.skip(0) =~= s);
        }
        if part.len() < max_lines {
            assert(j == 0);
        }
        assert(forall|i: int| 0 <= i < out@.len() ==> lines_spec(s, max_lines as nat)[i] == part[i]);
    }
    out
}

/// The characters of `s` that have a glyph, last first: the order in which
/// the sliver shows them.
pub open spec fn shown_letters(s: Seq<char>) -> Seq<char>
    decreases s.len(),
{
    if s.len() == 0 {
        Seq::empty()
    } else {
        let rest = shown_letters(s.drop_first());
        if glyph_spec(s[0]) is Some {
            rest.push(s[0])
        } else {
            rest
        }
    }
}

/// The characters the sliver can draw.
pub open spec fn has_glyph() -> spec_fn(char) -> bool {
    |c: char| glyph_spec(c) is Some
}

/// The letters shown are the text read backwards, keeping the characters
/// that have a glyph.
proof fn lemma_shown_letters_reverse_filter(s: Seq<char>)
    ensures
        shown_letters(s) == s.reverse().filter(has_glyph()),
    decreases s.len(),
{
    reveal(Seq::filter);
    if s.len() > 0 {
        lemma_shown_letters_reverse_filter(s.drop_first());
        let r = s.reverse();
        let p = has_glyph();
        assert(r.len() == s.len());
        assert(r.drop_last() =~= s.drop_first().reverse());
        assert(r.last() == s[0]);
        assert(p(s[0]) == (glyph_spec(s[0]) is Some));
        assert(r.filter(p) == if p(r.last()) {
            r.drop_last().filter(p).push(r.last())
        } else {
            r.drop_last().filter(p)
        });
    } else {
        assert(s.reverse() =~= Seq::<char>::empty());
        assert(s.reverse().filter(has_glyph()) =~= Seq::<char>::empty());
    }
}

proof fn lemma_letter_lines_by_letter(s: Seq<char>)
    ensures
        letter_lines(s).len() == shown_letters(s).len(),
        forall|i: int|
            0 <= i < letter_lines(s).len() ==> (#[trigger] letter_lines(s)[i]).len() == 3
                && letter_lines(s)[i] == lines_spec(seq![shown_letters(s)[i]], 1)[0],
    decreases s.len(),
{
    if s.len() > 0 {
        lemma_letter_lines_by_letter(s.drop_first());
        let c = s[0];
        if let Some(rows) = glyph_spec(c) {
            let one = seq![c];
            assert(one.drop_first() =~= Seq::<char>::empty());
            assert(one[0] == c);
            assert(letter_lines(one.drop_first()) =~= Seq::<Seq<char>>::empty());
            assert(letter_lines(one) == letter_lines(one.drop_first()).push(letter_row(rows)));
            assert(letter_lines(one) =~= seq![letter_row(rows)]);
            assert(lines_spec(one, 1) == letter_lines(one));
        }
    }
}

/// The sliver's rows letter by letter: the letters are the text read
/// backwards, keeping the characters with a glyph; there are as many rows
/// as such letters (at most `max_lines`), and each row is the three-cell
/// row that letter alone renders to.
pub proof fn lemma_lines_are_letters(text: Seq<char>, max_lines: nat)
    ensures
        shown_letters(text) == text.reverse().filter(has_glyph()),
        lines_spec(text, max_lines).len() == (if shown_letters(text).len() <= max_lines {
            shown_letters(text).len()
        } else {
            max_lines
        }),
        forall|i: int|
            0 <= i < lines_spec(text, max_lines).len() ==> (#[trigger] lines_spec(text, max_lines)[i]).len()
                == 3 && lines_spec(text, max_lines)[i] == lines_spec(seq![shown_letters(text)[i]], 1)[0],
{
    lemma_shown_letters_reverse_filter(text);
    lemma_letter_lines_by_letter(text);
    assert forall|i: int| 0 <= i < lines_spec(text, max_lines).len() implies (#[trigger] lines_spec(
        text,
        max_lines,
    )[i]).len() == 3 && lines_spec(text, max_lines)[i] == lines_spec(seq![shown_letters(text)[i]], 1)[0] by {
        assert(lines_spec(text, max_lines)[i] == letter_lines(text)[i]);
    }
}

} // verus!
