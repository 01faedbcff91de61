//! UI vocabulary both sidebar views share: hit tests for the collapse
//! button and clickable zones, the theme-matched glyphs, the footer hint
//! packing, and finding the other view's panes in the same tab.

use vstd::prelude::*;
use vstd::view::View as _;

use crate::aa_sidebar::state::{label_spec, plugin_id_spec, View};
use crate::icons::IconTheme;
use crate::panes::{has_token, opt_eq, opt_is, tab_of_pane, tab_of_pane_spec, token, ListedPane};
use crate::text::owned;
use crate::width::{display_width, span_width};

pub use crate::width::truncate_to;

verus! {

/// True when a click at pane-local (column, row) lands on the `«` collapse
/// button: the 3-cell region at the right end of the bottom line.
pub open spec fn hits_collapse_button_spec(column: u16, row: u16, pane_width: u16, pane_height: u16) -> bool {
    &&& row == (if pane_height >= 1 {
        pane_height - 1
    } else {
        0
    })
    &&& column >= (if pane_width >= 4 {
        pane_width - 4
    } else {
        0
    })
}

pub fn hits_collapse_button(column: u16, row: u16, pane_width: u16, pane_height: u16) -> (r: bool)
    ensures
        r == hits_collapse_button_spec(column, row, pane_width, pane_height),
{
    row == pane_height.saturating_sub(1) && column >= pane_width.saturating_sub(4)
}

/// Theme-matched activity-bar icons: (explorer, source control).
pub fn activity_icons(theme: IconTheme) -> (r: (&'static str, &'static str))
    ensures
        theme == IconTheme::Material ==> r.0@ == "\u{f07b}"@ && r.1@ == "\u{f126}"@,
        theme == IconTheme::Emoji ==> r.0@ == "📁"@ && r.1@ == "🔀"@,
{
    match theme {
        IconTheme::Material => ("\u{f07b}", "\u{f126}"),
        IconTheme::Emoji => ("📁", "🔀"),
    }
}

/// Theme-matched settings glyph.
pub fn gear_icon(theme: IconTheme) -> (r: &'static str)
    ensures
        theme == IconTheme::Material ==> r@ == "\u{f013}"@,
        theme == IconTheme::Emoji ==> r@ == "⚙"@,
{
    match theme {
        IconTheme::Material => "\u{f013}",
        IconTheme::Emoji => "⚙",
    }
}

/// The suggest button's sparkles, with a text-presentation fallback for
/// the emoji theme.
pub fn sparkle_icon(theme: IconTheme) -> (r: &'static str)
    ensures
        theme == IconTheme::Material ==> r@ == "\u{f0674}"@,
        theme == IconTheme::Emoji ==> r@ == "✧"@,
{
    match theme {
        IconTheme::Material => "\u{f0674}",
        IconTheme::Emoji => "✧",
    }
}

/// Theme-matched branch glyph for repo rows.
pub fn branch_icon(theme: IconTheme) -> (r: &'static str)
    ensures
        theme == IconTheme::Material ==> r@ == "\u{e725}"@,
        theme == IconTheme::Emoji ==> r@ == "⎇"@,
{
    match theme {
        IconTheme::Material => "\u{e725}",
        IconTheme::Emoji => "⎇",
    }
}

/// `x` lies in the half-open column range `start..end`.
pub fn within(x: u16, range: (u16, u16)) -> (r: bool)
    ensures
        r == (range.0 <= x < range.1),
{
    range.0 <= x && x < range.1
}

/// A screen rectangle.
#[derive(Clone, Copy, PartialEq, Eq, Debug, Default, Structural)]
pub struct Rect {
    pub x: u16,
    pub y: u16,
    pub width: u16,
    pub height: u16,
}

/// The cell (x, y) lies inside `rect`.
pub open spec fn hits_spec(rect: Rect, x: u16, y: u16) -> bool {
    rect.x <= x < rect.x + rect.width && rect.y <= y < rect.y + rect.height
}

pub fn hits(rect: Rect, x: u16, y: u16) -> (r: bool)
    ensures
        r == hits_spec(rect, x, y),
{
    x >= rect.x && (x as u32) < rect.x as u32 + rect.width as u32 && y >= rect.y && (y as u32)
        < rect.y as u32 + rect.height as u32
}

// ---------------------------------------------------------------------------
// Footer hints
// ---------------------------------------------------------------------------

/// Rendered width of one `key label` hint: the key's keycap (padded by a
/// cell on each side), a gap, then the label.
pub open spec fn hint_width_spec(key: Seq<char>, label: Seq<char>) -> int {
    display_width(key) + 2 + 1 + display_width(label)
}

pub fn hint_width(key: &str, label: &str) -> (r: usize)
    ensures
        r == (if hint_width_spec(key@, label@) <= usize::MAX {
            hint_width_spec(key@, label@)
        } else {
            usize::MAX as int
        }),
{
    span_width(key).saturating_add(3).saturating_add(span_width(label))
}

/// The packing state after some hints: the hint indices on each line, and
/// the columns the last line uses (one leading cell, then the chips with
/// two-cell gaps).
pub open spec fn pack_spec(ws: Seq<int>, limit: int) -> (Seq<Seq<int>>, int)
    decreases ws.len(),
{
    if ws.len() == 0 {
        (seq![Seq::<int>::empty()], 1)
    } else {
        let (lines, used) = pack_spec(ws.drop_last(), limit);
        let w = ws.last();
        let i = ws.len() - 1;
        let empty = lines.last().len() == 0;
        if !empty && used + 2 + w > limit {
            (lines.push(seq![i]), 1 + w)
        } else {
            (lines.update(lines.len() - 1, lines.last().push(i)), used + if empty {
                w
            } else {
                2 + w
            })
        }
    }
}

/// The columns available for chips: the pane width (at least 8) minus the
/// cells reserved on the last line.
pub open spec fn hint_limit(width: u16, reserve: u16) -> int {
    let w = if width < 8 {
        8
    } else {
        width as int
    };
    if w >= reserve {
        w - reserve
    } else {
        0
    }
}

/// Pack hint chips of the given widths into footer lines at `width`,
/// wrapping instead of clipping; `reserve` columns stay free for a corner
/// button. Each line lists the indices of its hints.
pub fn pack_hints(widths: &Vec<usize>, width: u16, reserve: u16) -> (r: Vec<Vec<usize>>)
    ensures
        r@.len() == pack_spec(widths@.map_values(|w: usize| w as int), hint_limit(width, reserve)).0.len(),
        forall|l: int| 0 <= l < r@.len() ==> (#[trigger] r@[l])@.map_values(|i: usize| i as int) == pack_spec(
            widths@.map_values(|w: usize| w as int),
            hint_limit(width, reserve),
        ).0[l],
{
    let w: u16 = if width < 8 {
        8
    } else {
        width
    };
    let limit: u16 = w.saturating_sub(reserve);
    let cap: u128 = limit as u128 + 1;
    let ghost ws = widths@.map_values(|x: usize| x as int);
    let mut lines: Vec<Vec<usize>> = Vec::new();
    lines.push(Vec::new());
    // The columns the last line uses, counted up to one past the limit:
    // beyond that every further chip starts a new line anyway.
    let mut used: u128 = 1;
    let mut i: usize = 0;
    proof {
        lemma_pack_used_positive(ws.take(0), limit as int);
    }
    while i < widths.len()
        invariant
            0 <= i <= widths.len(),
            ws == widths@.map_values(|x: usize| x as int),
            limit == hint_limit(width, reserve),
            cap == limit + 1,
            lines@.len() >= 1,
            lines@.len() == pack_spec(ws.take(i as int), limit as int).0.len(),
            forall|l: int| 0 <= l < lines@.len() ==> (#[trigger] lines@[l])@.map_values(
                |x: usize| x as int,
            ) == pack_spec(ws.take(i as int), limit as int).0[l],
            used as int == (if pack_spec(ws.take(i as int), limit as int).1 < cap {
                pack_spec(ws.take(i as int), limit as int).1
            } else {
                cap as int
            }),
        decreases widths.len() - i,
    {
        let ghost prev = pack_spec(ws.take(i as int), limit as int);
        assert(ws.take(i + 1).drop_last() =~= ws.take(i as int));
        assert(ws.take(i + 1).last() == widths@[i as int] as int);
        proof {
            lemma_pack_used_positive(ws.take(i as int), limit as int);
        }
        let wi = widths[i] as u128;
        let last = lines.len() - 1;
        let empty = lines[last].len() == 0;
        assert(empty == (prev.0.last().len() == 0)) by {
            assert(lines@[last as int]@.map_values(|x: usize| x as int) == prev.0[last as int]);
        }
        if !empty && used + 2 + wi > limit as u128 {
            let mut fresh: Vec<usize> = Vec::new();
            fresh.push(i);
            lines.push(fresh);
            let next_used = 1 + wi;
            used = if next_used < cap {
                next_used
            } else {
                cap
            };
            proof {
                let next = pack_spec(ws.take(i + 1), limit as int);
                assert(next.0 == prev.0.push(seq![i as int]));
                assert forall|l: int| 0 <= l < lines@.len() implies (#[trigger] lines@[l])@.map_values(
                    |x: usize| x as int,
                ) == next.0[l] by {
                    if l == last + 1 {
                        assert(lines@[l]@.map_values(|x: usize| x as int) =~= seq![i as int]);
                    }
                }
            }
        } else {
            let mut line = lines.pop().unwrap();
            line.push(i);
            lines.push(line);
            let next_used = used + if empty {
                wi
            } else {
                2 + wi
            };
            used = if next_used < cap {
                next_used
            } else {
                cap
            };
            proof {
                let next = pack_spec(ws.take(i + 1), limit as int);
                assert(next.0 == prev.0.update(prev.0.len() - 1, prev.0.last().push(i as int)));
                assert forall|l: int| 0 <= l < lines@.len() implies (#[trigger] lines@[l])@.map_values(
                    |x: usize| x as int,
                ) == next.0[l] by {
                    if l == last {
                        assert(lines@[l]@.map_values(|x: usize| x as int) =~= prev.0.last().push(
                            i as int,
                        ));
                    }
                }
            }
        }
        i += 1;
    }
    assert(ws.take(widths.len() as int) =~= ws);
    lines
}

/// Widths are never negative, so a line never uses less than its leading
/// cell.
proof fn lemma_pack_used_positive(ws: Seq<int>, limit: int)
    requires
        forall|i: int| 0 <= i < ws.len() ==> ws[i] >= 0,
    ensures
        pack_spec(ws, limit).1 >= 1,
    decreases ws.len(),
{
    if ws.len() > 0 {
        lemma_pack_used_positive(ws.drop_last(), limit);
    }
}

/// The columns a footer line of chips uses: one leading cell, then the
/// chips with two-cell gaps.
pub open spec fn line_width(ws: Seq<int>, line: Seq<int>) -> int
    decreases line.len(),
{
    if line.len() == 0 {
        1
    } else if line.len() == 1 {
        1 + ws[line[0]]
    } else {
        line_width(ws, line.drop_last()) + 2 + ws[line.last()]
    }
}

/// Every hint index of every line is below `n`.
pub open spec fn indices_below(lines: Seq<Seq<int>>, n: int) -> bool {
    forall|l: int, k: int| 0 <= l < lines.len() && 0 <= k < lines[l].len() ==> 0 <= #[trigger] lines[l][k] < n
}

proof fn lemma_line_width_extends(ws: Seq<int>, line: Seq<int>)
    requires
        ws.len() >= 1,
        forall|k: int| 0 <= k < line.len() ==> 0 <= #[trigger] line[k] < ws.len() - 1,
    ensures
        line_width(ws, line) == line_width(ws.drop_last(), line),
    decreases line.len(),
{
    if line.len() > 1 {
        lemma_line_width_extends(ws, line.drop_last());
    }
}

proof fn lemma_pack_facts(ws: Seq<int>, limit: int)
    ensures
        pack_spec(ws, limit).0.len() >= 1,
        pack_spec(ws, limit).1 == line_width(ws, pack_spec(ws, limit).0.last()),
        indices_below(pack_spec(ws, limit).0, ws.len() as int),
        pack_spec(ws, limit).0.flatten_alt() == Seq::new(ws.len(), |i: int| i),
        forall|l: int|
            0 <= l < pack_spec(ws, limit).0.len() && (#[trigger] pack_spec(ws, limit).0[l]).len() >= 2
                ==> line_width(ws, pack_spec(ws, limit).0[l]) <= limit,
        forall|l: int|
            0 <= l < pack_spec(ws, limit).0.len() ==> (#[trigger] pack_spec(ws, limit).0[l]).len() >= 1
                || ws.len() == 0,
    decreases ws.len(),
{
    let (lines, used) = pack_spec(ws, limit);
    if ws.len() == 0 {
        assert(lines == seq![Seq::<int>::empty()]);
        assert(lines.drop_last() =~= Seq::<Seq<int>>::empty());
        assert(lines.drop_last().flatten_alt() =~= Seq::<int>::empty());
        assert(lines.flatten_alt() == lines.drop_last().flatten_alt() + lines.last());
        assert(lines.flatten_alt() =~= Seq::new(0, |i: int| i));
    } else {
        let prev_ws = ws.drop_last();
        lemma_pack_facts(prev_ws, limit);
        let (prev, pused) = pack_spec(prev_ws, limit);
        let w = ws.last();
        let i = ws.len() - 1;
        let empty = prev.last().len() == 0;
        assert(Seq::new(prev_ws.len(), |j: int| j).push(i) =~= Seq::new(ws.len(), |j: int| j));
        assert forall|l: int| 0 <= l < prev.len() implies line_width(ws, #[trigger] prev[l])
            == line_width(prev_ws, prev[l]) by {
            assert forall|k: int| 0 <= k < prev[l].len() implies 0 <= #[trigger] prev[l][k] < ws.len() - 1 by {
                assert(0 <= prev[l][k] < prev_ws.len());
            }
            lemma_line_width_extends(ws, prev[l]);
        }
        if !empty && pused + 2 + w > limit {
            assert(lines == prev.push(seq![i]));
            assert(lines.drop_last() =~= prev);
            assert(line_width(ws, seq![i]) == 1 + w);
            assert forall|l: int| 0 <= l < lines.len() implies (#[trigger] lines[l]).len() >= 1
                || ws.len() == 0 by {
                if l < prev.len() {
                    assert(lines[l] == prev[l]);
                }
            }
            assert(indices_below(lines, ws.len() as int)) by {
                assert forall|l: int, k: int| 0 <= l < lines.len() && 0 <= k < lines[l].len() implies 0
                    <= #[trigger] lines[l][k] < ws.len() by {
                    if l < prev.len() {
                        assert(lines[l] == prev[l]);
                    }
                }
            }
        } else {
            let last = prev.last();
            let n = prev.len() - 1;
            assert(lines == prev.update(n, last.push(i)));
            assert(lines.drop_last() =~= prev.drop_last());
            assert(lines.last() == last.push(i));
            assert(last.push(i).drop_last() =~= last);
            if empty {
                assert(last =~= Seq::<int>::empty());
                assert(last.push(i) =~= seq![i]);
            } else {
                assert(line_width(ws, last.push(i)) == line_width(ws, last) + 2 + w);
            }
            assert(prev.flatten_alt() == prev.drop_last().flatten_alt() + last);
            assert(lines.flatten_alt() == lines.drop_last().flatten_alt() + lines.last());
            assert(lines.flatten_alt() =~= prev.flatten_alt().push(i));
            assert forall|l: int| 0 <= l < lines.len() implies (#[trigger] lines[l]).len() >= 1
                || ws.len() == 0 by {
                if l < n {
                    assert(lines[l] == prev[l]);
                }
            }
            assert(indices_below(lines, ws.len() as int)) by {
                assert forall|l: int, k: int| 0 <= l < lines.len() && 0 <= k < lines[l].len() implies 0
                    <= #[trigger] lines[l][k] < ws.len() by {
                    if l < n {
                        assert(lines[l] == prev[l]);
                    } else {
                        assert(lines[l] == last.push(i));
                        if k < last.len() {
                            assert(lines[l][k] == prev[n][k]);
                        }
                    }
                }
            }
            assert forall|l: int|
                0 <= l < lines.len() && (#[trigger] lines[l]).len() >= 2 implies line_width(ws, lines[l]) <= limit by {
                if l < n {
                    assert(lines[l] == prev[l]);
                }
            }
        }
    }
}

/// Wrapping loses no hint and keeps their order: the lines read one after
/// another list every hint once, in order. A line with two or more chips
/// fits the limit (a chip wider than the limit gets a line of its own), and
/// no line is empty unless there are no hints at all.
pub proof fn lemma_pack_keeps_every_hint(ws: Seq<int>, limit: int)
    ensures
        pack_spec(ws, limit).0.flatten() == Seq::new(ws.len(), |i: int| i),
        forall|l: int|
            0 <= l < pack_spec(ws, limit).0.len() && (#[trigger] pack_spec(ws, limit).0[l]).len() >= 2
                ==> line_width(ws, pack_spec(ws, limit).0[l]) <= limit,
        forall|l: int|
            0 <= l < pack_spec(ws, limit).0.len() ==> (#[trigger] pack_spec(ws, limit).0[l]).len() >= 1
                || ws.len() == 0,
{
    lemma_pack_facts(ws, limit);
    pack_spec(ws, limit).0.lemma_flatten_and_flatten_alt_are_equivalent();
}

// ---------------------------------------------------------------------------
// Sibling panes
// ---------------------------------------------------------------------------

/// A pane of the `other` view in tab `tab`, other than `my`: labelled with
/// the view's standalone label or carrying the view's plugin token.
pub open spec fn is_sibling(p: ListedPane, tab: Seq<char>, my: Seq<char>, other: View) -> bool {
    &&& opt_is(p.tab_id, tab)
    &&& !opt_is(p.pane_id, my)
    &&& (opt_is(p.label, label_spec(other)) || has_token(p, plugin_id_spec(other)))
    &&& p.pane_id is Some
}

/// The ids of the sibling panes among `ps`, in listing order.
pub open spec fn siblings_spec(ps: Seq<ListedPane>, tab: Seq<char>, my: Seq<char>, other: View) -> Seq<
    Seq<char>,
>
    decreases ps.len(),
{
    if ps.len() == 0 {
        Seq::empty()
    } else {
        siblings_spec(ps.drop_last(), tab, my, other) + if is_sibling(ps.last(), tab, my, other) {
            seq![ps.last().pane_id->0@]
        } else {
            Seq::empty()
        }
    }
}

/// Pane ids in the same tab as `my_pane_id` that belong to the `other`
/// view, from a parsed `pane.list` (none when it did not parse or does not
/// place the caller in a tab).
pub fn sibling_panes_of(panes: Option<&Vec<ListedPane>>, my_pane_id: &str, other: View) -> (r: Vec<
    String,
>)
    ensures
        r@.map_values(|s: String| s@) == match panes {
            Some(ps) => match tab_of_pane_spec(ps@, my_pane_id@) {
                Some(tab) => siblings_spec(ps@, tab, my_pane_id@, other),
                None => Seq::empty(),
            },
            None => Seq::empty(),
        },
{
    let mut out: Vec<String> = Vec::new();
    let ps = match panes {
        Some(ps) => ps,
        None => {
            assert(out@.map_values(|s: String| s@) =~= Seq::<Seq<char>>::empty());
            return out;
        },
    };
    let tab = match tab_of_pane(ps, my_pane_id) {
        Some(t) => t,
        None => {
            assert(out@.map_values(|s: String| s@) =~= Seq::<Seq<char>>::empty());
            return out;
        },
    };
    let label = other.label();
    let plugin = other.plugin_id();
    let mut i: usize = 0;
    while i < ps.len()
        invariant
            0 <= i <= ps.len(),
            panes == Some(ps),
            tab_of_pane_spec(ps@, my_pane_id@) == Some(tab@),
            label@ == label_spec(other),
            plugin@ == plugin_id_spec(other),
            out@.map_values(|s: String| s@) == siblings_spec(ps@.take(i as int), tab@, my_pane_id@, other),
        decreases ps.len() - i,
    {
        assert(ps@.take(i + 1).drop_last() =~= ps@.take(i as int));
        assert(ps@.take(i + 1).last() == ps@[i as int]);
        let p = &ps[i];
        let sibling = opt_eq(&p.tab_id, tab.as_str()) && !opt_eq(&p.pane_id, my_pane_id) && (opt_eq(
            &p.label,
            label,
        ) || token(p, plugin).is_some());
        let ghost before = out@;
        match &p.pane_id {
            Some(id) => {
                if sibling {
                    out.push(owned(id.as_str()));
                    assert(out@.map_values(|s: String| s@) =~= before.map_values(|s: String| s@)
                        + seq![id@]);
                } else {
                    assert(out@.map_values(|s: String| s@) =~= before.map_values(|s: String| s@));
                }
            },
            None => {
                assert(out@.map_values(|s: String| s@) =~= before.map_values(|s: String| s@));
            },
        }
        i += 1;
    }
    assert(ps@.take(ps.len() as int) =~= ps@);
    out
}

} // verus!
