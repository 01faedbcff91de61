//! The explorer pane's input handling: keys and clicks move the selection,
//! fold directories, and collapse the pane to a sliver (or expand it back),
//! which the caller carries out by resizing the pane through herdr.

use vstd::prelude::*;

use crate::icons::IconTheme;
use crate::keys::{Key, Mouse, MouseKind};
use crate::text::push_str;
use crate::tree_nav::{
    collapse_or_parent, collapse_or_parent_spec, expand_or_enter, expand_or_enter_spec, move_by,
    move_spec, select, select_spec, toggle, toggle_spec, at_depth, TreeAction, TreeRow,
};

verus! {

/// Below this pane width the explorer renders as the collapsed sliver.
pub const SLIVER_THRESHOLD: u16 = 14;

/// Width asked of herdr when collapsing.
pub const SLIVER_TARGET: u16 = 5;

/// Expanded width to restore when nothing better is known.
pub const DEFAULT_EXPANDED_WIDTH: u16 = 32;

/// The explorer's view state between events.
#[derive(Clone, Copy, PartialEq, Eq, Debug, Structural)]
pub struct PaneState {
    /// The selected row, if any.
    pub selected: Option<usize>,
    /// Pane width at the last draw.
    pub last_width: u16,
    /// PageUp/PageDown stride, from the last draw.
    pub page: usize,
    /// Width to restore on expand, remembered at collapse time.
    pub expanded_width: u16,
    /// Explicitly collapsed through the button or `b`.
    pub collapsed: bool,
    pub theme: IconTheme,
}

/// What the caller must do after an event.
#[derive(Clone, Copy, PartialEq, Eq, Debug, Structural)]
pub enum Effect {
    /// Redraw only.
    Redraw,
    /// Leave the event loop.
    Quit,
    /// Expand this directory row, then rebuild the rows.
    Expand(usize),
    /// Collapse this directory row, then rebuild the rows.
    Collapse(usize),
    /// Toggle this directory row, then rebuild the rows.
    Toggle(usize),
    /// Re-read the tree from disk, then rebuild the rows.
    Refresh,
    /// Flip whether dotfiles are shown, then rebuild the rows.
    ToggleHidden,
    /// Resize the pane from `current` to `target` columns.
    Resize(u16, u16),
}

/// The state of a freshly started explorer over `row_count` rows.
pub open spec fn initial_spec(row_count: nat, theme: IconTheme) -> PaneState {
    PaneState {
        selected: if row_count > 0 {
            Some(0)
        } else {
            None
        },
        last_width: DEFAULT_EXPANDED_WIDTH,
        page: 20,
        expanded_width: DEFAULT_EXPANDED_WIDTH,
        collapsed: false,
        theme,
    }
}

pub fn initial(row_count: usize, theme: IconTheme) -> (s: PaneState)
    ensures
        s == initial_spec(row_count as nat, theme),
{
    PaneState {
        selected: if row_count > 0 {
            Some(0)
        } else {
            None
        },
        last_width: DEFAULT_EXPANDED_WIDTH,
        page: 20,
        expanded_width: DEFAULT_EXPANDED_WIDTH,
        collapsed: false,
        theme,
    }
}

/// Collapsed by the button, or dragged down to a sliver by hand.
pub open spec fn is_collapsed(s: PaneState) -> bool {
    s.collapsed || s.last_width < SLIVER_THRESHOLD
}

pub fn collapsed(s: &PaneState) -> (r: bool)
    ensures
        r == is_collapsed(*s),
{
    s.collapsed || s.last_width < SLIVER_THRESHOLD
}

/// Collapse to the sliver, remembering the width to come back to.
pub open spec fn collapse_spec(s: PaneState) -> (PaneState, Effect) {
    if is_collapsed(s) {
        (s, Effect::Redraw)
    } else {
        (
            PaneState { expanded_width: s.last_width, collapsed: true, ..s },
            Effect::Resize(s.last_width, SLIVER_TARGET),
        )
    }
}

/// Expand from the sliver to the remembered width (at least the default).
pub open spec fn expand_spec(s: PaneState) -> (PaneState, Effect) {
    if !is_collapsed(s) {
        (s, Effect::Redraw)
    } else {
        (
            PaneState { collapsed: false, ..s },
            Effect::Resize(
                s.last_width,
                if s.expanded_width > DEFAULT_EXPANDED_WIDTH {
                    s.expanded_width
                } else {
                    DEFAULT_EXPANDED_WIDTH
                },
            ),
        )
    }
}

fn collapse(s: &mut PaneState) -> (e: Effect)
    ensures
        (*final(s), e) == collapse_spec(*old(s)),
{
    if collapsed(s) {
        return Effect::Redraw;
    }
    s.expanded_width = s.last_width;
    s.collapsed = true;
    Effect::Resize(s.last_width, SLIVER_TARGET)
}

fn expand(s: &mut PaneState) -> (e: Effect)
    ensures
        (*final(s), e) == expand_spec(*old(s)),
{
    if !collapsed(s) {
        return Effect::Redraw;
    }
    s.collapsed = false;
    let target = if s.expanded_width > DEFAULT_EXPANDED_WIDTH {
        s.expanded_width
    } else {
        DEFAULT_EXPANDED_WIDTH
    };
    Effect::Resize(s.last_width, target)
}

/// A tree action applied to the state: selections happen here, the rest is
/// handed to the caller.
pub open spec fn apply_spec(s: PaneState, a: TreeAction) -> (PaneState, Effect) {
    match a {
        TreeAction::Select(i) => (PaneState { selected: Some(i), ..s }, Effect::Redraw),
        TreeAction::Expand(i) => (s, Effect::Expand(i)),
        TreeAction::Collapse(i) => (s, Effect::Collapse(i)),
        TreeAction::Toggle(i) => (s, Effect::Toggle(i)),
        _ => (s, Effect::Redraw),
    }
}

fn apply(s: &mut PaneState, a: TreeAction) -> (e: Effect)
    ensures
        (*final(s), e) == apply_spec(*old(s), a),
{
    match a {
        TreeAction::Select(i) => {
            s.selected = Some(i);
            Effect::Redraw
        },
        TreeAction::Expand(i) => Effect::Expand(i),
        TreeAction::Collapse(i) => Effect::Collapse(i),
        TreeAction::Toggle(i) => Effect::Toggle(i),
        _ => Effect::Redraw,
    }
}

pub open spec fn with_selection(s: PaneState, sel: Option<usize>) -> (PaneState, Effect) {
    (PaneState { selected: sel, ..s }, Effect::Redraw)
}

/// One key press. In the sliver only `q` (quit) means anything; any other
/// key expands the pane.
pub open spec fn on_key_spec(s: PaneState, key: Key, rows: Seq<TreeRow>) -> (PaneState, Effect) {
    let len = rows.len();
    if is_collapsed(s) {
        if key == Key::Char('q') {
            (s, Effect::Quit)
        } else {
            expand_spec(s)
        }
    } else {
        match key {
            Key::Char('q') | Key::Esc => (s, Effect::Quit),
            Key::Up | Key::Char('k') => with_selection(s, move_spec(s.selected, len, -1)),
            Key::Down | Key::Char('j') => with_selection(s, move_spec(s.selected, len, 1)),
            Key::PageUp => with_selection(s, move_spec(s.selected, len, -(s.page as int))),
            Key::PageDown => with_selection(s, move_spec(s.selected, len, s.page as int)),
            Key::Home | Key::Char('g') => with_selection(s, select_spec(s.selected, len, 0)),
            Key::End | Key::Char('G') => with_selection(
                s,
                select_spec(
                    s.selected,
                    len,
                    if len == 0 {
                        0
                    } else {
                        len - 1
                    },
                ),
            ),
            Key::Right | Key::Char('l') => apply_spec(s, expand_or_enter_spec(rows, s.selected)),
            Key::Left | Key::Char('h') => apply_spec(s, collapse_or_parent_spec(rows, s.selected)),
            Key::Enter | Key::Char(' ') => apply_spec(s, toggle_spec(rows, s.selected)),
            Key::Char('r') => (s, Effect::Refresh),
            Key::Char('.') => (s, Effect::ToggleHidden),
            Key::Char('i') => (
                PaneState {
                    theme: match s.theme {
                        IconTheme::Material => IconTheme::Emoji,
                        IconTheme::Emoji => IconTheme::Material,
                    },
                    ..s
                },
                Effect::Redraw,
            ),
            Key::Char('b') => collapse_spec(s),
            _ => (s, Effect::Redraw),
        }
    }
}

pub fn on_key(s: &mut PaneState, key: Key, rows: &Vec<TreeRow>) -> (e: Effect)
    requires
        old(s).page <= isize::MAX,
    ensures
        (*final(s), e) == on_key_spec(*old(s), key, rows@),
{
    let len = rows.len();
    if collapsed(s) {
        if key == Key::Char('q') {
            return Effect::Quit;
        }
        return expand(s);
    }
    match key {
        Key::Char('q') | Key::Esc => Effect::Quit,
        Key::Up | Key::Char('k') => {
            s.selected = move_by(s.selected, len, -1);
            Effect::Redraw
        },
        Key::Down | Key::Char('j') => {
            s.selected = move_by(s.selected, len, 1);
            Effect::Redraw
        },
        Key::PageUp => {
            s.selected = move_by(s.selected, len, -(s.page as isize));
            Effect::Redraw
        },
        Key::PageDown => {
            s.selected = move_by(s.selected, len, s.page as isize);
            Effect::Redraw
        },
        Key::Home | Key::Char('g') => {
            s.selected = select(s.selected, len, 0);
            Effect::Redraw
        },
        Key::End | Key::Char('G') => {
            let last = if len == 0 {
                0
            } else {
                len - 1
            };
            s.selected = select(s.selected, len, last);
            Effect::Redraw
        },
        Key::Right | Key::Char('l') => {
            let a = expand_or_enter(rows, s.selected);
            apply(s, a)
        },
        Key::Left | Key::Char('h') => {
            let a = collapse_or_parent(rows, s.selected);
            apply(s, a)
        },
        Key::Enter | Key::Char(' ') => {
            let a = toggle(rows, s.selected);
            apply(s, a)
        },
        Key::Char('r') => Effect::Refresh,
        Key::Char('.') => Effect::ToggleHidden,
        Key::Char('i') => {
            s.theme = s.theme.toggled();
            Effect::Redraw
        },
        Key::Char('b') => collapse(s),
        _ => Effect::Redraw,
    }
}

/// True when a click at pane-local (column, row) lands on the `«` button:
/// the 3-cell region at the right end of the header line (row 1, inside the
/// border).
pub open spec fn hits_collapse_button_spec(column: u16, row: u16, pane_width: u16) -> bool {
    row == 1 && column >= (if pane_width >= 4 {
        pane_width - 4
    } else {
        0
    })
}

pub fn hits_collapse_button(column: u16, row: u16, pane_width: u16) -> (r: bool)
    ensures
        r == hits_collapse_button_spec(column, row, pane_width),
{
    row == 1 && column >= pane_width.saturating_sub(4)
}

/// A mouse event: only left clicks act. In the sliver any click expands;
/// otherwise a click on the `«` button collapses.
pub open spec fn on_mouse_spec(s: PaneState, m: Mouse) -> (PaneState, Effect) {
    if m.kind != MouseKind::LeftDown {
        (s, Effect::Redraw)
    } else if is_collapsed(s) {
        expand_spec(s)
    } else if hits_collapse_button_spec(m.column, m.row, s.last_width) {
        collapse_spec(s)
    } else {
        (s, Effect::Redraw)
    }
}

pub fn on_mouse(s: &mut PaneState, m: Mouse) -> (e: Effect)
    ensures
        (*final(s), e) == on_mouse_spec(*old(s), m),
{
    if m.kind != MouseKind::LeftDown {
        Effect::Redraw
    } else if collapsed(s) {
        expand(s)
    } else if hits_collapse_button(m.column, m.row, s.last_width) {
        collapse(s)
    } else {
        Effect::Redraw
    }
}

/// The page stride for a list body `body_height` rows tall.
pub open spec fn page_for(body_height: u16) -> usize {
    if body_height >= 2 {
        (body_height - 1) as usize
    } else {
        1
    }
}

/// What a draw learns: the pane width and, when expanded, the body height.
pub fn note_frame(s: &mut PaneState, width: u16, body_height: Option<u16>)
    ensures
        final(s).last_width == width,
        final(s).page == match body_height {
            Some(h) => page_for(h),
            None => old(s).page,
        },
        final(s).selected == old(s).selected,
        final(s).expanded_width == old(s).expanded_width,
        final(s).collapsed == old(s).collapsed,
        final(s).theme == old(s).theme,
{
    s.last_width = width;
    if let Some(h) = body_height {
        s.page = if h >= 2 {
            (h - 1) as usize
        } else {
            1
        };
    }
}

/// Collapsing and then expanding leaves the pane expanded again, asking for
/// at least the width it had before (never less than the default).
pub proof fn lemma_collapse_then_expand(s: PaneState)
    requires
        !is_collapsed(s),
    ensures
        is_collapsed(collapse_spec(s).0),
        !is_collapsed(expand_spec(collapse_spec(s).0).0) || collapse_spec(s).0.last_width
            < SLIVER_THRESHOLD,
        expand_spec(collapse_spec(s).0).1 matches Effect::Resize(_, target) && target >= s.last_width
            && target >= DEFAULT_EXPANDED_WIDTH,
{
}

/// Keys never move the selection off the rows: after any key on a
/// non-empty list the selection names a row, given it did before.
pub proof fn lemma_key_keeps_selection_in_rows(s: PaneState, key: Key, rows: Seq<TreeRow>)
    requires
        rows.len() > 0,
        rows.len() <= usize::MAX,
        s.selected matches Some(i) && i < rows.len(),
    ensures
        on_key_spec(s, key, rows).0.selected matches Some(i) && i < rows.len(),
{
    let i = s.selected.unwrap() as int;
    if !rows[i].is_dir || !rows[i].expanded {
        if rows[i].depth > 0 {
            crate::seqs::lemma_last_where(rows.take(i), at_depth(rows[i].depth - 1));
        }
    }
}

// ---------------------------------------------------------------------------
// Row and sliver text
// ---------------------------------------------------------------------------

/// The disclosure arrow: `▾ ` for an expanded directory, `▸ ` for a
/// collapsed one, two spaces for a file.
pub open spec fn arrow_spec(is_dir: bool, expanded: bool) -> Seq<char> {
    if is_dir {
        if expanded {
            "▾ "@
        } else {
            "▸ "@
        }
    } else {
        "  "@
    }
}

/// A row's lead-in: two spaces per level of depth, then the arrow.
pub open spec fn row_prefix_spec(depth: nat, is_dir: bool, expanded: bool) -> Seq<char> {
    Seq::new(2 * depth, |i: int| ' ') + arrow_spec(is_dir, expanded)
}

pub fn row_prefix(depth: usize, is_dir: bool, expanded: bool) -> (r: String)
    ensures
        r@ == row_prefix_spec(depth as nat, is_dir, expanded),
{
    let mut out = String::new();
    let mut i: usize = 0;
    while i < depth
        invariant
            0 <= i <= depth,
            out@ =~= Seq::new(2 * i as nat, |k: int| ' '),
        decreases depth - i,
    {
        push_str(&mut out, "  ");
        proof {
            reveal_strlit("  ");
        }
        i += 1;
        assert(out@ =~= Seq::new(2 * i as nat, |k: int| ' '));
    }
    let arrow = if is_dir {
        if expanded {
            "▾ "
        } else {
            "▸ "
        }
    } else {
        "  "
    };
    push_str(&mut out, arrow);
    out
}

/// The sliver's lines for a pane `height` rows tall: the `»` expand button,
/// a blank line, then E X P L O R E R one letter per line, cut off so the
/// whole never exceeds the pane.
pub open spec fn sliver_lines_spec(height: nat) -> Seq<Seq<char>> {
    let word = "EXPLORER"@;
    let n = if height <= 2 {
        0
    } else if height - 2 < word.len() {
        (height - 2) as int
    } else {
        word.len() as int
    };
    seq!["»"@, ""@] + Seq::new(n as nat, |i: int| seq![word[i]])
}

pub fn sliver_lines(height: usize) -> (r: Vec<String>)
    ensures
        r@.map_values(|s: String| s@) == sliver_lines_spec(height as nat),
{
    let mut lines: Vec<String> = Vec::new();
    lines.push(String::from_str("»"));
    lines.push(String::new());
    let word = crate::text::chars_of("EXPLORER");
    proof {
        reveal_strlit("EXPLORER");
        reveal_strlit("");
    }
    let room = if height > 2 {
        height - 2
    } else {
        0
    };
    let n = if room < word.len() {
        room
    } else {
        word.len()
    };
    let mut i: usize = 0;
    while i < n
        invariant
            0 <= i <= n <= word.len(),
            word@ == "EXPLORER"@,
            lines@.len() == 2 + i,
            lines@[0]@ == "»"@,
            lines@[1]@ == ""@,
            forall|k: int| 0 <= k < i ==> #[trigger] lines@[2 + k]@ == seq![word@[k]],
        decreases n - i,
    {
        let mut one = String::new();
        crate::text::push_char(&mut one, word[i]);
        lines.push(one);
        i += 1;
    }
    let ghost expect = sliver_lines_spec(height as nat);
    let ghost got = lines@.map_values(|s: String| s@);
    assert(word@.len() == 8);
    assert(expect.len() == got.len());
    assert forall|k: int| 0 <= k < got.len() implies got[k] == expect[k] by {
        if k >= 2 {
            assert(lines@[2 + (k - 2)]@ == seq![word@[k - 2]]);
        }
    }
    assert(got =~= expect);
    lines
}

} // verus!
