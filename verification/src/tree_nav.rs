//! Keyboard navigation over the visible rows of a file tree: selection
//! clamping, relative moves, stepping into and out of directories, and
//! keeping the selection on the same path when the rows are rebuilt.
//! The tree itself (reading directories, remembering what is expanded) lives
//! with the caller; these functions only decide.

use vstd::prelude::*;

use crate::seqs::{
    first_where, last_where, lemma_first_where, lemma_first_where_is, lemma_first_where_none,
    lemma_last_where_is, lemma_last_where_none,
};
use crate::text::eq_strings;

verus! {

/// One visible row of the tree.
pub struct TreeRow {
    pub path: String,
    pub name: String,
    pub depth: usize,
    pub is_dir: bool,
    pub expanded: bool,
}

/// What a navigation key asks the caller to do to the tree.
#[derive(Clone, Copy, PartialEq, Eq, Debug, Structural)]
pub enum TreeAction {
    /// Nothing changes.
    Nothing,
    /// Move the selection to this row.
    Select(usize),
    /// Expand this directory row, then rebuild the rows.
    Expand(usize),
    /// Collapse this directory row, then rebuild the rows.
    Collapse(usize),
    /// Toggle this directory row, then rebuild the rows.
    Toggle(usize),
    /// Open this file row in the preview pane.
    Preview(usize),
}

/// `x` clamped into `lo..=hi` (for `lo <= hi`).
pub open spec fn clamp(x: int, lo: int, hi: int) -> int {
    if x < lo {
        lo
    } else if x > hi {
        hi
    } else {
        x
    }
}

/// Selecting `index` among `len` rows: the last row when past the end; an
/// empty list keeps whatever was selected.
pub open spec fn select_spec(selected: Option<usize>, len: nat, index: int) -> Option<usize> {
    if len == 0 {
        selected
    } else {
        Some(clamp(index, 0, len - 1) as usize)
    }
}

pub fn select(selected: Option<usize>, len: usize, index: usize) -> (r: Option<usize>)
    ensures
        r == select_spec(selected, len as nat, index as int),
{
    if len == 0 {
        selected
    } else if index < len - 1 {
        Some(index)
    } else {
        Some(len - 1)
    }
}

/// The row a relative move lands on: `delta` rows from the selection (the
/// first row when nothing is selected), kept inside the list.
pub open spec fn move_spec(selected: Option<usize>, len: nat, delta: int) -> Option<usize> {
    let current = match selected {
        Some(i) => i as int,
        None => 0,
    };
    let last = if len == 0 {
        0
    } else {
        len - 1
    };
    select_spec(selected, len, clamp(current + delta, 0, last))
}

/// Move the selection by `delta` rows (negative moves up).
pub fn move_by(selected: Option<usize>, len: usize, delta: isize) -> (r: Option<usize>)
    ensures
        r == move_spec(selected, len as nat, delta as int),
        len > 0 ==> (r matches Some(i) && i < len),
{
    let current: i128 = match selected {
        Some(i) => i as i128,
        None => 0,
    };
    let last: i128 = if len == 0 {
        0
    } else {
        (len - 1) as i128
    };
    let target: i128 = current + delta as i128;
    let next: i128 = if target < 0 {
        0
    } else if target > last {
        last
    } else {
        target
    };
    select(selected, len, next as usize)
}

/// The selected row's index, when the selection names an actual row.
pub open spec fn selected_row(selected: Option<usize>, len: nat) -> Option<int> {
    match selected {
        Some(i) => if i < len {
            Some(i as int)
        } else {
            None
        },
        None => None,
    }
}

/// Right/l: expand a collapsed directory; on an expanded one step to its
/// first child, which sits directly below at one level deeper.
pub open spec fn expand_or_enter_spec(rows: Seq<TreeRow>, selected: Option<usize>) -> TreeAction {
    match selected_row(selected, rows.len()) {
        None => TreeAction::Nothing,
        Some(i) => if !rows[i].is_dir {
            TreeAction::Nothing
        } else if rows[i].expanded {
            if i + 1 < rows.len() && rows[i + 1].depth == rows[i].depth + 1 {
                TreeAction::Select((i + 1) as usize)
            } else {
                TreeAction::Nothing
            }
        } else {
            TreeAction::Expand(i as usize)
        },
    }
}

pub fn expand_or_enter(rows: &Vec<TreeRow>, selected: Option<usize>) -> (r: TreeAction)
    ensures
        r == expand_or_enter_spec(rows@, selected),
{
    let i = match selected {
        Some(i) if i < rows.len() => i,
        _ => return TreeAction::Nothing,
    };
    let row = &rows[i];
    if !row.is_dir {
        return TreeAction::Nothing;
    }
    if row.expanded {
        if i + 1 < rows.len() && rows[i + 1].depth > 0 && rows[i + 1].depth - 1 == row.depth {
            TreeAction::Select(i + 1)
        } else {
            TreeAction::Nothing
        }
    } else {
        TreeAction::Expand(i)
    }
}

/// The rows at depth `d`.
pub open spec fn at_depth(d: int) -> spec_fn(TreeRow) -> bool {
    |r: TreeRow| r.depth == d
}

/// Left/h: collapse an expanded directory; otherwise jump to the parent row,
/// the nearest row above at one level shallower.
pub open spec fn collapse_or_parent_spec(rows: Seq<TreeRow>, selected: Option<usize>) -> TreeAction {
    match selected_row(selected, rows.len()) {
        None => TreeAction::Nothing,
        Some(i) => if rows[i].is_dir && rows[i].expanded {
            TreeAction::Collapse(i as usize)
        } else if rows[i].depth == 0 {
            TreeAction::Nothing
        } else {
            match last_where(rows.take(i), at_depth(rows[i].depth - 1)) {
                Some(p) => TreeAction::Select(p as usize),
                None => TreeAction::Nothing,
            }
        },
    }
}

pub fn collapse_or_parent(rows: &Vec<TreeRow>, selected: Option<usize>) -> (r: TreeAction)
    ensures
        r == collapse_or_parent_spec(rows@, selected),
{
    let i = match selected {
        Some(i) if i < rows.len() => i,
        _ => return TreeAction::Nothing,
    };
    if rows[i].is_dir && rows[i].expanded {
        return TreeAction::Collapse(i);
    }
    let depth = rows[i].depth;
    if depth == 0 {
        return TreeAction::Nothing;
    }
    let ghost p = at_depth(depth - 1);
    let ghost above = rows@.take(i as int);
    let mut j: usize = i;
    while j > 0
        invariant
            0 <= j <= i < rows.len(),
            selected == Some(i),
            !(rows@[i as int].is_dir && rows@[i as int].expanded),
            depth == rows@[i as int].depth,
            depth > 0,
            p == at_depth(depth - 1),
            above == rows@.take(i as int),
            forall|k: int| j <= k < i ==> !p(#[trigger] above[k]),
        decreases j,
    {
        j -= 1;
        if rows[j].depth == depth - 1 {
            proof {
                assert(above[j as int] == rows@[j as int]);
                assert(p(above[j as int]));
                lemma_last_where_is(above, p, j as int);
            }
            return TreeAction::Select(j);
        }
    }
    proof {
        lemma_last_where_none(above, p);
    }
    TreeAction::Nothing
}

/// Enter/Space in the plain explorer: toggle a directory; files do nothing.
pub open spec fn toggle_spec(rows: Seq<TreeRow>, selected: Option<usize>) -> TreeAction {
    match selected_row(selected, rows.len()) {
        Some(i) => if rows[i].is_dir {
            TreeAction::Toggle(i as usize)
        } else {
            TreeAction::Nothing
        },
        None => TreeAction::Nothing,
    }
}

pub fn toggle(rows: &Vec<TreeRow>, selected: Option<usize>) -> (r: TreeAction)
    ensures
        r == toggle_spec(rows@, selected),
{
    match selected {
        Some(i) if i < rows.len() => if rows[i].is_dir {
            TreeAction::Toggle(i)
        } else {
            TreeAction::Nothing
        },
        _ => TreeAction::Nothing,
    }
}

/// Enter/Space in the sidebar explorer: toggle a directory, preview a file.
pub open spec fn toggle_or_preview_spec(rows: Seq<TreeRow>, selected: Option<usize>) -> TreeAction {
    match selected_row(selected, rows.len()) {
        Some(i) => if rows[i].is_dir {
            TreeAction::Toggle(i as usize)
        } else {
            TreeAction::Preview(i as usize)
        },
        None => TreeAction::Nothing,
    }
}

pub fn toggle_or_preview(rows: &Vec<TreeRow>, selected: Option<usize>) -> (r: TreeAction)
    ensures
        r == toggle_or_preview_spec(rows@, selected),
{
    match selected {
        Some(i) if i < rows.len() => if rows[i].is_dir {
            TreeAction::Toggle(i)
        } else {
            TreeAction::Preview(i)
        },
        _ => TreeAction::Nothing,
    }
}

/// The rows whose path is `path`.
pub open spec fn has_path(path: Seq<char>) -> spec_fn(TreeRow) -> bool {
    |r: TreeRow| r.path@ == path
}

/// The selection after the rows were rebuilt: the first row with the
/// previously selected path when it still exists, else the old index kept
/// inside the list; nothing on an empty list.
pub open spec fn rebuild_spec(old_path: Option<Seq<char>>, old: Option<usize>, rows: Seq<TreeRow>)
    -> Option<usize> {
    if rows.len() == 0 {
        None
    } else {
        let fallback = match old {
            Some(i) => clamp(i as int, 0, rows.len() - 1),
            None => 0,
        };
        match old_path {
            Some(p) => match first_where(rows, has_path(p)) {
                Some(k) => Some(k as usize),
                None => Some(fallback as usize),
            },
            None => Some(fallback as usize),
        }
    }
}

pub fn rebuild_selection(old_path: Option<&str>, old: Option<usize>, rows: &Vec<TreeRow>) -> (r:
    Option<usize>)
    ensures
        r == rebuild_spec(
            match old_path {
                Some(p) => Some(p@),
                None => None,
            },
            old,
            rows@,
        ),
        rows.len() > 0 ==> (r matches Some(i) && i < rows.len()),
        rows.len() == 0 ==> r is None,
{
    if rows.len() == 0 {
        return None;
    }
    let fallback: usize = match old {
        Some(i) => if i < rows.len() - 1 {
            i
        } else {
            rows.len() - 1
        },
        None => 0,
    };
    let p = match old_path {
        Some(p) => p,
        None => return Some(fallback),
    };
    let ghost pred = has_path(p@);
    let mut k: usize = 0;
    while k < rows.len()
        invariant
            0 <= k <= rows.len(),
            old_path == Some(p),
            rows.len() > 0,
            fallback == (match old {
                Some(i) => clamp(i as int, 0, rows.len() - 1),
                None => 0,
            }),
            pred == has_path(p@),
            forall|j: int| 0 <= j < k ==> !pred(#[trigger] rows@[j]),
        decreases rows.len() - k,
    {
        if eq_strings(rows[k].path.as_str(), p) {
            proof {
                assert(pred(rows@[k as int]));
                lemma_first_where_is(rows@, pred, k as int);
            }
            return Some(k);
        }
        k += 1;
    }
    proof {
        lemma_first_where_none(rows@, pred);
    }
    Some(fallback)
}

/// A row selected after a rebuild that still holds the selected path is a
/// row with that path: the selection follows the path, not the index.
pub proof fn lemma_rebuild_keeps_path(old_path: Seq<char>, old: Option<usize>, rows: Seq<TreeRow>, k: int)
    requires
        rows.len() <= usize::MAX,
        0 <= k < rows.len(),
        rows[k].path@ == old_path,
    ensures
        rebuild_spec(Some(old_path), old, rows) matches Some(i) && rows[i as int].path@ == old_path,
{
    assert(has_path(old_path)(rows[k]));
    lemma_first_where(rows, has_path(old_path));
}

/// A relative move never leaves a non-empty list.
pub proof fn lemma_move_stays_in_rows(selected: Option<usize>, len: nat, delta: int)
    requires
        len > 0,
        len <= usize::MAX,
    ensures
        move_spec(selected, len, delta) matches Some(i) && i < len,
{
}

/// Left on row `i`: an expanded folder collapses; a top-level row stays
/// put; any other row moves to its parent, the nearest row above it that
/// sits one level shallower (and nothing moves when there is none).
pub proof fn lemma_left_goes_to_the_nearest_parent(rows: Seq<TreeRow>, i: usize)
    requires
        i < rows.len(),
        rows.len() <= usize::MAX,
    ensures
        rows[i as int].is_dir && rows[i as int].expanded ==> collapse_or_parent_spec(rows, Some(i))
            == TreeAction::Collapse(i),
        !(rows[i as int].is_dir && rows[i as int].expanded) && rows[i as int].depth == 0
            ==> collapse_or_parent_spec(rows, Some(i)) == TreeAction::Nothing,
        !(rows[i as int].is_dir && rows[i as int].expanded) && rows[i as int].depth > 0 ==> match collapse_or_parent_spec(
            rows,
            Some(i),
        ) {
            TreeAction::Select(p) => p < i && rows[p as int].depth == rows[i as int].depth - 1 && forall|k: int|
                p < k < i ==> #[trigger] rows[k].depth != rows[i as int].depth - 1,
            TreeAction::Nothing => forall|k: int| 0 <= k < i ==> #[trigger] rows[k].depth != rows[i as int].depth - 1,
            _ => false,
        },
{
    if !(rows[i as int].is_dir && rows[i as int].expanded) && rows[i as int].depth > 0 {
        let above = rows.take(i as int);
        let p = at_depth(rows[i as int].depth - 1);
        crate::seqs::lemma_last_where(above, p);
        match last_where(above, p) {
            Some(q) => {
                assert forall|k: int| q < k < i implies #[trigger] rows[k].depth != rows[i as int].depth - 1 by {
                    assert(above[k] == rows[k]);
                    assert(!p(above[k]));
                }
                assert(above[q] == rows[q]);
            },
            None => {
                assert forall|k: int| 0 <= k < i implies #[trigger] rows[k].depth != rows[i as int].depth - 1 by {
                    assert(above[k] == rows[k]);
                    assert(!p(above[k]));
                }
            },
        }
    }
}

} // verus!
