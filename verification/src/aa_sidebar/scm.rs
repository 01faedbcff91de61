//! The sidebar's source control view: the list of rows over every
//! discovered repository (with per-repo inline message boxes and commit
//! buttons when there are several) and the Git-Graph-style drawers below,
//! keyboard movement that skips the inline widgets, mouse hit tests over
//! rows of varying height and over the fixed controls, what a key asks of
//! each focus, and the context menu, discard confirmation and settings
//! overlays.

use vstd::prelude::*;

use crate::aa_sidebar::explorer::{settings_row_at, settings_row_at_spec, Setting, SettingRow};
use crate::aa_sidebar::state;
use crate::icons::IconTheme;
use crate::aa_sidebar::ui::{hits, hits_spec, within, Rect};
use crate::keys::{Key, KeyPress, Mouse, MouseKind};
use crate::menu::{step, step_spec};
use crate::message::MessageBox;
use crate::seqs::{
    first_where, last_where, lemma_first_where, lemma_first_where_is, lemma_first_where_none,
    lemma_last_where, lemma_last_where_is, lemma_last_where_none,
};
use crate::text::{push_str, owned, push_decimal, decimal};
use crate::tree_nav::clamp;

verus! {

/// The Git-Graph-style drawers below the Changes section.
#[derive(Clone, Copy, PartialEq, Eq, Debug, Structural)]
pub enum Drawer {
    Graph,
    Commits,
    FileHistory,
    Branches,
    Remotes,
    Stashes,
    Tags,
}

pub open spec fn drawer_index_spec(d: Drawer) -> nat {
    match d {
        Drawer::Graph => 0,
        Drawer::Commits => 1,
        Drawer::FileHistory => 2,
        Drawer::Branches => 3,
        Drawer::Remotes => 4,
        Drawer::Stashes => 5,
        Drawer::Tags => 6,
    }
}

pub open spec fn drawer_title_spec(d: Drawer) -> Seq<char> {
    match d {
        Drawer::Graph => "GRAPH"@,
        Drawer::Commits => "COMMITS"@,
        Drawer::FileHistory => "FILE HISTORY"@,
        Drawer::Branches => "BRANCHES"@,
        Drawer::Remotes => "REMOTES"@,
        Drawer::Stashes => "STASHES"@,
        Drawer::Tags => "TAGS"@,
    }
}

pub open spec fn all_drawers_spec() -> Seq<Drawer> {
    seq![
        Drawer::Graph,
        Drawer::Commits,
        Drawer::FileHistory,
        Drawer::Branches,
        Drawer::Remotes,
        Drawer::Stashes,
        Drawer::Tags,
    ]
}

impl Drawer {
    /// Every drawer, top to bottom.
    pub fn all() -> (r: [Drawer; 7])
        ensures
            r@ == all_drawers_spec(),
    {
        let r = [
            Drawer::Graph,
            Drawer::Commits,
            Drawer::FileHistory,
            Drawer::Branches,
            Drawer::Remotes,
            Drawer::Stashes,
            Drawer::Tags,
        ];
        assert(r@ =~= all_drawers_spec());
        r
    }

    pub fn title(self) -> (r: &'static str)
        ensures
            r@ == drawer_title_spec(self),
    {
        match self {
            Drawer::Graph => "GRAPH",
            Drawer::Commits => "COMMITS",
            Drawer::FileHistory => "FILE HISTORY",
            Drawer::Branches => "BRANCHES",
            Drawer::Remotes => "REMOTES",
            Drawer::Stashes => "STASHES",
            Drawer::Tags => "TAGS",
        }
    }

    /// The drawer's position among all drawers.
    pub fn index(self) -> (r: usize)
        ensures
            r == drawer_index_spec(self),
            all_drawers_spec()[r as int] == self,
    {
        match self {
            Drawer::Graph => 0,
            Drawer::Commits => 1,
            Drawer::FileHistory => 2,
            Drawer::Branches => 3,
            Drawer::Remotes => 4,
            Drawer::Stashes => 5,
            Drawer::Tags => 6,
        }
    }
}

/// One drawer's state: expanded or not, and how many lines it holds.
#[derive(Clone, Copy, PartialEq, Eq, Debug, Default, Structural)]
pub struct DrawerState {
    pub expanded: bool,
    pub lines: usize,
}

/// One discovered repository's view state, with its own commit message.
pub struct Repo {
    pub name: String,
    pub branch: String,
    pub staged: usize,
    pub unstaged: usize,
    pub has_upstream: bool,
    pub ahead: u64,
    pub behind: u64,
    pub collapsed: bool,
    pub staged_collapsed: bool,
    pub changes_collapsed: bool,
    pub message: MessageBox,
}

/// The repo row's branch decoration: the branch, starred when the tree is
/// dirty.
pub open spec fn branch_decor_spec(branch: Seq<char>, staged: nat, unstaged: nat) -> Seq<char> {
    if staged == 0 && unstaged == 0 {
        branch
    } else {
        branch.push('*')
    }
}

impl Repo {
    /// A freshly discovered repository: nothing folded, no message yet, no
    /// status read yet.
    pub fn new(name: String) -> (r: Repo)
        ensures
            r.name@ == name@,
            r.branch@ == Seq::<char>::empty(),
            r.staged == 0 && r.unstaged == 0,
            !r.has_upstream && r.ahead == 0 && r.behind == 0,
            !r.collapsed && !r.staged_collapsed && !r.changes_collapsed,
            r.message.text@.len() == 0 && r.message.cursor == 0,
    {
        Repo {
            name,
            branch: String::new(),
            staged: 0,
            unstaged: 0,
            has_upstream: false,
            ahead: 0,
            behind: 0,
            collapsed: false,
            staged_collapsed: false,
            changes_collapsed: false,
            message: MessageBox::new(),
        }
    }

    pub fn branch_decor(&self) -> (r: String)
        ensures
            r@ == branch_decor_spec(self.branch@, self.staged as nat, self.unstaged as nat),
    {
        let mut out = owned(self.branch.as_str());
        if !(self.staged == 0 && self.unstaged == 0) {
            crate::text::push_char(&mut out, '*');
        }
        out
    }
}

/// List rows; the first index on the repo-scoped variants is the repo.
#[derive(Clone, Copy, PartialEq, Eq, Debug, Structural)]
pub enum Row {
    /// Only rendered when more than one repository is listed.
    RepoHeader(usize),
    /// The repo's inline message box (three screen lines), multi-repo only.
    Message(usize),
    /// The repo's inline commit button, multi-repo only.
    Commit(usize),
    StagedHeader(usize),
    ChangesHeader(usize),
    Staged(usize, usize),
    Unstaged(usize, usize),
    DrawerHeader(Drawer),
    DrawerLine(Drawer, usize),
}

pub open spec fn row_repo_spec(r: Row) -> Option<usize> {
    match r {
        Row::RepoHeader(x) | Row::Message(x) | Row::Commit(x) | Row::StagedHeader(x)
        | Row::ChangesHeader(x) => Some(x),
        Row::Staged(x, _) | Row::Unstaged(x, _) => Some(x),
        _ => None,
    }
}

pub open spec fn row_height_spec(r: Row) -> nat {
    match r {
        Row::Message(_) => 3,
        _ => 1,
    }
}

pub open spec fn selectable_spec(r: Row) -> bool {
    !(r is Message || r is Commit)
}

impl Row {
    /// The repository a row belongs to (drawers follow the active repo).
    pub fn repo(self) -> (r: Option<usize>)
        ensures
            r == row_repo_spec(self),
    {
        match self {
            Row::RepoHeader(x) | Row::Message(x) | Row::Commit(x) | Row::StagedHeader(x)
            | Row::ChangesHeader(x) => Some(x),
            Row::Staged(x, _) | Row::Unstaged(x, _) => Some(x),
            Row::DrawerHeader(_) | Row::DrawerLine(..) => None,
        }
    }

    /// Screen lines this row occupies (the inline message box is bordered).
    pub fn height(self) -> (r: u16)
        ensures
            r == row_height_spec(self),
    {
        match self {
            Row::Message(_) => 3,
            _ => 1,
        }
    }

    /// Keyboard navigation skips the inline widget rows.
    pub fn selectable(self) -> (r: bool)
        ensures
            r == selectable_spec(self),
    {
        match self {
            Row::Message(_) | Row::Commit(_) => false,
            _ => true,
        }
    }
}

// ---------------------------------------------------------------------------
// Rows
// ---------------------------------------------------------------------------

/// What a repository is shown as, for the row list.
pub struct RepoShape {
    pub staged: nat,
    pub unstaged: nat,
    pub collapsed: bool,
    pub staged_collapsed: bool,
    pub changes_collapsed: bool,
}

pub open spec fn shape_of(r: Repo) -> RepoShape {
    RepoShape {
        staged: r.staged as nat,
        unstaged: r.unstaged as nat,
        collapsed: r.collapsed,
        staged_collapsed: r.staged_collapsed,
        changes_collapsed: r.changes_collapsed,
    }
}

/// One repository's rows: in multi-repo mode a header (and, unless folded,
/// its message box and commit button), then the Staged section while
/// something is staged, then the Changes section.
pub open spec fn repo_rows_spec(r: usize, s: RepoShape, multi: bool) -> Seq<Row> {
    if multi && s.collapsed {
        seq![Row::RepoHeader(r)]
    } else {
        let head = if multi {
            seq![Row::RepoHeader(r), Row::Message(r), Row::Commit(r)]
        } else {
            Seq::empty()
        };
        let staged = if s.staged > 0 {
            seq![Row::StagedHeader(r)] + if !s.staged_collapsed {
                Seq::new(s.staged, |i: int| Row::Staged(r, i as usize))
            } else {
                Seq::empty()
            }
        } else {
            Seq::empty()
        };
        let changes = seq![Row::ChangesHeader(r)] + if !s.changes_collapsed {
            Seq::new(s.unstaged, |i: int| Row::Unstaged(r, i as usize))
        } else {
            Seq::empty()
        };
        head + staged + changes
    }
}

/// The rows of the first `n` repositories.
pub open spec fn repos_rows_spec(repos: Seq<RepoShape>, n: nat, multi: bool) -> Seq<Row>
    decreases n,
{
    if n == 0 {
        Seq::empty()
    } else {
        repos_rows_spec(repos, (n - 1) as nat, multi) + repo_rows_spec((n - 1) as usize, repos[n - 1], multi)
    }
}

/// The rows of the first `n` drawers.
pub open spec fn drawers_rows_spec(drawers: Seq<DrawerState>, n: nat) -> Seq<Row>
    decreases n,
{
    if n == 0 {
        Seq::empty()
    } else {
        let d = all_drawers_spec()[n - 1];
        drawers_rows_spec(drawers, (n - 1) as nat) + seq![Row::DrawerHeader(d)] + if drawers[n
            - 1].expanded {
            Seq::new(drawers[n - 1].lines as nat, |i: int| Row::DrawerLine(d, i as usize))
        } else {
            Seq::empty()
        }
    }
}

/// Every row: all repositories (multi-repo mode when there is more than
/// one), then all seven drawers.
pub open spec fn rows_spec(repos: Seq<RepoShape>, drawers: Seq<DrawerState>) -> Seq<Row> {
    repos_rows_spec(repos, repos.len(), repos.len() > 1) + drawers_rows_spec(drawers, 7)
}

fn push_repo_rows(out: &mut Vec<Row>, r: usize, repo: &Repo, multi: bool)
    ensures
        final(out)@ == old(out)@ + repo_rows_spec(r, shape_of(*repo), multi),
{
    let ghost start = out@;
    if multi {
        out.push(Row::RepoHeader(r));
        if repo.collapsed {
            assert(out@ =~= start + repo_rows_spec(r, shape_of(*repo), multi));
            return;
        }
        out.push(Row::Message(r));
        out.push(Row::Commit(r));
    }
    let ghost head = out@;
    if repo.staged > 0 {
        out.push(Row::StagedHeader(r));
        if !repo.staged_collapsed {
            let mut i: usize = 0;
            while i < repo.staged
                invariant
                    0 <= i <= repo.staged,
                    out@ == head + seq![Row::StagedHeader(r)] + Seq::new(
                        i as nat,
                        |k: int| Row::Staged(r, k as usize),
                    ),
                decreases repo.staged - i,
            {
                out.push(Row::Staged(r, i));
                i += 1;
                assert(out@ =~= head + seq![Row::StagedHeader(r)] + Seq::new(
                    i as nat,
                    |k: int| Row::Staged(r, k as usize),
                ));
            }
        }
    }
    let ghost mid = out@;
    out.push(Row::ChangesHeader(r));
    if !repo.changes_collapsed {
        let mut i: usize = 0;
        while i < repo.unstaged
            invariant
                0 <= i <= repo.unstaged,
                out@ == mid + seq![Row::ChangesHeader(r)] + Seq::new(
                    i as nat,
                    |k: int| Row::Unstaged(r, k as usize),
                ),
            decreases repo.unstaged - i,
        {
            out.push(Row::Unstaged(r, i));
            i += 1;
            assert(out@ =~= mid + seq![Row::ChangesHeader(r)] + Seq::new(
                i as nat,
                |k: int| Row::Unstaged(r, k as usize),
            ));
        }
    }
    assert(out@ =~= start + repo_rows_spec(r, shape_of(*repo), multi));
}

/// The list rows for the repositories and the drawers' states.
pub fn rows(repos: &Vec<Repo>, drawers: &Vec<DrawerState>) -> (r: Vec<Row>)
    requires
        drawers.len() == 7,
    ensures
        r@ == rows_spec(repos@.map_values(|x: Repo| shape_of(x)), drawers@),
{
    let ghost shapes = repos@.map_values(|x: Repo| shape_of(x));
    let multi = repos.len() > 1;
    let mut out: Vec<Row> = Vec::new();
    let mut r: usize = 0;
    while r < repos.len()
        invariant
            0 <= r <= repos.len(),
            shapes == repos@.map_values(|x: Repo| shape_of(x)),
            multi == (repos.len() > 1),
            out@ == repos_rows_spec(shapes, r as nat, multi),
        decreases repos.len() - r,
    {
        push_repo_rows(&mut out, r, &repos[r], multi);
        r += 1;
    }
    let ghost mid = out@;
    let all = Drawer::all();
    let mut k: usize = 0;
    while k < 7
        invariant
            0 <= k <= 7,
            drawers.len() == 7,
            all@ == all_drawers_spec(),
            out@ == mid + drawers_rows_spec(drawers@, k as nat),
        decreases 7 - k,
    {
        let d = all[k];
        let ghost before = out@;
        out.push(Row::DrawerHeader(d));
        if drawers[k].expanded {
            let mut i: usize = 0;
            while i < drawers[k].lines
                invariant
                    0 <= i <= drawers@[k as int].lines,
                    k < 7,
                    drawers.len() == 7,
                    out@ == before + seq![Row::DrawerHeader(d)] + Seq::new(
                        i as nat,
                        |j: int| Row::DrawerLine(d, j as usize),
                    ),
                decreases drawers@[k as int].lines - i,
            {
                out.push(Row::DrawerLine(d, i));
                i += 1;
                assert(out@ =~= before + seq![Row::DrawerHeader(d)] + Seq::new(
                    i as nat,
                    |j: int| Row::DrawerLine(d, j as usize),
                ));
            }
        }
        assert(out@ =~= mid + drawers_rows_spec(drawers@, (k + 1) as nat));
        k += 1;
    }
    out
}

// ---------------------------------------------------------------------------
// Selection
// ---------------------------------------------------------------------------

pub open spec fn selectable_row() -> spec_fn(Row) -> bool {
    |r: Row| selectable_spec(r)
}

/// The closest keyboard-selectable row to `from`: itself, else the first
/// one after it, else the last one before it, else the first row.
pub open spec fn nearest_spec(rows: Seq<Row>, from: int) -> int {
    if 0 <= from < rows.len() && selectable_spec(rows[from]) {
        from
    } else {
        match first_where(rows.skip(from), selectable_row()) {
            Some(k) => from + k,
            None => match last_where(rows.take(from), selectable_row()) {
                Some(k) => k,
                None => 0,
            },
        }
    }
}

pub fn nearest_selectable(rows: &Vec<Row>, from: usize) -> (r: usize)
    requires
        from <= rows.len(),
    ensures
        r == nearest_spec(rows@, from as int),
        rows.len() > 0 ==> r < rows.len(),
{
    if from < rows.len() && rows[from].selectable() {
        return from;
    }
    let ghost p = selectable_row();
    let ghost after = rows@.skip(from as int);
    let mut i: usize = from;
    while i < rows.len()
        invariant
            from <= i <= rows.len(),
            p == selectable_row(),
            after == rows@.skip(from as int),
            !(from < rows.len() && selectable_spec(rows@[from as int])),
            forall|j: int| 0 <= j < i - from ==> !p(#[trigger] after[j]),
        decreases rows.len() - i,
    {
        if rows[i].selectable() {
            proof {
                assert(after[i - from] == rows@[i as int]);
                assert(p(after[i - from]));
                lemma_first_where_is(after, p, i - from);
            }
            return i;
        }
        assert(after[i - from] == rows@[i as int]);
        i += 1;
    }
    proof {
        lemma_first_where_none(after, p);
    }
    let ghost before = rows@.take(from as int);
    let mut j: usize = from;
    while j > 0
        invariant
            0 <= j <= from <= rows.len(),
            p == selectable_row(),
            before == rows@.take(from as int),
            first_where(rows@.skip(from as int), p) is None,
            !(from < rows.len() && selectable_spec(rows@[from as int])),
            forall|k: int| j <= k < from ==> !p(#[trigger] before[k]),
        decreases j,
    {
        j -= 1;
        if rows[j].selectable() {
            proof {
                assert(before[j as int] == rows@[j as int]);
                assert(p(before[j as int]));
                lemma_last_where_is(before, p, j as int);
            }
            return j;
        }
        assert(before[j as int] == rows@[j as int]);
    }
    proof {
        lemma_last_where_none(before, p);
    }
    0
}

/// The row after rebuilding: the old index kept on the list, moved to the
/// nearest selectable row; nothing on an empty list.
pub open spec fn reselect_spec(rows: Seq<Row>, selected: Option<usize>) -> Option<usize> {
    if rows.len() == 0 {
        None
    } else {
        let i = match selected {
            Some(i) => clamp(i as int, 0, rows.len() - 1),
            None => 0,
        };
        Some(nearest_spec(rows, i) as usize)
    }
}

pub fn reselect(rows: &Vec<Row>, selected: Option<usize>) -> (r: Option<usize>)
    ensures
        r == reselect_spec(rows@, selected),
{
    if rows.len() == 0 {
        return None;
    }
    let i = match selected {
        Some(i) => if i < rows.len() - 1 {
            i
        } else {
            rows.len() - 1
        },
        None => 0,
    };
    Some(nearest_selectable(rows, i))
}

/// A relative move that treats widget rows as no stops: keep going in the
/// move's direction past them; when that runs off the list, fall back to
/// the nearest selectable row of the clamped target.
pub open spec fn move_spec(rows: Seq<Row>, selected: Option<usize>, delta: int) -> Option<usize> {
    if rows.len() == 0 {
        selected
    } else {
        let current = match selected {
            Some(i) => i as int,
            None => 0,
        };
        let target = clamp(current + delta, 0, rows.len() - 1);
        let found = if delta >= 0 {
            match first_where(rows.skip(target), selectable_row()) {
                Some(k) => Some(target + k),
                None => None,
            }
        } else {
            last_where(rows.take(target + 1), selectable_row())
        };
        match found {
            Some(k) => Some(k as usize),
            None => Some(nearest_spec(rows, target) as usize),
        }
    }
}

pub fn move_by(rows: &Vec<Row>, selected: Option<usize>, delta: isize) -> (r: Option<usize>)
    ensures
        r == move_spec(rows@, selected, delta as int),
        rows.len() > 0 ==> (r matches Some(i) && i < rows.len()),
{
    if rows.len() == 0 {
        return selected;
    }
    let len = rows.len() as i128;
    let current: i128 = match selected {
        Some(i) => i as i128,
        None => 0,
    };
    let raw = current + delta as i128;
    let target: usize = if raw < 0 {
        0
    } else if raw > len - 1 {
        (len - 1) as usize
    } else {
        raw as usize
    };
    let ghost p = selectable_row();
    let ghost cur = match selected {
        Some(i) => i as int,
        None => 0,
    };
    assert(target as int == clamp(cur + delta, 0, rows.len() - 1));
    if delta >= 0 {
        let ghost after = rows@.skip(target as int);
        let mut i: usize = target;
        while i < rows.len()
            invariant
                target <= i <= rows.len(),
                target < rows.len(),
                delta >= 0,
                target as int == clamp(cur + delta, 0, rows.len() - 1),
                cur == match selected {
                    Some(i) => i as int,
                    None => 0,
                },
                p == selectable_row(),
                after == rows@.skip(target as int),
                forall|j: int| 0 <= j < i - target ==> !p(#[trigger] after[j]),
            decreases rows.len() - i,
        {
            if rows[i].selectable() {
                proof {
                    assert(after[i - target] == rows@[i as int]);
                    assert(p(after[i - target]));
                    lemma_first_where_is(after, p, i - target);
                }
                return Some(i);
            }
            assert(after[i - target] == rows@[i as int]);
            i += 1;
        }
        proof {
            lemma_first_where_none(after, p);
        }
    } else {
        let ghost upto = rows@.take(target + 1);
        let mut j: usize = target + 1;
        while j > 0
            invariant
                0 <= j <= target + 1,
                target < rows.len(),
                delta < 0,
                target as int == clamp(cur + delta, 0, rows.len() - 1),
                cur == match selected {
                    Some(i) => i as int,
                    None => 0,
                },
                p == selectable_row(),
                upto == rows@.take(target + 1),
                forall|k: int| j <= k < target + 1 ==> !p(#[trigger] upto[k]),
            decreases j,
        {
            j -= 1;
            if rows[j].selectable() {
                proof {
                    assert(upto[j as int] == rows@[j as int]);
                    assert(p(upto[j as int]));
                    lemma_last_where_is(upto, p, j as int);
                }
                return Some(j);
            }
            assert(upto[j as int] == rows@[j as int]);
        }
        proof {
            lemma_last_where_none(upto, p);
        }
    }
    Some(nearest_selectable(rows, target))
}

// ---------------------------------------------------------------------------
// Rows on screen
// ---------------------------------------------------------------------------

/// Where the list body was drawn last frame.
#[derive(Clone, Copy, PartialEq, Eq, Debug, Default, Structural)]
pub struct BodyGeom {
    pub top: u16,
    pub height: u16,
    pub offset: usize,
}

/// Scanning rows from `k`, whose first line is at screen row `y`: the row
/// covering screen row `m`, and the line within it.
pub open spec fn hit_from(rows: Seq<Row>, k: int, y: int, m: int) -> Option<(usize, u16)>
    decreases rows.len() - k,
{
    if k < 0 || k >= rows.len() {
        None
    } else if m < y + row_height_spec(rows[k]) {
        Some((k as usize, (m - y) as u16))
    } else {
        hit_from(rows, k + 1, y + row_height_spec(rows[k]), m)
    }
}

/// The row at a pane-local mouse row (rows vary in height: inline message
/// boxes are three lines), and the line within it.
pub open spec fn row_hit_spec(rows: Seq<Row>, body: BodyGeom, m: u16) -> Option<(usize, u16)> {
    if m < body.top || m >= body.top + body.height {
        None
    } else {
        hit_from(rows, body.offset as int, body.top as int, m as int)
    }
}

pub fn row_hit(rows: &Vec<Row>, body: BodyGeom, mouse_row: u16) -> (r: Option<(usize, u16)>)
    ensures
        r == row_hit_spec(rows@, body, mouse_row),
{
    if mouse_row < body.top || mouse_row as u32 >= body.top as u32 + body.height as u32 {
        return None;
    }
    let m = mouse_row as u32;
    let mut y: u32 = body.top as u32;
    let mut index: usize = body.offset;
    while index < rows.len()
        invariant
            body.offset <= index,
            body.top <= y <= m,
            m == mouse_row,
            row_hit_spec(rows@, body, mouse_row) == hit_from(rows@, index as int, y as int, m as int),
        decreases rows.len() - index,
    {
        let h = rows[index].height() as u32;
        if m < y + h {
            return Some((index, (m - y) as u16));
        }
        y = y + h;
        index += 1;
    }
    None
}

/// Screen lines taken by the rows `a..b`.
pub open spec fn heights_between(rows: Seq<Row>, a: int, b: int) -> int
    decreases b - a,
{
    if b <= a {
        0
    } else {
        heights_between(rows, a, b - 1) + row_height_spec(rows[b - 1])
    }
}

/// The screen row where row `index` starts, when it is on screen.
pub open spec fn row_y_spec(rows: Seq<Row>, body: BodyGeom, index: usize) -> Option<u16> {
    if body.offset <= index < rows.len() {
        let y = body.top + heights_between(rows, body.offset as int, index as int);
        if y < body.top + body.height {
            Some(y as u16)
        } else {
            None
        }
    } else {
        None
    }
}

proof fn lemma_heights_grow(rows: Seq<Row>, a: int, b: int, c: int)
    requires
        a <= b <= c,
    ensures
        heights_between(rows, a, b) <= heights_between(rows, a, c),
    decreases c - b,
{
    if b < c {
        lemma_heights_grow(rows, a, b, c - 1);
    }
}

pub fn row_y(rows: &Vec<Row>, body: BodyGeom, index: usize) -> (r: Option<u16>)
    ensures
        r == row_y_spec(rows@, body, index),
{
    if index < body.offset || index >= rows.len() {
        return None;
    }
    let bottom = body.top as u64 + body.height as u64;
    let mut y: u64 = body.top as u64;
    let mut i: usize = body.offset;
    while i < index
        invariant
            body.offset <= i <= index < rows.len(),
            y == body.top + heights_between(rows@, body.offset as int, i as int),
            y < bottom + 3,
            bottom == body.top + body.height,
        decreases index - i,
    {
        if y >= bottom {
            proof {
                lemma_heights_grow(rows@, body.offset as int, i as int, index as int);
            }
            return None;
        }
        y = y + rows[i].height() as u64;
        i += 1;
    }
    if y < bottom {
        Some(y as u16)
    } else {
        None
    }
}

// ---------------------------------------------------------------------------
// Smaller pieces
// ---------------------------------------------------------------------------

/// Columns the inline message box's input field spans: the pane width less
/// the left border and the three-cell suggest button with its border.
pub fn inline_field_width(pane_width: u16) -> (r: u16)
    ensures
        r == (if pane_width >= 5 {
            pane_width - 5
        } else {
            0
        }),
{
    pane_width.saturating_sub(2 + 3)
}

/// The first character of a message shown in an input field `field` cells
/// wide: the text scrolls so that the cursor stays in the field's last
/// cell at most.
pub open spec fn field_start_spec(cursor: nat, field: nat) -> nat {
    let keep: nat = if field >= 1 {
        (field - 1) as nat
    } else {
        0
    };
    if cursor >= keep {
        (cursor - keep) as nat
    } else {
        0
    }
}

pub fn field_start(cursor: usize, field: usize) -> (r: usize)
    ensures
        r == field_start_spec(cursor as nat, field as nat),
{
    cursor.saturating_sub(field.saturating_sub(1))
}

/// Where the terminal cursor goes in the focused inline message box whose
/// top line is on screen row `box_y` (as `row_y` reports it, `None` when
/// the box is scrolled away): one cell in from the border plus the cursor's
/// place in the visible part of the message, on the box's middle line.
/// Nothing when that line falls below the list body (`body_bottom` is the
/// first row past it).
pub open spec fn inline_cursor_spec(list_x: u16, box_y: Option<u16>, body_bottom: int, cursor: nat, pane_width: u16) -> Option<
    (int, int),
> {
    match box_y {
        Some(y) => if y + 1 < body_bottom {
            let field = if pane_width >= 5 {
                (pane_width - 5) as nat
            } else {
                0
            };
            Some((list_x + 1 + (cursor - field_start_spec(cursor, field)), y + 1))
        } else {
            None
        },
        None => None,
    }
}

pub fn inline_cursor(list_x: u16, box_y: Option<u16>, body_bottom: u16, cursor: usize, pane_width: u16) -> (r:
    Option<(u16, u16)>)
    requires
        list_x + 1 + pane_width <= u16::MAX,
    ensures
        match r {
            Some((x, y)) => inline_cursor_spec(list_x, box_y, body_bottom as int, cursor as nat, pane_width)
                == Some((x as int, y as int)),
            None => inline_cursor_spec(list_x, box_y, body_bottom as int, cursor as nat, pane_width) is None,
        },
{
    let y = match box_y {
        Some(y) => y,
        None => return None,
    };
    if !((y as u32) + 1 < body_bottom as u32) {
        return None;
    }
    let field = inline_field_width(pane_width) as usize;
    let start = field_start(cursor, field);
    let offset = cursor - start;
    assert(offset <= pane_width);
    Some((list_x + 1 + offset as u16, y + 1))
}

/// The Sync Changes label: "Syncing…" while a sync runs; otherwise the
/// outgoing/incoming counts, or nothing (the row hides) without an
/// upstream or with nothing to sync.
pub open spec fn sync_label_spec(syncing: bool, has_upstream: bool, ahead: u64, behind: u64) -> Option<
    Seq<char>,
> {
    if syncing {
        Some("⇅ Syncing…"@)
    } else if !has_upstream || ahead + behind == 0 {
        None
    } else {
        Some("⇅ Sync Changes  "@ + decimal(ahead as nat) + "↑ "@ + decimal(behind as nat) + "↓"@)
    }
}

pub fn sync_label(syncing: bool, has_upstream: bool, ahead: u64, behind: u64) -> (r: Option<String>)
    ensures
        match r {
            Some(s) => sync_label_spec(syncing, has_upstream, ahead, behind) == Some(s@),
            None => sync_label_spec(syncing, has_upstream, ahead, behind) is None,
        },
{
    if syncing {
        return Some(owned("⇅ Syncing…"));
    }
    if !has_upstream || (ahead == 0 && behind == 0) {
        return None;
    }
    let mut out = String::new();
    push_str(&mut out, "⇅ Sync Changes  ");
    push_decimal(&mut out, ahead);
    push_str(&mut out, "↑ ");
    push_decimal(&mut out, behind);
    push_str(&mut out, "↓");
    Some(out)
}

/// The Sync Changes row shows while a sync runs, and otherwise exactly
/// when there is an upstream and something to push or pull; its label then
/// carries both counts, outgoing before `↑` and incoming before `↓`, each
/// written as digits that read back as the count.
pub proof fn lemma_sync_row_shows_both_counts(syncing: bool, has_upstream: bool, ahead: u64, behind: u64)
    ensures
        (sync_label_spec(syncing, has_upstream, ahead, behind) is Some) <==> (syncing || (has_upstream && ahead
            + behind > 0)),
        !syncing && has_upstream && ahead + behind > 0 ==> exists|out: Seq<char>, inc: Seq<char>|
            crate::text::all_digits(out) && out.len() > 0 && crate::text::digits_value(out) == ahead
                && crate::text::all_digits(inc) && inc.len() > 0 && crate::text::digits_value(inc) == behind
                && #[trigger] sync_label_spec(syncing, has_upstream, ahead, behind) == Some(
                "⇅ Sync Changes  "@ + out + "↑ "@ + inc + "↓"@,
            ),
{
    crate::text::lemma_decimal_reads_back(ahead as nat);
    crate::text::lemma_decimal_reads_back(behind as nat);
}

/// Context-menu actions for a staged or unstaged file row.
#[derive(Clone, Copy, PartialEq, Eq, Debug, Structural)]
pub enum MenuAction {
    StageOrUnstage,
    Discard,
    CopyPath,
    CopyRelativePath,
    Reveal,
}

#[derive(Clone, Copy, PartialEq, Eq, Debug)]
pub enum MenuEntry {
    Action(MenuAction, &'static str),
    Separator,
}

pub open spec fn is_action_entry(e: MenuEntry) -> bool {
    e is Action
}

pub open spec fn flags_spec(entries: Seq<MenuEntry>) -> Seq<bool> {
    entries.map_values(|e: MenuEntry| is_action_entry(e))
}

/// Next selectable (non-separator) menu index in `direction`, staying put
/// at the ends.
pub fn step_menu(entries: &[MenuEntry], from: usize, direction: isize) -> (r: usize)
    requires
        direction != 0 || from >= entries.len() || is_action_entry(entries@[from as int]),
    ensures
        r == step_spec(flags_spec(entries@), from as int, direction as int),
        r == from || (r < entries.len() && is_action_entry(entries@[r as int])),
{
    let mut flags: Vec<bool> = Vec::new();
    let mut i: usize = 0;
    while i < entries.len()
        invariant
            0 <= i <= entries.len(),
            flags@ == flags_spec(entries@.take(i as int)),
        decreases entries.len() - i,
    {
        let is_action = match entries[i] {
            MenuEntry::Action(..) => true,
            MenuEntry::Separator => false,
        };
        flags.push(is_action);
        assert(flags_spec(entries@.take(i + 1)) =~= flags_spec(entries@.take(i as int)).push(
            is_action,
        ));
        i += 1;
    }
    assert(entries@.take(entries.len() as int) =~= entries@);
    let r = step(&flags, from, direction);
    assert(r == from || (r < entries.len() && flags_spec(entries@)[r as int]));
    r
}

pub open spec fn menu_entry_view(e: MenuEntry) -> Option<(MenuAction, Seq<char>)> {
    match e {
        MenuEntry::Action(a, label) => Some((a, label@)),
        MenuEntry::Separator => None,
    }
}

/// The context menu of a file row: stage (or unstage, for a staged file),
/// discard for unstaged files only, the two copy actions and reveal.
pub open spec fn file_menu_spec(staged: bool) -> Seq<Option<(MenuAction, Seq<char>)>> {
    seq![
        Some(
            (
                MenuAction::StageOrUnstage,
                if staged {
                    "Unstage Changes"@
                } else {
                    "Stage Changes"@
                },
            ),
        ),
    ] + if !staged {
        seq![Some((MenuAction::Discard, "Discard Changes…"@))]
    } else {
        Seq::empty()
    } + seq![
        None,
        Some((MenuAction::CopyPath, "Copy Path"@)),
        Some((MenuAction::CopyRelativePath, "Copy Relative Path"@)),
        None,
        Some((MenuAction::Reveal, "Reveal in File Explorer"@)),
    ]
}

pub fn file_menu(staged: bool) -> (r: Vec<MenuEntry>)
    ensures
        r@.map_values(|e: MenuEntry| menu_entry_view(e)) == file_menu_spec(staged),
{
    let mut entries: Vec<MenuEntry> = Vec::new();
    entries.push(
        MenuEntry::Action(
            MenuAction::StageOrUnstage,
            if staged {
                "Unstage Changes"
            } else {
                "Stage Changes"
            },
        ),
    );
    if !staged {
        entries.push(MenuEntry::Action(MenuAction::Discard, "Discard Changes…"));
    }
    entries.push(MenuEntry::Separator);
    entries.push(MenuEntry::Action(MenuAction::CopyPath, "Copy Path"));
    entries.push(MenuEntry::Action(MenuAction::CopyRelativePath, "Copy Relative Path"));
    entries.push(MenuEntry::Separator);
    entries.push(MenuEntry::Action(MenuAction::Reveal, "Reveal in File Explorer"));
    assert(entries@.map_values(|e: MenuEntry| menu_entry_view(e)) =~= file_menu_spec(staged));
    entries
}

/// What a left click on a list row does.
#[derive(Clone, Copy, PartialEq, Eq, Debug, Structural)]
pub enum RowClick {
    /// Ask for a commit message suggestion for this repo.
    Suggest(usize),
    /// Focus this repo's message box.
    FocusMessage(usize),
    /// Commit this repo.
    Commit(usize),
    /// Sync this repo.
    Sync(usize),
    /// Select the row and activate it (fold a section or drawer, etc.).
    SelectAndActivate(usize),
    /// Select the row only.
    Select(usize),
}

/// A click at column `x` on line `line` of row `index`: the message box's
/// middle line ends in the suggest button; a repo header's last six cells
/// are its sync and commit icons; headers activate; other rows select.
pub open spec fn row_click_spec(row: Row, index: usize, line: u16, x: u16, width: u16) -> RowClick {
    let w = width as int;
    match row {
        Row::Message(r) => if line == 1 && x >= (if w >= 4 {
            w - 4
        } else {
            0
        }) {
            RowClick::Suggest(r)
        } else {
            RowClick::FocusMessage(r)
        },
        Row::Commit(r) => RowClick::Commit(r),
        Row::RepoHeader(r) => if x >= (if w >= 3 {
            w - 3
        } else {
            0
        }) && x < w {
            RowClick::Commit(r)
        } else if x >= (if w >= 6 {
            w - 6
        } else {
            0
        }) && x < (if w >= 3 {
            w - 3
        } else {
            0
        }) {
            RowClick::Sync(r)
        } else {
            RowClick::SelectAndActivate(index)
        },
        Row::StagedHeader(_) | Row::ChangesHeader(_) | Row::DrawerHeader(_) => RowClick::SelectAndActivate(
            index,
        ),
        _ => RowClick::Select(index),
    }
}

pub fn row_click(row: Row, index: usize, line: u16, x: u16, width: u16) -> (r: RowClick)
    ensures
        r == row_click_spec(row, index, line, x, width),
{
    match row {
        Row::Message(r) => if line == 1 && x >= width.saturating_sub(4) {
            RowClick::Suggest(r)
        } else {
            RowClick::FocusMessage(r)
        },
        Row::Commit(r) => RowClick::Commit(r),
        Row::RepoHeader(r) => if x >= width.saturating_sub(3) && x < width {
            RowClick::Commit(r)
        } else if x >= width.saturating_sub(6) && x < width.saturating_sub(3) {
            RowClick::Sync(r)
        } else {
            RowClick::SelectAndActivate(index)
        },
        Row::StagedHeader(_) | Row::ChangesHeader(_) | Row::DrawerHeader(_) => RowClick::SelectAndActivate(
            index,
        ),
        _ => RowClick::Select(index),
    }
}

/// Drawer headers and lines never belong to a repository; every other row
/// names one.
pub proof fn lemma_rows_name_their_repo(r: Row)
    ensures
        row_repo_spec(r) is None <==> (r is DrawerHeader || r is DrawerLine),
{
}

// ---------------------------------------------------------------------------
// Keys
// ---------------------------------------------------------------------------

/// Where keyboard input goes.
#[derive(Clone, Copy, PartialEq, Eq, Debug, Structural)]
pub enum Focus {
    List,
    /// The active repository's commit message box.
    Message,
    /// The commit button.
    Commit,
}

/// What a key asks of the source control view when no overlay is open.
#[derive(Clone, Copy, PartialEq, Eq, Debug, Structural)]
pub enum ScmCmd {
    Nothing,
    Quit,
    SetFocus(Focus),
    /// Commit the active repository.
    Commit,
    /// Apply the key to the active repository's message box.
    EditMessage,
    MoveBy(isize),
    SelectFirst,
    SelectLast,
    /// Act on the selected row (stage, unstage, fold, open).
    Activate,
    StageAll,
    UnstageAll,
    Refresh,
    ToggleTheme,
    SuggestMessage,
    OpenSettings,
    SyncChanges,
    SwitchTo(state::View),
}

pub open spec fn scm_key_spec(focus: Focus, k: KeyPress, page: int) -> ScmCmd {
    match focus {
        Focus::Message => match k.key {
            Key::Enter => ScmCmd::Commit,
            Key::Esc | Key::BackTab => ScmCmd::SetFocus(Focus::List),
            Key::Tab | Key::Down => ScmCmd::SetFocus(Focus::Commit),
            _ => ScmCmd::EditMessage,
        },
        Focus::Commit => match k.key {
            Key::Enter | Key::Char(' ') => ScmCmd::Commit,
            Key::Esc | Key::Tab | Key::Down => ScmCmd::SetFocus(Focus::List),
            Key::BackTab | Key::Up => ScmCmd::SetFocus(Focus::Message),
            _ => ScmCmd::Nothing,
        },
        Focus::List => match k.key {
            Key::Char('q') | Key::Esc => ScmCmd::Quit,
            Key::Tab | Key::Char('c') => ScmCmd::SetFocus(Focus::Message),
            Key::BackTab => ScmCmd::SetFocus(Focus::Commit),
            Key::Up | Key::Char('k') => ScmCmd::MoveBy(-1isize),
            Key::Down | Key::Char('j') => ScmCmd::MoveBy(1isize),
            Key::PageUp => ScmCmd::MoveBy((-page) as isize),
            Key::PageDown => ScmCmd::MoveBy(page as isize),
            Key::Home | Key::Char('g') => ScmCmd::SelectFirst,
            Key::End | Key::Char('G') => ScmCmd::SelectLast,
            Key::Enter | Key::Char(' ') => ScmCmd::Activate,
            Key::Char('a') => ScmCmd::StageAll,
            Key::Char('u') => ScmCmd::UnstageAll,
            Key::Char('r') => ScmCmd::Refresh,
            Key::Char('i') => ScmCmd::ToggleTheme,
            Key::Char('A') => ScmCmd::SuggestMessage,
            Key::Char('s') => ScmCmd::OpenSettings,
            Key::Char('S') => ScmCmd::SyncChanges,
            Key::Char('1') => ScmCmd::SwitchTo(state::View::Explorer),
            Key::Char('2') => ScmCmd::SwitchTo(state::View::SourceControl),
            _ => ScmCmd::Nothing,
        },
    }
}

/// One key press with no overlay open, by focus. In the message box Enter
/// commits, Esc/Shift-Tab return to the list, Tab/Down go to the button and
/// every other key edits the message. On the button Enter/Space commit. On
/// the list: `q`/Esc quit, Tab/`c` focus the message, Shift-Tab the button,
/// arrows/`jk`/PageUp/PageDown move, Home/End (`g`/`G`) jump, Enter/Space
/// activate, `a`/`u` stage and unstage everything, `r` refreshes, `i`
/// switches icons, `A` suggests a message, `s` opens the settings, `S`
/// syncs, and `1`/`2` switch views.
pub fn scm_key(focus: Focus, k: KeyPress, page: usize) -> (c: ScmCmd)
    requires
        page <= isize::MAX,
    ensures
        c == scm_key_spec(focus, k, page as int),
{
    let p = page as isize;
    match focus {
        Focus::Message => match k.key {
            Key::Enter => ScmCmd::Commit,
            Key::Esc | Key::BackTab => ScmCmd::SetFocus(Focus::List),
            Key::Tab | Key::Down => ScmCmd::SetFocus(Focus::Commit),
            _ => ScmCmd::EditMessage,
        },
        Focus::Commit => match k.key {
            Key::Enter | Key::Char(' ') => ScmCmd::Commit,
            Key::Esc | Key::Tab | Key::Down => ScmCmd::SetFocus(Focus::List),
            Key::BackTab | Key::Up => ScmCmd::SetFocus(Focus::Message),
            _ => ScmCmd::Nothing,
        },
        Focus::List => match k.key {
            Key::Char('q') | Key::Esc => ScmCmd::Quit,
            Key::Tab | Key::Char('c') => ScmCmd::SetFocus(Focus::Message),
            Key::BackTab => ScmCmd::SetFocus(Focus::Commit),
            Key::Up | Key::Char('k') => ScmCmd::MoveBy(-1),
            Key::Down | Key::Char('j') => ScmCmd::MoveBy(1),
            Key::PageUp => ScmCmd::MoveBy(-p),
            Key::PageDown => ScmCmd::MoveBy(p),
            Key::Home | Key::Char('g') => ScmCmd::SelectFirst,
            Key::End | Key::Char('G') => ScmCmd::SelectLast,
            Key::Enter | Key::Char(' ') => ScmCmd::Activate,
            Key::Char('a') => ScmCmd::StageAll,
            Key::Char('u') => ScmCmd::UnstageAll,
            Key::Char('r') => ScmCmd::Refresh,
            Key::Char('i') => ScmCmd::ToggleTheme,
            Key::Char('A') => ScmCmd::SuggestMessage,
            Key::Char('s') => ScmCmd::OpenSettings,
            Key::Char('S') => ScmCmd::SyncChanges,
            Key::Char('1') => ScmCmd::SwitchTo(state::View::Explorer),
            Key::Char('2') => ScmCmd::SwitchTo(state::View::SourceControl),
            _ => ScmCmd::Nothing,
        },
    }
}

// ---------------------------------------------------------------------------
// Clicks
// ---------------------------------------------------------------------------

/// Click zones from the last draw.
#[derive(Clone, Copy, PartialEq, Eq, Debug, Default)]
pub struct ClickZones {
    pub activity_row: u16,
    pub explorer: (u16, u16),
    pub source_control: (u16, u16),
    /// The settings button (activity bar in unified mode, header otherwise).
    pub gear: Rect,
    pub message: Rect,
    pub sparkle: Rect,
    pub button: Rect,
    /// The Sync Changes row (zero-sized when hidden).
    pub sync: Rect,
}

/// A fixed control a click can land on.
#[derive(Clone, Copy, PartialEq, Eq, Debug, Structural)]
pub enum Zone {
    Explorer,
    SourceControl,
    Settings,
    Suggest,
    Message,
    Commit,
    Sync,
}

pub open spec fn zone_at_spec(z: ClickZones, merged: bool, x: u16, y: u16) -> Option<Zone> {
    if merged && y == z.activity_row && z.explorer.0 <= x < z.explorer.1 {
        Some(Zone::Explorer)
    } else if merged && y == z.activity_row && z.source_control.0 <= x < z.source_control.1 {
        Some(Zone::SourceControl)
    } else if hits_spec(z.gear, x, y) {
        Some(Zone::Settings)
    } else if hits_spec(z.sparkle, x, y) {
        Some(Zone::Suggest)
    } else if hits_spec(z.message, x, y) {
        Some(Zone::Message)
    } else if hits_spec(z.button, x, y) {
        Some(Zone::Commit)
    } else if hits_spec(z.sync, x, y) {
        Some(Zone::Sync)
    } else {
        None
    }
}

/// The fixed control under a left click, tried in order: the activity bar
/// icons (unified mode only), the settings button, the suggest button, the
/// message box, the commit button and the sync row.
pub fn zone_at(z: ClickZones, merged: bool, x: u16, y: u16) -> (r: Option<Zone>)
    ensures
        r == zone_at_spec(z, merged, x, y),
{
    if merged && y == z.activity_row {
        if within(x, z.explorer) {
            return Some(Zone::Explorer);
        }
        if within(x, z.source_control) {
            return Some(Zone::SourceControl);
        }
    }
    if hits(z.gear, x, y) {
        Some(Zone::Settings)
    } else if hits(z.sparkle, x, y) {
        Some(Zone::Suggest)
    } else if hits(z.message, x, y) {
        Some(Zone::Message)
    } else if hits(z.button, x, y) {
        Some(Zone::Commit)
    } else if hits(z.sync, x, y) {
        Some(Zone::Sync)
    } else {
        None
    }
}

/// What a left click lands on: a fixed control, or else a list row.
#[derive(Clone, Copy, PartialEq, Eq, Debug)]
pub enum ScmClick {
    Nothing,
    Zone(Zone),
    Row(RowClick),
}

pub open spec fn left_click_spec(
    z: ClickZones,
    merged: bool,
    rows: Seq<Row>,
    body: BodyGeom,
    width: u16,
    x: u16,
    y: u16,
) -> ScmClick {
    match zone_at_spec(z, merged, x, y) {
        Some(zone) => ScmClick::Zone(zone),
        None => match row_hit_spec(rows, body, y) {
            Some((index, line)) => ScmClick::Row(row_click_spec(rows[index as int], index, line, x, width)),
            None => ScmClick::Nothing,
        },
    }
}

/// A left click at (x, y): the fixed controls first, then the row (and the
/// line within it) under the pointer.
pub fn left_click(
    z: ClickZones,
    merged: bool,
    rows: &Vec<Row>,
    body: BodyGeom,
    width: u16,
    x: u16,
    y: u16,
) -> (r: ScmClick)
    ensures
        r == left_click_spec(z, merged, rows@, body, width, x, y),
{
    if let Some(zone) = zone_at(z, merged, x, y) {
        return ScmClick::Zone(zone);
    }
    match row_hit(rows, body, y) {
        Some((index, line)) => {
            let n = rows.len();
            proof {
                assert(rows@.len() == n);
                lemma_hit_in_range(rows@, body.offset as int, body.top as int, y as int);
            }
            ScmClick::Row(row_click(rows[index], index, line, x, width))
        },
        None => ScmClick::Nothing,
    }
}

/// A hit names a row of the list.
pub proof fn lemma_hit_in_range(rows: Seq<Row>, k: int, y: int, m: int)
    requires
        rows.len() <= usize::MAX,
    ensures
        hit_from(rows, k, y, m) matches Some((i, _)) ==> k <= i < rows.len(),
    decreases rows.len() - k,
{
    if 0 <= k < rows.len() && !(m < y + row_height_spec(rows[k])) {
        lemma_hit_in_range(rows, k + 1, y + row_height_spec(rows[k]), m);
    }
}

/// What a mouse event asks of the list when no overlay is open.
#[derive(Clone, Copy, PartialEq, Eq, Debug)]
pub enum ScmMouse {
    Nothing,
    /// Remember the hovered row (or none).
    Hover(Option<usize>),
    MoveBy(isize),
    Click(ScmClick),
    /// Open the file context menu at this cell.
    ContextMenu(u16, u16),
}

/// One mouse event with no overlay open: hovering tracks the row under the
/// pointer, the wheel moves three rows, a left click goes through
/// `left_click`, a right click opens the context menu.
pub fn scm_mouse(
    z: ClickZones,
    merged: bool,
    rows: &Vec<Row>,
    body: BodyGeom,
    width: u16,
    m: Mouse,
) -> (r: ScmMouse)
    ensures
        r == match m.kind {
            MouseKind::Moved => ScmMouse::Hover(
                match row_hit_spec(rows@, body, m.row) {
                    Some((i, _)) => Some(i),
                    None => None,
                },
            ),
            MouseKind::ScrollUp => ScmMouse::MoveBy(-3isize),
            MouseKind::ScrollDown => ScmMouse::MoveBy(3isize),
            MouseKind::LeftDown => ScmMouse::Click(left_click_spec(z, merged, rows@, body, width, m.column, m.row)),
            MouseKind::RightDown => ScmMouse::ContextMenu(m.column, m.row),
            MouseKind::Other => ScmMouse::Nothing,
        },
{
    match m.kind {
        MouseKind::Moved => ScmMouse::Hover(
            match row_hit(rows, body, m.row) {
                Some((i, _)) => Some(i),
                None => None,
            },
        ),
        MouseKind::ScrollUp => ScmMouse::MoveBy(-3),
        MouseKind::ScrollDown => ScmMouse::MoveBy(3),
        MouseKind::LeftDown => ScmMouse::Click(left_click(z, merged, rows, body, width, m.column, m.row)),
        MouseKind::RightDown => ScmMouse::ContextMenu(m.column, m.row),
        MouseKind::Other => ScmMouse::Nothing,
    }
}

// ---------------------------------------------------------------------------
// Overlays
// ---------------------------------------------------------------------------

/// A file row of a repository: its index in the staged or the unstaged
/// list, and which list.
#[derive(Clone, Copy, PartialEq, Eq, Debug, Structural)]
pub struct FileRef {
    pub repo: usize,
    pub file: usize,
    pub staged: bool,
}

/// A modal layered over the list; while one is open it owns the input.
#[derive(Clone, Debug, PartialEq, Eq)]
pub enum ScmOverlay {
    /// The context menu of a file row.
    Menu { x: u16, y: u16, target: FileRef, entries: Vec<MenuEntry>, selected: usize, rect: Rect },
    /// "Discard changes to this file?" for an unstaged file.
    ConfirmDiscard { repo: usize, file: usize },
    Settings { selected: usize, rect: Rect },
}

/// What an overlay event asks of the view.
#[derive(Clone, Copy, PartialEq, Eq, Debug, Structural)]
pub enum ScmOverlayCmd {
    Nothing,
    Close,
    /// Run the selected menu entry.
    Activate,
    ToggleSetting(usize),
    /// Discard the changes to this unstaged file of this repository.
    DiscardConfirmed(usize, usize),
    /// Open the context menu afresh at this cell.
    Reopen(u16, u16),
}

pub open spec fn scm_overlay_key_cmd(ov: ScmOverlay, k: KeyPress) -> ScmOverlayCmd {
    match ov {
        ScmOverlay::Menu { .. } => match k.key {
            Key::Esc => ScmOverlayCmd::Close,
            Key::Enter => ScmOverlayCmd::Activate,
            _ => ScmOverlayCmd::Nothing,
        },
        ScmOverlay::Settings { selected, .. } => match k.key {
            Key::Esc | Key::Char('q') | Key::Char('s') => ScmOverlayCmd::Close,
            Key::Enter | Key::Char(' ') => ScmOverlayCmd::ToggleSetting(selected),
            _ => ScmOverlayCmd::Nothing,
        },
        ScmOverlay::ConfirmDiscard { repo, file } => match k.key {
            Key::Char('y') | Key::Char('Y') => ScmOverlayCmd::DiscardConfirmed(repo, file),
            _ => ScmOverlayCmd::Close,
        },
    }
}

pub open spec fn scm_overlay_key_next(ov: ScmOverlay, k: KeyPress, settings_rows: nat) -> ScmOverlay {
    match ov {
        ScmOverlay::Menu { x, y, target, entries, selected, rect } => ScmOverlay::Menu {
            x,
            y,
            target,
            entries,
            selected: match k.key {
                Key::Up | Key::Char('k') => step_spec(flags_spec(entries@), selected as int, -1) as usize,
                Key::Down | Key::Char('j') => step_spec(flags_spec(entries@), selected as int, 1) as usize,
                _ => selected,
            },
            rect,
        },
        ScmOverlay::Settings { selected, rect } => ScmOverlay::Settings {
            selected: match k.key {
                Key::Up | Key::Char('k') => if selected >= 1 {
                    (selected - 1) as usize
                } else {
                    0
                },
                Key::Down | Key::Char('j') => if selected + 1 < settings_rows {
                    (selected + 1) as usize
                } else if settings_rows >= 1 {
                    (settings_rows - 1) as usize
                } else {
                    0
                },
                _ => selected,
            },
            rect,
        },
        _ => ov,
    }
}

/// A menu's selection sits on an action (never on a separator), or past
/// the end of an empty menu.
pub open spec fn scm_selection_on_action(ov: ScmOverlay) -> bool {
    match ov {
        ScmOverlay::Menu { entries, selected, .. } => selected >= entries.len() || is_action_entry(
            entries@[selected as int],
        ),
        _ => true,
    }
}

/// One key while an overlay is open. Menu: Esc closes, arrows/`jk` step
/// over separators, Enter runs the entry. Settings: Esc/`q`/`s` close,
/// arrows/`jk` move, Enter/Space toggle. Discard confirmation: `y`/`Y`
/// discards, anything else cancels.
pub fn scm_overlay_key(ov: &mut ScmOverlay, k: KeyPress, settings_rows: usize) -> (c: ScmOverlayCmd)
    requires
        scm_selection_on_action(*old(ov)),
    ensures
        scm_selection_on_action(*final(ov)),
        c == scm_overlay_key_cmd(*old(ov), k),
        *final(ov) == scm_overlay_key_next(*old(ov), k, settings_rows as nat),
{
    match ov {
        ScmOverlay::Menu { entries, selected, .. } => match k.key {
            Key::Esc => ScmOverlayCmd::Close,
            Key::Up | Key::Char('k') => {
                let next = step_menu(entries.as_slice(), *selected, -1);
                *selected = next;
                ScmOverlayCmd::Nothing
            },
            Key::Down | Key::Char('j') => {
                let next = step_menu(entries.as_slice(), *selected, 1);
                *selected = next;
                ScmOverlayCmd::Nothing
            },
            Key::Enter => ScmOverlayCmd::Activate,
            _ => ScmOverlayCmd::Nothing,
        },
        ScmOverlay::Settings { selected, .. } => match k.key {
            Key::Esc | Key::Char('q') | Key::Char('s') => ScmOverlayCmd::Close,
            Key::Up | Key::Char('k') => {
                *selected = selected.saturating_sub(1);
                ScmOverlayCmd::Nothing
            },
            Key::Down | Key::Char('j') => {
                let last = settings_rows.saturating_sub(1);
                *selected = if *selected < last {
                    *selected + 1
                } else {
                    last
                };
                ScmOverlayCmd::Nothing
            },
            Key::Enter | Key::Char(' ') => ScmOverlayCmd::ToggleSetting(*selected),
            _ => ScmOverlayCmd::Nothing,
        },
        ScmOverlay::ConfirmDiscard { repo, file } => match k.key {
            Key::Char('y') | Key::Char('Y') => ScmOverlayCmd::DiscardConfirmed(*repo, *file),
            _ => ScmOverlayCmd::Close,
        },
    }
}

/// The menu entry under a click inside the menu's border, when it is an
/// action.
pub open spec fn menu_item_at_spec(rect: Rect, entries: Seq<MenuEntry>, row: u16, col: u16) -> Option<
    usize,
> {
    let ix = rect.x + 1;
    let iy = rect.y + 1;
    let iw = if rect.width >= 2 {
        rect.width - 2
    } else {
        0
    };
    let ih = if rect.height >= 2 {
        rect.height - 2
    } else {
        0
    };
    if ix <= col < ix + iw && iy <= row < iy + ih && row - iy < entries.len() && is_action_entry(
        entries[row - iy],
    ) {
        Some((row - iy) as usize)
    } else {
        None
    }
}

pub fn menu_item_at(rect: Rect, entries: &[MenuEntry], row: u16, col: u16) -> (r: Option<usize>)
    ensures
        r == menu_item_at_spec(rect, entries@, row, col),
{
    let ix = rect.x as u32 + 1;
    let iy = rect.y as u32 + 1;
    let iw: u32 = if rect.width >= 2 {
        (rect.width - 2) as u32
    } else {
        0
    };
    let ih: u32 = if rect.height >= 2 {
        (rect.height - 2) as u32
    } else {
        0
    };
    let c = col as u32;
    let rw = row as u32;
    if c >= ix && c < ix + iw && rw >= iy && rw < iy + ih {
        let i = (rw - iy) as usize;
        if i < entries.len() {
            match entries[i] {
                MenuEntry::Action(..) => Some(i),
                MenuEntry::Separator => None,
            }
        } else {
            None
        }
    } else {
        None
    }
}

/// The row or action under the pointer: a settings row, or an action of
/// the menu.
pub open spec fn scm_overlay_item_at(ov: ScmOverlay, m: Mouse, settings_rows: nat) -> Option<usize> {
    match ov {
        ScmOverlay::Settings { rect, .. } => settings_row_at_spec(rect, settings_rows, m.row, m.column),
        ScmOverlay::Menu { rect, entries, .. } => menu_item_at_spec(rect, entries@, m.row, m.column),
        _ => None,
    }
}

pub open spec fn scm_overlay_mouse_cmd(ov: ScmOverlay, m: Mouse, settings_rows: nat) -> ScmOverlayCmd {
    let item = scm_overlay_item_at(ov, m, settings_rows);
    match ov {
        ScmOverlay::Settings { rect, .. } => match m.kind {
            MouseKind::LeftDown => match item {
                Some(i) => ScmOverlayCmd::ToggleSetting(i),
                None => if hits_spec(rect, m.column, m.row) {
                    ScmOverlayCmd::Nothing
                } else {
                    ScmOverlayCmd::Close
                },
            },
            _ => ScmOverlayCmd::Nothing,
        },
        ScmOverlay::Menu { .. } => match m.kind {
            MouseKind::LeftDown => match item {
                Some(_) => ScmOverlayCmd::Activate,
                None => ScmOverlayCmd::Close,
            },
            MouseKind::RightDown => ScmOverlayCmd::Reopen(m.column, m.row),
            _ => ScmOverlayCmd::Nothing,
        },
        _ => ScmOverlayCmd::Nothing,
    }
}

pub open spec fn scm_overlay_mouse_next(ov: ScmOverlay, m: Mouse, settings_rows: nat) -> ScmOverlay {
    match (m.kind, scm_overlay_item_at(ov, m, settings_rows)) {
        (MouseKind::Moved, Some(i)) | (MouseKind::LeftDown, Some(i)) => match ov {
            ScmOverlay::Menu { x, y, target, entries, rect, .. } => ScmOverlay::Menu {
                x,
                y,
                target,
                entries,
                selected: i,
                rect,
            },
            ScmOverlay::Settings { rect, .. } => ScmOverlay::Settings { selected: i, rect },
            _ => ov,
        },
        _ => ov,
    }
}

/// One mouse event while an overlay is open. Settings and menu: hovering
/// selects the item under the pointer; a click on an item runs it; a click
/// outside the popup closes it (on the settings popup's border it does
/// nothing); a right click reopens the menu where it landed. The discard
/// confirmation ignores the mouse.
pub fn scm_overlay_mouse(ov: &mut ScmOverlay, m: Mouse, settings_rows: usize) -> (c: ScmOverlayCmd)
    requires
        settings_rows <= u16::MAX,
    ensures
        scm_selection_on_action(*old(ov)) ==> scm_selection_on_action(*final(ov)),
        c == scm_overlay_mouse_cmd(*old(ov), m, settings_rows as nat),
        *final(ov) == scm_overlay_mouse_next(*old(ov), m, settings_rows as nat),
{
    match ov {
        ScmOverlay::Settings { selected, rect } => match m.kind {
            MouseKind::Moved => {
                if let Some(i) = settings_row_at(*rect, settings_rows, m.row, m.column) {
                    *selected = i;
                }
                ScmOverlayCmd::Nothing
            },
            MouseKind::LeftDown => match settings_row_at(*rect, settings_rows, m.row, m.column) {
                Some(i) => {
                    *selected = i;
                    ScmOverlayCmd::ToggleSetting(i)
                },
                None => if hits(*rect, m.column, m.row) {
                    ScmOverlayCmd::Nothing
                } else {
                    ScmOverlayCmd::Close
                },
            },
            _ => ScmOverlayCmd::Nothing,
        },
        ScmOverlay::Menu { entries, selected, rect, .. } => match m.kind {
            MouseKind::Moved => {
                if let Some(i) = menu_item_at(*rect, entries.as_slice(), m.row, m.column) {
                    *selected = i;
                }
                ScmOverlayCmd::Nothing
            },
            MouseKind::LeftDown => match menu_item_at(*rect, entries.as_slice(), m.row, m.column) {
                Some(i) => {
                    *selected = i;
                    ScmOverlayCmd::Activate
                },
                None => ScmOverlayCmd::Close,
            },
            MouseKind::RightDown => ScmOverlayCmd::Reopen(m.column, m.row),
            _ => ScmOverlayCmd::Nothing,
        },
        _ => ScmOverlayCmd::Nothing,
    }
}

/// The settings popup's rows: the unified sidebar (toggleable only when
/// the other view is available) and the icon theme.
pub fn scm_settings_rows(merged: bool, other_available: bool, theme: IconTheme) -> (r: Vec<SettingRow>)
    ensures
        r@.len() == 2,
        r@[0].setting == Setting::UnifiedSidebar && r@[0].label@ == "Unified sidebar"@ && r@[0].value@
            == (if merged {
            "on"@
        } else {
            "off"@
        }) && r@[0].enabled == other_available,
        r@[1].setting == Setting::IconTheme && r@[1].label@ == "Icon theme"@ && r@[1].value@
            == crate::icons::theme_name_spec(theme) && r@[1].enabled,
{
    let mut r: Vec<SettingRow> = Vec::new();
    r.push(
        SettingRow {
            setting: Setting::UnifiedSidebar,
            label: "Unified sidebar",
            value: if merged {
                "on"
            } else {
                "off"
            },
            enabled: other_available,
        },
    );
    r.push(SettingRow { setting: Setting::IconTheme, label: "Icon theme", value: theme.state_name(), enabled: true });
    r
}

/// The file a row names, for its context menu: staged and unstaged file
/// rows only (headers and drawer lines have no menu).
pub open spec fn file_ref_spec(row: Row) -> Option<FileRef> {
    match row {
        Row::Staged(r, i) => Some(FileRef { repo: r, file: i, staged: true }),
        Row::Unstaged(r, i) => Some(FileRef { repo: r, file: i, staged: false }),
        _ => None,
    }
}

/// The context menu for `row`, opened at (x, y) with its first entry
/// selected, or nothing for a row without one.
pub fn context_menu(row: Row, x: u16, y: u16) -> (r: Option<ScmOverlay>)
    ensures
        match file_ref_spec(row) {
            Some(f) => (r matches Some(ScmOverlay::Menu { x: x2, y: y2, target, entries, selected, rect })
                && x2 == x && y2 == y && target == f && entries@.map_values(|e: MenuEntry| menu_entry_view(e))
                == file_menu_spec(f.staged) && selected == 0 && rect == Rect { x: 0, y: 0, width: 0, height: 0 }),
            None => r is None,
        },
{
    let target = match row {
        Row::Staged(r, i) => FileRef { repo: r, file: i, staged: true },
        Row::Unstaged(r, i) => FileRef { repo: r, file: i, staged: false },
        _ => return None,
    };
    Some(
        ScmOverlay::Menu {
            x,
            y,
            target,
            entries: file_menu(target.staged),
            selected: 0,
            rect: Rect { x: 0, y: 0, width: 0, height: 0 },
        },
    )
}

/// The footer's key hints: the list keys, then the view switch keys when
/// both views share the pane.
pub open spec fn scm_hints_spec(merged: bool) -> Seq<(Seq<char>, Seq<char>)> {
    seq![
        ("⏎"@, "stage"@),
        ("a"@, "all"@),
        ("u"@, "none"@),
        ("c"@, "msg"@),
        ("A"@, "suggest"@),
        ("S"@, "sync"@),
        ("s"@, "settings"@),
        ("r"@, "refresh"@),
        ("q"@, "quit"@),
    ] + if merged {
        seq![("1"@, "files"@), ("2"@, "git"@)]
    } else {
        Seq::empty()
    }
}

pub fn scm_hints(merged: bool) -> (r: Vec<(&'static str, &'static str)>)
    ensures
        r@.map_values(|h: (&'static str, &'static str)| (h.0@, h.1@)) == scm_hints_spec(merged),
{
    let mut r: Vec<(&'static str, &'static str)> = Vec::new();
    r.push(("⏎", "stage"));
    r.push(("a", "all"));
    r.push(("u", "none"));
    r.push(("c", "msg"));
    r.push(("A", "suggest"));
    r.push(("S", "sync"));
    r.push(("s", "settings"));
    r.push(("r", "refresh"));
    r.push(("q", "quit"));
    if merged {
        r.push(("1", "files"));
        r.push(("2", "git"));
    }
    assert(r@.map_values(|h: (&'static str, &'static str)| (h.0@, h.1@)) =~= scm_hints_spec(merged));
    r
}

/// What moving the selection means for the rest of the view.
#[derive(Clone, Copy, PartialEq, Eq, Debug, Structural)]
pub enum Follow {
    /// Nothing to change (drawer rows and the like keep the last file).
    Keep,
    /// The selection entered another repository: make it the active one
    /// and rebuild.
    SwitchRepo(usize),
    /// A file of the active repository is selected: its history is what the
    /// File History drawer shows.
    TrackFile(FileRef),
}

pub open spec fn follow_spec(rows: Seq<Row>, selected: Option<usize>, active: usize, repo_count: usize) -> Follow {
    let row = match selected {
        Some(i) => if i < rows.len() {
            Some(rows[i as int])
        } else {
            None
        },
        None => None,
    };
    match row {
        None => Follow::Keep,
        Some(r) => match row_repo_spec(r) {
            Some(repo) if repo != active && repo < repo_count => Follow::SwitchRepo(repo),
            _ => match file_ref_spec(r) {
                Some(f) => if f.repo == active {
                    Follow::TrackFile(f)
                } else {
                    Follow::Keep
                },
                None => Follow::Keep,
            },
        },
    }
}

/// Following the selection: a row of another (existing) repository makes
/// that repository active; a file row of the active one is tracked for
/// the file history; anything else changes nothing.
pub fn follow_selection(rows: &Vec<Row>, selected: Option<usize>, active: usize, repo_count: usize) -> (r:
    Follow)
    ensures
        r == follow_spec(rows@, selected, active, repo_count),
{
    let row = match selected {
        Some(i) => if i < rows.len() {
            rows[i]
        } else {
            return Follow::Keep;
        },
        None => return Follow::Keep,
    };
    if let Some(repo) = row.repo() {
        if repo != active && repo < repo_count {
            return Follow::SwitchRepo(repo);
        }
    }
    match row {
        Row::Staged(r, i) => if r == active {
            Follow::TrackFile(FileRef { repo: r, file: i, staged: true })
        } else {
            Follow::Keep
        },
        Row::Unstaged(r, i) => if r == active {
            Follow::TrackFile(FileRef { repo: r, file: i, staged: false })
        } else {
            Follow::Keep
        },
        _ => Follow::Keep,
    }
}

/// What Enter (or a click on a header) does to the selected row.
#[derive(Clone, Copy, PartialEq, Eq, Debug, Structural)]
pub enum Activation {
    /// Widget and drawer lines: nothing to activate.
    Nothing,
    /// A fold flag changed; rebuild the rows.
    Rebuild,
    /// A drawer opened or closed; reload the open drawers, then rebuild.
    ReloadDrawers,
    /// Unstage this staged file.
    Unstage(FileRef),
    /// Stage this unstaged file.
    Stage(FileRef),
}

/// Activating `row`: a repo, staged or changes header folds or unfolds
/// that part of its repository, a drawer header opens or closes the
/// drawer, and a file row is staged or unstaged. Headers of repositories
/// or drawers that do not exist change nothing.
pub fn activate_row(repos: &mut Vec<Repo>, drawers: &mut Vec<DrawerState>, row: Row) -> (a: Activation)
    ensures
        final(repos)@.len() == old(repos)@.len(),
        final(drawers)@.len() == old(drawers)@.len(),
        forall|k: int| 0 <= k < old(repos)@.len() ==> {
            let (o, n) = (#[trigger] old(repos)@[k], final(repos)@[k]);
            &&& n.collapsed == (o.collapsed != (row == Row::RepoHeader(k as usize)))
            &&& n.staged_collapsed == (o.staged_collapsed != (row == Row::StagedHeader(k as usize)))
            &&& n.changes_collapsed == (o.changes_collapsed != (row == Row::ChangesHeader(k as usize)))
            &&& n.name == o.name && n.branch == o.branch && n.staged == o.staged && n.unstaged == o.unstaged
            &&& n.has_upstream == o.has_upstream && n.ahead == o.ahead && n.behind == o.behind
            &&& n.message == o.message
        },
        forall|k: int| 0 <= k < old(drawers)@.len() ==> {
            let (o, n) = (#[trigger] old(drawers)@[k], final(drawers)@[k]);
            &&& n.expanded == (o.expanded != (row matches Row::DrawerHeader(d) && drawer_index_spec(d) == k))
            &&& n.lines == o.lines
        },
        a == match row {
            Row::RepoHeader(r) | Row::StagedHeader(r) | Row::ChangesHeader(r) => if r < old(repos)@.len() {
                Activation::Rebuild
            } else {
                Activation::Nothing
            },
            Row::DrawerHeader(d) => if drawer_index_spec(d) < old(drawers)@.len() {
                Activation::ReloadDrawers
            } else {
                Activation::Nothing
            },
            Row::Staged(r, i) => Activation::Unstage(FileRef { repo: r, file: i, staged: true }),
            Row::Unstaged(r, i) => Activation::Stage(FileRef { repo: r, file: i, staged: false }),
            _ => Activation::Nothing,
        },
{
    match row {
        Row::RepoHeader(r) | Row::StagedHeader(r) | Row::ChangesHeader(r) => {
            if r >= repos.len() {
                return Activation::Nothing;
            }
            let mut repo = repos.remove(r);
            match row {
                Row::RepoHeader(_) => repo.collapsed = !repo.collapsed,
                Row::StagedHeader(_) => repo.staged_collapsed = !repo.staged_collapsed,
                _ => repo.changes_collapsed = !repo.changes_collapsed,
            }
            repos.insert(r, repo);
            Activation::Rebuild
        },
        Row::DrawerHeader(d) => {
            let i = d.index();
            if i >= drawers.len() {
                return Activation::Nothing;
            }
            let mut state = drawers[i];
            state.expanded = !state.expanded;
            drawers.set(i, state);
            Activation::ReloadDrawers
        },
        Row::Staged(r, i) => Activation::Unstage(FileRef { repo: r, file: i, staged: true }),
        Row::Unstaged(r, i) => Activation::Stage(FileRef { repo: r, file: i, staged: false }),
        _ => Activation::Nothing,
    }
}

} // verus!
