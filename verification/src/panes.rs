//! herdr's pane listings as the panels read them: the panes of a
//! `pane.list` response (ids, tabs, labels and metadata tokens) and the
//! rectangles of a `pane.layout` response, with the lookups every view
//! shares.

use vstd::prelude::*;

use crate::json::{find_member, member_of, str_of, Json, Member};
use crate::seqs::{first_where, lemma_first_where_is, lemma_first_where_none};
use crate::text::{chars_of, eq_strings, owned, parse_u64, parse_u64_spec};

verus! {

/// One pane of a `pane.list` response.
pub struct ListedPane {
    pub pane_id: Option<String>,
    pub label: Option<String>,
    pub tab_id: Option<String>,
    pub workspace_id: Option<String>,
    pub focused: bool,
    /// The metadata tokens reported on the pane.
    pub tokens: Vec<Member>,
}

/// A pane's rectangle in a `pane.layout` response.
pub struct PaneRect {
    pub x: i64,
    pub y: i64,
    pub width: i64,
    pub height: i64,
}

/// One pane of a `pane.layout` response.
pub struct PlacedPane {
    pub pane_id: Option<String>,
    pub rect: Option<PaneRect>,
}

/// An optional string that is present and equal to `s`.
pub open spec fn opt_is(o: Option<String>, s: Seq<char>) -> bool {
    o matches Some(x) && x@ == s
}

pub fn opt_eq(o: &Option<String>, s: &str) -> (r: bool)
    ensures
        r == opt_is(*o, s@),
{
    match o {
        Some(x) => eq_strings(x.as_str(), s),
        None => false,
    }
}

/// An optional string viewed as characters, empty when absent.
pub open spec fn or_empty(o: Option<String>) -> Seq<char> {
    match o {
        Some(x) => x@,
        None => Seq::empty(),
    }
}

pub open spec fn has_id(id: Seq<char>) -> spec_fn(ListedPane) -> bool {
    |p: ListedPane| opt_is(p.pane_id, id)
}

/// The pane carries a token named `key`.
pub open spec fn has_token(p: ListedPane, key: Seq<char>) -> bool {
    member_of(p.tokens@, key) is Some
}

pub fn token<'a>(p: &'a ListedPane, key: &str) -> (r: Option<&'a Json>)
    ensures
        crate::json::deref_opt(r) == member_of(p.tokens@, key@),
{
    find_member(&p.tokens, key)
}

/// The index of the first pane with id `id`.
pub fn find_pane(ps: &Vec<ListedPane>, id: &str) -> (r: Option<usize>)
    ensures
        match r {
            Some(i) => i < ps.len() && first_where(ps@, has_id(id@)) == Some(i as int),
            None => first_where(ps@, has_id(id@)) is None,
        },
{
    let ghost p = has_id(id@);
    let mut i: usize = 0;
    while i < ps.len()
        invariant
            0 <= i <= ps.len(),
            p == has_id(id@),
            forall|j: int| 0 <= j < i ==> !p(#[trigger] ps@[j]),
        decreases ps.len() - i,
    {
        if opt_eq(&ps[i].pane_id, id) {
            proof {
                assert(p(ps@[i as int]));
                lemma_first_where_is(ps@, p, i as int);
            }
            return Some(i);
        }
        i += 1;
    }
    proof {
        lemma_first_where_none(ps@, p);
    }
    None
}

/// The tab of the first pane with id `id`, when it is listed with one.
pub open spec fn tab_of_pane_spec(ps: Seq<ListedPane>, id: Seq<char>) -> Option<Seq<char>> {
    match first_where(ps, has_id(id)) {
        Some(i) => match ps[i].tab_id {
            Some(t) => Some(t@),
            None => None,
        },
        None => None,
    }
}

pub fn tab_of_pane(ps: &Vec<ListedPane>, id: &str) -> (r: Option<String>)
    ensures
        match r {
            Some(t) => tab_of_pane_spec(ps@, id@) == Some(t@),
            None => tab_of_pane_spec(ps@, id@) is None,
        },
{
    match find_pane(ps, id) {
        Some(i) => match &ps[i].tab_id {
            Some(t) => Some(owned(t.as_str())),
            None => None,
        },
        None => None,
    }
}

/// The tab of pane `id` as text, empty when the listing did not parse or
/// does not place the pane in a tab.
pub open spec fn tab_of_spec(panes: Option<Seq<ListedPane>>, id: Seq<char>) -> Seq<char> {
    match panes {
        Some(ps) => match tab_of_pane_spec(ps, id) {
            Some(t) => t,
            None => Seq::empty(),
        },
        None => Seq::empty(),
    }
}

pub fn tab_of(panes: Option<&Vec<ListedPane>>, id: &str) -> (r: String)
    ensures
        r@ == tab_of_spec(
            match panes {
                Some(v) => Some(v@),
                None => None,
            },
            id@,
        ),
{
    match panes {
        Some(ps) => match tab_of_pane(ps, id) {
            Some(t) => t,
            None => String::new(),
        },
        None => String::new(),
    }
}

/// The workspace of pane `id` as text, empty when unknown.
pub open spec fn workspace_of_spec(panes: Option<Seq<ListedPane>>, id: Seq<char>) -> Seq<char> {
    match panes {
        Some(ps) => match first_where(ps, has_id(id)) {
            Some(i) => or_empty(ps[i].workspace_id),
            None => Seq::empty(),
        },
        None => Seq::empty(),
    }
}

pub fn workspace_of(panes: Option<&Vec<ListedPane>>, id: &str) -> (r: String)
    ensures
        r@ == workspace_of_spec(
            match panes {
                Some(v) => Some(v@),
                None => None,
            },
            id@,
        ),
{
    let ps = match panes {
        Some(ps) => ps,
        None => return String::new(),
    };
    match find_pane(ps, id) {
        Some(i) => match &ps[i].workspace_id {
            Some(w) => owned(w.as_str()),
            None => String::new(),
        },
        None => String::new(),
    }
}

pub open spec fn is_focused_pane() -> spec_fn(ListedPane) -> bool {
    |p: ListedPane| p.focused
}

/// The tab of the first focused pane as text, empty when there is none.
pub open spec fn focused_tab_spec(panes: Option<Seq<ListedPane>>) -> Seq<char> {
    match panes {
        Some(ps) => match first_where(ps, is_focused_pane()) {
            Some(i) => or_empty(ps[i].tab_id),
            None => Seq::empty(),
        },
        None => Seq::empty(),
    }
}

pub fn focused_tab(panes: Option<&Vec<ListedPane>>) -> (r: String)
    ensures
        r@ == focused_tab_spec(
            match panes {
                Some(v) => Some(v@),
                None => None,
            },
        ),
{
    let ps = match panes {
        Some(ps) => ps,
        None => return String::new(),
    };
    let ghost p = is_focused_pane();
    let mut i: usize = 0;
    while i < ps.len()
        invariant
            0 <= i <= ps.len(),
            panes == Some(ps),
            p == is_focused_pane(),
            forall|j: int| 0 <= j < i ==> !p(#[trigger] ps@[j]),
        decreases ps.len() - i,
    {
        if ps[i].focused {
            proof {
                assert(p(ps@[i as int]));
                lemma_first_where_is(ps@, p, i as int);
            }
            return match &ps[i].tab_id {
                Some(t) => owned(t.as_str()),
                None => String::new(),
            };
        }
        i += 1;
    }
    proof {
        lemma_first_where_none(ps@, p);
    }
    String::new()
}

// ---------------------------------------------------------------------------
// The preview pane of a tab
// ---------------------------------------------------------------------------

/// A preview pane in tab `tab`: it carries the `source` token, or (when
/// `by_label`) it is labelled `Preview`.
pub open spec fn is_viewer_in(tab: Seq<char>, source: Seq<char>, by_label: bool) -> spec_fn(
    ListedPane,
) -> bool {
    |p: ListedPane|
        opt_is(p.tab_id, tab) && (has_token(p, source) || (by_label && opt_is(p.label, "Preview"@)))
}

/// The index of the first preview pane in the tab of pane `my`.
pub open spec fn viewer_index_spec(ps: Seq<ListedPane>, my: Seq<char>, source: Seq<char>, by_label: bool)
    -> Option<int> {
    match tab_of_pane_spec(ps, my) {
        Some(t) => first_where(ps, is_viewer_in(t, source, by_label)),
        None => None,
    }
}

pub fn viewer_index(ps: &Vec<ListedPane>, my: &str, source: &str, by_label: bool) -> (r: Option<
    usize,
>)
    ensures
        match r {
            Some(i) => i < ps.len() && viewer_index_spec(ps@, my@, source@, by_label) == Some(i as int),
            None => viewer_index_spec(ps@, my@, source@, by_label) is None,
        },
{
    let t = match tab_of_pane(ps, my) {
        Some(t) => t,
        None => return None,
    };
    let ghost p = is_viewer_in(t@, source@, by_label);
    let mut i: usize = 0;
    while i < ps.len()
        invariant
            0 <= i <= ps.len(),
            tab_of_pane_spec(ps@, my@) == Some(t@),
            p == is_viewer_in(t@, source@, by_label),
            forall|j: int| 0 <= j < i ==> !p(#[trigger] ps@[j]),
        decreases ps.len() - i,
    {
        let q = &ps[i];
        let hit = opt_eq(&q.tab_id, t.as_str()) && (token(q, source).is_some() || (by_label && opt_eq(
            &q.label,
            "Preview",
        )));
        if hit {
            proof {
                assert(p(ps@[i as int]));
                lemma_first_where_is(ps@, p, i as int);
            }
            return Some(i);
        }
        assert(!p(ps@[i as int]));
        i += 1;
    }
    proof {
        lemma_first_where_none(ps@, p);
    }
    None
}

// ---------------------------------------------------------------------------
// Heartbeats
// ---------------------------------------------------------------------------

/// A heartbeat token older than this many seconds marks its pane dead.
pub const HEARTBEAT_STALE_SECS: u64 = 15;

/// Whether a heartbeat token says its pane is dead at `now`: a token that
/// is missing, not a string, or not a number of seconds counts as dead;
/// otherwise the pane is dead once the stamp is more than
/// `HEARTBEAT_STALE_SECS` old (a stamp from the future is fresh).
pub open spec fn stale_spec(now: u64, token: Option<Json>) -> bool {
    match str_of(token) {
        Some(s) => match parse_u64_spec(s) {
            Some(ts) => (if now >= ts {
                now - ts
            } else {
                0
            }) > HEARTBEAT_STALE_SECS,
            None => true,
        },
        None => true,
    }
}

pub fn is_stale(now: u64, token: Option<&Json>) -> (r: bool)
    ensures
        r == stale_spec(now, crate::json::deref_opt(token)),
{
    match token {
        Some(Json::Str(s)) => {
            let v = chars_of(s.as_str());
            match parse_u64(&v) {
                Some(ts) => now.saturating_sub(ts) > HEARTBEAT_STALE_SECS,
                None => true,
            }
        },
        _ => true,
    }
}

// ---------------------------------------------------------------------------
// Layout
// ---------------------------------------------------------------------------

pub open spec fn placed_id(id: Seq<char>) -> spec_fn(PlacedPane) -> bool {
    |p: PlacedPane| opt_is(p.pane_id, id)
}

/// `q` sits directly right of `me`: its left edge is `me`'s right edge and
/// the two overlap vertically.
pub open spec fn right_of(me: PaneRect, q: PaneRect) -> bool {
    &&& q.x == me.x + me.width
    &&& q.y < me.y + me.height
    &&& q.y + q.height > me.y
}

/// A pane other than `id`, with an id and a rectangle, directly right of
/// `me`.
pub open spec fn is_right_neighbor(id: Seq<char>, me: PaneRect) -> spec_fn(PlacedPane) -> bool {
    |p: PlacedPane|
        {
            &&& p.pane_id matches Some(pid) && pid@ != id
            &&& p.rect matches Some(r) && right_of(me, r)
        }
}

/// The first pane directly to the right of pane `id`, from a parsed
/// `pane.layout` (`None` when it did not parse, or `id` is not laid out).
pub open spec fn right_neighbor_spec(layout: Option<Seq<PlacedPane>>, id: Seq<char>) -> Option<
    Seq<char>,
> {
    match layout {
        None => None,
        Some(ps) => match first_where(ps, placed_id(id)) {
            None => None,
            Some(m) => match ps[m].rect {
                None => None,
                Some(me) => match first_where(ps, is_right_neighbor(id, me)) {
                    Some(k) => Some(ps[k].pane_id->0@),
                    None => None,
                },
            },
        },
    }
}

fn find_placed(ps: &Vec<PlacedPane>, id: &str) -> (r: Option<usize>)
    ensures
        match r {
            Some(i) => i < ps.len() && first_where(ps@, placed_id(id@)) == Some(i as int),
            None => first_where(ps@, placed_id(id@)) is None,
        },
{
    let ghost p = placed_id(id@);
    let mut i: usize = 0;
    while i < ps.len()
        invariant
            0 <= i <= ps.len(),
            p == placed_id(id@),
            forall|j: int| 0 <= j < i ==> !p(#[trigger] ps@[j]),
        decreases ps.len() - i,
    {
        if opt_eq(&ps[i].pane_id, id) {
            proof {
                assert(p(ps@[i as int]));
                lemma_first_where_is(ps@, p, i as int);
            }
            return Some(i);
        }
        i += 1;
    }
    proof {
        lemma_first_where_none(ps@, p);
    }
    None
}

fn is_right_of(me: &PaneRect, q: &PaneRect) -> (r: bool)
    ensures
        r == right_of(*me, *q),
{
    let right = me.x as i128 + me.width as i128;
    let bottom = me.y as i128 + me.height as i128;
    let q_bottom = q.y as i128 + q.height as i128;
    q.x as i128 == right && (q.y as i128) < bottom && q_bottom > me.y as i128
}

pub fn right_neighbor(layout: Option<&Vec<PlacedPane>>, id: &str) -> (r: Option<String>)
    ensures
        match r {
            Some(n) => right_neighbor_spec(
                match layout {
                    Some(v) => Some(v@),
                    None => None,
                },
                id@,
            ) == Some(n@),
            None => right_neighbor_spec(
                match layout {
                    Some(v) => Some(v@),
                    None => None,
                },
                id@,
            ) is None,
        },
{
    let ps = match layout {
        Some(ps) => ps,
        None => return None,
    };
    let m = match find_placed(ps, id) {
        Some(m) => m,
        None => return None,
    };
    let me = match &ps[m].rect {
        Some(r) => r,
        None => return None,
    };
    let ghost p = is_right_neighbor(id@, *me);
    let mut k: usize = 0;
    while k < ps.len()
        invariant
            0 <= k <= ps.len(),
            layout == Some(ps),
            m < ps.len(),
            first_where(ps@, placed_id(id@)) == Some(m as int),
            ps@[m as int].rect == Some(*me),
            p == is_right_neighbor(id@, *me),
            forall|j: int| 0 <= j < k ==> !p(#[trigger] ps@[j]),
        decreases ps.len() - k,
    {
        let q = &ps[k];
        let hit = match (&q.pane_id, &q.rect) {
            (Some(pid), Some(r)) => !eq_strings(pid.as_str(), id) && is_right_of(me, r),
            _ => false,
        };
        if hit {
            proof {
                assert(p(ps@[k as int]));
                lemma_first_where_is(ps@, p, k as int);
            }
            return match &q.pane_id {
                Some(pid) => Some(owned(pid.as_str())),
                None => None,
            };
        }
        assert(!p(ps@[k as int]));
        k += 1;
    }
    proof {
        lemma_first_where_none(ps@, p);
    }
    None
}

} // verus!
