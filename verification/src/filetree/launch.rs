//! The launcher decisions behind the open-explorer scripts, over parsed
//! `pane list` / `pane layout` responses: toggle (open, focus or close),
//! the focused pane and its cwd, and the left-dock split plan. Every pane id
//! that reaches an output is checked to be safe as a positional argument.

use vstd::prelude::*;

use crate::seqs::{first_where, lemma_first_where, lemma_first_where_is, lemma_first_where_none};
use crate::text::{
    ascii_alnum, ascii_char, chars_of, eq_strings, is_ascii_alnum, push_char, push_chars,
    push_str, starts_with, strip_prefix,
};

verus! {

/// The pane label the launcher assigns and later looks for.
pub fn pane_label() -> (r: &'static str)
    ensures
        r@ == "Explorer"@,
{
    "Explorer"
}

/// One pane of a `pane list` response.
pub struct Pane {
    pub pane_id: Option<String>,
    pub label: Option<String>,
    pub cwd: Option<String>,
    pub focused: bool,
    pub tab_id: Option<String>,
}

/// A pane's rectangle in a `pane layout` response.
pub struct Rect {
    pub x: i64,
    pub y: i64,
    pub width: i64,
}

/// One pane of a `pane layout` response.
pub struct LayoutPane {
    pub pane_id: Option<String>,
    pub rect: Option<Rect>,
}

pub open spec fn is_flag_char(c: char) -> bool {
    is_ascii_alnum(c) || c == ':' || c == '.' || c == '_' || c == '-'
}

/// Safe as a positional CLI argument: non-empty, not starting with `-`,
/// and made only of ASCII letters, digits, `:`, `.`, `_` and `-`.
pub open spec fn flag_safe(id: Seq<char>) -> bool {
    &&& id.len() > 0
    &&& id[0] != '-'
    &&& forall|i: int| 0 <= i < id.len() ==> is_flag_char(#[trigger] id[i])
}

/// True when the id can be passed as a positional argument to the herdr
/// CLI without any risk of being parsed as a flag.
pub fn is_flag_safe(id: &str) -> (r: bool)
    ensures
        r == flag_safe(id@),
{
    let v = chars_of(id);
    if v.len() == 0 || v[0] == '-' {
        return false;
    }
    let mut i: usize = 0;
    while i < v.len()
        invariant
            0 <= i <= v.len(),
            v@ == id@,
            forall|j: int| 0 <= j < i ==> is_flag_char(#[trigger] v@[j]),
        decreases v.len() - i,
    {
        let c = v[i];
        if !(ascii_alnum(c) || c == ':' || c == '.' || c == '_' || c == '-') {
            assert(!is_flag_char(v@[i as int]));
            return false;
        }
        i += 1;
    }
    true
}

/// The Windows verbatim prefix `\\?\` removed when present.
pub open spec fn strip_verbatim_spec(path: Seq<char>) -> Seq<char> {
    if starts_with(path, "\\\\?\\"@) {
        path.skip("\\\\?\\"@.len() as int)
    } else {
        path
    }
}

pub fn strip_verbatim(path: &str) -> (r: Vec<char>)
    ensures
        r@ == strip_verbatim_spec(path@),
{
    let v = chars_of(path);
    match strip_prefix(&v, "\\\\?\\") {
        Some(rest) => rest,
        None => v,
    }
}

/// Two optional strings are equal (as `Option<&str>` compares them).
pub open spec fn same_opt(a: Option<String>, b: Option<String>) -> bool {
    match (a, b) {
        (None, None) => true,
        (Some(x), Some(y)) => x@ == y@,
        _ => false,
    }
}

pub fn same_opt_str(a: &Option<String>, b: &Option<String>) -> (r: bool)
    ensures
        r == same_opt(*a, *b),
{
    match (a, b) {
        (None, None) => true,
        (Some(x), Some(y)) => eq_strings(x.as_str(), y.as_str()),
        _ => false,
    }
}

pub open spec fn is_focused() -> spec_fn(Pane) -> bool {
    |p: Pane| p.focused
}

/// The pane labelled `Explorer` in the tab `tab` (both tab ids absent also
/// counts as the same tab, as `Option<&str>` equality has it).
pub open spec fn is_explorer_in(tab: Option<String>) -> spec_fn(Pane) -> bool {
    |p: Pane| (p.label matches Some(l) && l@ == "Explorer"@) && same_opt(p.tab_id, tab)
}

/// The toggle decision for a parsed `pane list` (`None` when the response
/// did not parse): `OPEN`, `FOCUS <id>` or `CLOSE <id>`. Only the first
/// focused pane's tab is considered, and the first Explorer there; anything
/// missing or an unsafe id degrades to `OPEN`.
pub open spec fn decision_spec(panes: Option<Seq<Pane>>) -> Seq<char> {
    match panes {
        None => "OPEN"@,
        Some(ps) => match first_where(ps, is_focused()) {
            None => "OPEN"@,
            Some(f) => match first_where(ps, is_explorer_in(ps[f].tab_id)) {
                None => "OPEN"@,
                Some(e) => match ps[e].pane_id {
                    None => "OPEN"@,
                    Some(id) => if !flag_safe(id@) {
                        "OPEN"@
                    } else if ps[f].pane_id matches Some(fid) && fid@ == id@ {
                        "CLOSE "@ + id@
                    } else {
                        "FOCUS "@ + id@
                    },
                },
            },
        },
    }
}

pub open spec fn opt_seq<T>(v: Option<&Vec<T>>) -> Option<Seq<T>> {
    match v {
        Some(v) => Some(v@),
        None => None,
    }
}

/// The index of the first focused pane.
fn first_focused(ps: &Vec<Pane>) -> (r: Option<usize>)
    ensures
        match r {
            Some(i) => i < ps.len() && first_where(ps@, is_focused()) == Some(i as int),
            None => first_where(ps@, is_focused()) is None,
        },
{
    let mut i: usize = 0;
    while i < ps.len()
        invariant
            0 <= i <= ps.len(),
            forall|j: int| 0 <= j < i ==> !is_focused()(#[trigger] ps@[j]),
        decreases ps.len() - i,
    {
        if ps[i].focused {
            proof {
                lemma_first_where_is(ps@, is_focused(), i as int);
            }
            return Some(i);
        }
        i += 1;
    }
    proof {
        lemma_first_where_none(ps@, is_focused());
    }
    None
}

/// The index of the first Explorer pane in tab `tab`.
fn first_explorer(ps: &Vec<Pane>, tab: &Option<String>) -> (r: Option<usize>)
    ensures
        match r {
            Some(i) => i < ps.len() && first_where(ps@, is_explorer_in(*tab)) == Some(i as int),
            None => first_where(ps@, is_explorer_in(*tab)) is None,
        },
{
    let ghost p = is_explorer_in(*tab);
    let mut i: usize = 0;
    while i < ps.len()
        invariant
            0 <= i <= ps.len(),
            p == is_explorer_in(*tab),
            forall|j: int| 0 <= j < i ==> !p(#[trigger] ps@[j]),
        decreases ps.len() - i,
    {
        let labelled = match &ps[i].label {
            Some(l) => eq_strings(l.as_str(), "Explorer"),
            None => false,
        };
        if labelled && same_opt_str(&ps[i].tab_id, tab) {
            proof {
                lemma_first_where_is(ps@, p, i as int);
            }
            return Some(i);
        }
        i += 1;
    }
    proof {
        lemma_first_where_none(ps@, p);
    }
    None
}

/// `OPEN`, `FOCUS <id>`, or `CLOSE <id>` from a parsed `pane list`.
/// Unparseable input, no focused pane, or an unsafe id all degrade to
/// `OPEN` — the safe default is a fresh explorer, never acting on a pane in
/// an unknown tab.
pub fn launch_decision(panes: Option<&Vec<Pane>>) -> (r: String)
    ensures
        r@ == decision_spec(opt_seq(panes)),
{
    let mut out = String::new();
    let ps = match panes {
        Some(ps) => ps,
        None => {
            push_str(&mut out, "OPEN");
            return out;
        },
    };
    let f = match first_focused(ps) {
        Some(f) => f,
        None => {
            push_str(&mut out, "OPEN");
            return out;
        },
    };
    let e = match first_explorer(ps, &ps[f].tab_id) {
        Some(e) => e,
        None => {
            push_str(&mut out, "OPEN");
            return out;
        },
    };
    let id = match &ps[e].pane_id {
        Some(id) if is_flag_safe(id.as_str()) => id,
        _ => {
            push_str(&mut out, "OPEN");
            return out;
        },
    };
    let closes = match &ps[f].pane_id {
        Some(fid) => eq_strings(fid.as_str(), id.as_str()),
        None => false,
    };
    if closes {
        push_str(&mut out, "CLOSE ");
    } else {
        push_str(&mut out, "FOCUS ");
    }
    push_str(&mut out, id.as_str());
    out
}

/// Whatever the pane list holds, the decision is `OPEN` or names a pane by
/// an id that is safe as a positional argument.
pub proof fn lemma_decision_ids_are_flag_safe(panes: Option<Seq<Pane>>)
    ensures
        decision_spec(panes) == "OPEN"@ || exists|id: Seq<char>|
            flag_safe(id) && (decision_spec(panes) == "FOCUS "@ + id || decision_spec(panes)
                == "CLOSE "@ + id),
{
    if let Some(ps) = panes {
        if let Some(f) = first_where(ps, is_focused()) {
            if let Some(e) = first_where(ps, is_explorer_in(ps[f].tab_id)) {
                if let Some(id) = ps[e].pane_id {
                    if flag_safe(id@) {
                        assert(flag_safe(id@) && (decision_spec(panes) == "FOCUS "@ + id@
                            || decision_spec(panes) == "CLOSE "@ + id@));
                    }
                }
            }
        }
    }
}

/// The toggle acts in the focused pane's tab, wherever the panes sit in
/// the list: when the first focused pane is `f` and the first pane labelled
/// `Explorer` in `f`'s tab is `e`, with a flag-safe id, the decision is to
/// close `e` when it is the focused pane itself and to focus it otherwise.
pub proof fn lemma_decision_acts_in_the_focused_tab(ps: Seq<Pane>, f: int, e: int)
    requires
        0 <= f < ps.len(),
        ps[f].focused,
        forall|j: int| 0 <= j < f ==> !(#[trigger] ps[j]).focused,
        0 <= e < ps.len(),
        ps[e].label matches Some(l) && l@ == "Explorer"@,
        same_opt(ps[e].tab_id, ps[f].tab_id),
        forall|j: int|
            0 <= j < e ==> !((#[trigger] ps[j]).label matches Some(l) && l@ == "Explorer"@ && same_opt(
                ps[j].tab_id,
                ps[f].tab_id,
            )),
        ps[e].pane_id matches Some(x) && flag_safe(x@),
    ensures
        decision_spec(Some(ps)) == if ps[f].pane_id matches Some(y) && y@ == ps[e].pane_id->0@ {
            "CLOSE "@ + ps[e].pane_id->0@
        } else {
            "FOCUS "@ + ps[e].pane_id->0@
        },
{
    lemma_first_where_is(ps, is_focused(), f);
    assert forall|j: int| 0 <= j < e implies !is_explorer_in(ps[f].tab_id)(#[trigger] ps[j]) by {
        assert(!(ps[j].label matches Some(l) && l@ == "Explorer"@ && same_opt(ps[j].tab_id, ps[f].tab_id)));
    }
    assert(is_explorer_in(ps[f].tab_id)(ps[e]));
    lemma_first_where_is(ps, is_explorer_in(ps[f].tab_id), e);
}

/// With no focused pane, or no Explorer in the focused pane's tab, the
/// launcher opens a fresh Explorer.
pub proof fn lemma_decision_opens_without_an_explorer_there(ps: Seq<Pane>)
    requires
        forall|f: int| 0 <= f < ps.len() && (#[trigger] ps[f]).focused ==> forall|j: int|
            0 <= j < ps.len() ==> !((#[trigger] ps[j]).label matches Some(l) && l@ == "Explorer"@ && same_opt(
                ps[j].tab_id,
                ps[f].tab_id,
            )),
    ensures
        decision_spec(Some(ps)) == "OPEN"@,
{
    lemma_first_where(ps, is_focused());
    if let Some(f) = first_where(ps, is_focused()) {
        assert forall|j: int| 0 <= j < ps.len() implies !is_explorer_in(ps[f].tab_id)(#[trigger] ps[j]) by {
            assert(ps[f].focused);
        }
        lemma_first_where_none(ps, is_explorer_in(ps[f].tab_id));
    }
}

/// `<pane_id>\t<cwd>` of the first focused pane, empty when the list did
/// not parse, nothing is focused, or its id is missing or unsafe. The cwd
/// loses any `\\?\` verbatim prefix; a missing cwd is empty.
pub open spec fn focused_pane_spec(panes: Option<Seq<Pane>>) -> Seq<char> {
    match panes {
        None => Seq::empty(),
        Some(ps) => match first_where(ps, is_focused()) {
            None => Seq::empty(),
            Some(f) => match ps[f].pane_id {
                Some(id) if flag_safe(id@) => id@.push('\t') + match ps[f].cwd {
                    Some(cwd) => strip_verbatim_spec(cwd@),
                    None => Seq::empty(),
                },
                _ => Seq::empty(),
            },
        },
    }
}

/// `<pane_id>\t<cwd>` of the focused pane, or empty on any failure. The cwd
/// keeps its spaces (hence the tab separator) but loses any `\\?\` verbatim
/// prefix.
pub fn focused_pane(panes: Option<&Vec<Pane>>) -> (r: String)
    ensures
        r@ == focused_pane_spec(opt_seq(panes)),
{
    let mut out = String::new();
    let ps = match panes {
        Some(ps) => ps,
        None => return out,
    };
    let f = match first_focused(ps) {
        Some(f) => f,
        None => return out,
    };
    let id = match &ps[f].pane_id {
        Some(id) if is_flag_safe(id.as_str()) => id,
        _ => return out,
    };
    push_str(&mut out, id.as_str());
    push_char(&mut out, '\t');
    if let Some(cwd) = &ps[f].cwd {
        let stripped = strip_verbatim(cwd.as_str());
        push_chars(&mut out, &stripped);
    }
    out
}

// ---------------------------------------------------------------------------
// The left-dock plan
// ---------------------------------------------------------------------------

/// A layout pane that may host the dock: it has an id that is flag-safe and
/// a rectangle of positive width.
pub open spec fn eligible(p: LayoutPane) -> bool {
    &&& p.pane_id matches Some(id)
    &&& flag_safe(id@)
    &&& p.rect matches Some(r)
    &&& r.width > 0
}

/// `(x, y)` of `a` comes strictly before that of `b` (leftmost, then
/// topmost).
pub open spec fn before(a: Rect, b: Rect) -> bool {
    a.x < b.x || (a.x == b.x && a.y < b.y)
}

/// Pane `i` is the dock target: eligible, no eligible pane lies strictly
/// further left (or as far left and higher), and no earlier eligible pane
/// sits at the same position.
pub open spec fn is_dock_target(ps: Seq<LayoutPane>, i: int) -> bool {
    &&& 0 <= i < ps.len()
    &&& eligible(ps[i])
    &&& forall|j: int|
        0 <= j < ps.len() && eligible(#[trigger] ps[j]) ==> !before(
            ps[j].rect.unwrap(),
            ps[i].rect.unwrap(),
        )
    &&& forall|j: int|
        0 <= j < i && eligible(#[trigger] ps[j]) ==> before(ps[i].rect.unwrap(), ps[j].rect.unwrap())
}

pub open spec fn dock_target(ps: Seq<LayoutPane>) -> Option<int> {
    if exists|i: int| is_dock_target(ps, i) {
        Some(choose|i: int| is_dock_target(ps, i))
    } else {
        None
    }
}

/// There is at most one dock target.
pub proof fn lemma_dock_target_unique(ps: Seq<LayoutPane>, i: int, k: int)
    requires
        is_dock_target(ps, i),
        is_dock_target(ps, k),
    ensures
        i == k,
{
    if i < k {
        assert(eligible(ps[i]));
        assert(before(ps[k].rect.unwrap(), ps[i].rect.unwrap()));
    } else if k < i {
        assert(eligible(ps[k]));
        assert(before(ps[i].rect.unwrap(), ps[k].rect.unwrap()));
    }
}

/// The left-slot share in hundredths for a pane `width` columns wide: the
/// nearest whole hundredth of 32 / width (halves round up), kept within
/// 15..=50.
pub open spec fn ratio_hundredths(width: int) -> int {
    let q = (6400 + width) / (2 * width);
    if q < 15 {
        15
    } else if q > 50 {
        50
    } else {
        q
    }
}

/// `<pane_id>\t0.<hh>` for the dock target, empty when there is none.
pub open spec fn open_plan_spec(panes: Option<Seq<LayoutPane>>) -> Seq<char> {
    match panes {
        None => Seq::empty(),
        Some(ps) => match dock_target(ps) {
            None => Seq::empty(),
            Some(i) => {
                let h = ratio_hundredths(ps[i].rect.unwrap().width as int);
                ps[i].pane_id.unwrap()@ + seq!['\t', '0', '.'] + seq![
                    ((h / 10) + 48) as char,
                    ((h % 10) + 48) as char,
                ]
            },
        },
    }
}

fn is_eligible(p: &LayoutPane) -> (r: bool)
    ensures
        r == eligible(*p),
{
    match (&p.pane_id, &p.rect) {
        (Some(id), Some(rect)) => is_flag_safe(id.as_str()) && rect.width > 0,
        _ => false,
    }
}

/// The dock target's index.
fn find_dock_target(ps: &Vec<LayoutPane>) -> (r: Option<usize>)
    ensures
        match r {
            Some(i) => is_dock_target(ps@, i as int),
            None => forall|i: int| !is_dock_target(ps@, i),
        },
{
    let mut best: Option<usize> = None;
    let mut i: usize = 0;
    while i < ps.len()
        invariant
            0 <= i <= ps.len(),
            match best {
                Some(b) => {
                    &&& b < i
                    &&& eligible(ps@[b as int])
                    &&& forall|j: int|
                        0 <= j < i && eligible(#[trigger] ps@[j]) ==> !before(
                            ps@[j].rect.unwrap(),
                            ps@[b as int].rect.unwrap(),
                        )
                    &&& forall|j: int|
                        0 <= j < b && eligible(#[trigger] ps@[j]) ==> before(
                            ps@[b as int].rect.unwrap(),
                            ps@[j].rect.unwrap(),
                        )
                },
                None => forall|j: int| 0 <= j < i ==> !eligible(#[trigger] ps@[j]),
            },
        decreases ps.len() - i,
    {
        if is_eligible(&ps[i]) {
            let better = match best {
                None => true,
                Some(b) => {
                    let r = ps[i].rect.as_ref().unwrap();
                    let s = ps[b].rect.as_ref().unwrap();
                    r.x < s.x || (r.x == s.x && r.y < s.y)
                },
            };
            if better {
                best = Some(i);
            }
        }
        i += 1;
    }
    if let Some(b) = best {
        assert(is_dock_target(ps@, b as int));
    }
    best
}

/// The digit character for `d < 10`.
fn digit(d: i64) -> (c: char)
    requires
        0 <= d < 10,
    ensures
        c == (d + 48) as char,
{
    let c = ascii_char((d + 48) as u32);
    proof {
        vstd::utf8::char_u32_cast(c, (d + 48) as u32);
    }
    c
}

/// `<pane_id>\t<ratio>` for the left dock: the leftmost pane of the layout
/// (the one touching the spaces/agents sidebar, topmost among a stacked
/// column) and the left-slot share that gives the explorer ~32 columns after
/// the split+swap, to two decimals. Empty on any failure.
pub fn open_plan(panes: Option<&Vec<LayoutPane>>) -> (r: String)
    ensures
        r@ == open_plan_spec(opt_seq(panes)),
{
    let mut out = String::new();
    let ps = match panes {
        Some(ps) => ps,
        None => return out,
    };
    let i = match find_dock_target(ps) {
        Some(i) => i,
        None => {
            assert(dock_target(ps@) is None);
            return out;
        },
    };
    proof {
        if dock_target(ps@) != Some(i as int) {
            let k = choose|k: int| is_dock_target(ps@, k);
            lemma_dock_target_unique(ps@, i as int, k);
        }
    }
    let id = ps[i].pane_id.as_ref().unwrap();
    let width = ps[i].rect.as_ref().unwrap().width;
    let h: i64 = if width >= 214 {
        assert((6400 + width) / (2 * width) <= 15) by (nonlinear_arith)
            requires
                width >= 214,
        ;
        15
    } else {
        let q = (6400 + width) / (2 * width);
        if q < 15 {
            15
        } else if q > 50 {
            50
        } else {
            q
        }
    };
    assert(h == ratio_hundredths(width as int));
    push_str(&mut out, id.as_str());
    push_str(&mut out, "\t0.");
    push_char(&mut out, digit(h / 10));
    push_char(&mut out, digit(h % 10));
    proof {
        reveal_strlit("\t0.");
    }
    assert(out@ =~= open_plan_spec(opt_seq(panes)));
    out
}

} // verus!
