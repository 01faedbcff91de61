//! The preview pane's routing, VS Code style: every preview pane lives in a
//! tab of its own and stamps the document it shows (and whether it is
//! pinned) into its metadata tokens. Opening a document jumps to the tab
//! already showing it, else overwrites the one ephemeral tab, else asks for
//! a new tab. Routing is scoped to the caller's workspace.

use vstd::prelude::*;

use crate::json::{member_of, str_of, Json};
use crate::panes::{
    has_token, is_stale, opt_eq, or_empty, stale_spec, token, viewer_index, viewer_index_spec,
    ListedPane,
};
use crate::seqs::{first_where, lemma_first_where_is, lemma_first_where_none};
use crate::text::{chars_of, eq_strings, has_prefix, has_suffix, owned, replace_char, replace_chars};

pub use crate::preview::{
    diff_request, doc_key_for_diff, doc_key_for_file, doc_key_for_show, file_request, parse_request,
    parse_tab_label, show_request, tab_label, Request,
};

verus! {

/// Metadata source and token that mark a preview pane; its value is the
/// heartbeat (Unix seconds).
pub const METADATA_SOURCE: &'static str = "herdr-sidebar-preview";

/// The token holding the document a preview shows.
pub const TOKEN_PATH: &'static str = "hs-preview-path";

/// The token present once a preview is pinned.
pub const TOKEN_PINNED: &'static str = "hs-preview-pinned";

/// Control files are named `herdr-sidebar-preview-<pane>.ctl`.
pub const CONTROL_PREFIX: &'static str = "herdr-sidebar-preview-";

/// The control file a preview watches, named after the preview's own pane
/// (a pane id outlives tab moves; the path is fixed for the viewer's life),
/// inside the private scratch directory.
pub fn control_path_for_pane(scratch_dir: &str, preview_pane_id: &str) -> (r: String)
    ensures
        r@ == crate::text::join_spec(
            scratch_dir@,
            crate::preview::control_file_name_spec("herdr-sidebar-preview-"@, preview_pane_id@),
        ),
{
    crate::preview::control_path_in(scratch_dir, "herdr-sidebar-preview-", preview_pane_id)
}

/// Where a preview request landed: the pane and its tab, so a double click
/// can pin exactly that tab.
#[derive(Clone, Debug, PartialEq, Eq)]
pub struct PreviewTarget {
    pub pane_id: String,
    pub tab_id: String,
}

/// A live preview pane and the document it shows.
#[derive(Clone, Debug, PartialEq, Eq)]
pub struct PreviewPane {
    pub pane_id: String,
    pub tab_id: String,
    /// The space the preview belongs to; routing is scoped to it.
    pub workspace_id: String,
    pub doc_key: String,
    pub pinned: bool,
}

/// A preview as the contracts see it.
pub struct PreviewView {
    pub pane_id: Seq<char>,
    pub tab_id: Seq<char>,
    pub workspace_id: Seq<char>,
    pub doc_key: Seq<char>,
    pub pinned: bool,
}

pub open spec fn preview_view(p: PreviewPane) -> PreviewView {
    PreviewView {
        pane_id: p.pane_id@,
        tab_id: p.tab_id@,
        workspace_id: p.workspace_id@,
        doc_key: p.doc_key@,
        pinned: p.pinned,
    }
}

impl PreviewPane {
    /// A copy with the same contents.
    pub fn copied(&self) -> (r: PreviewPane)
        ensures
            preview_view(r) == preview_view(*self),
    {
        PreviewPane {
            pane_id: owned(self.pane_id.as_str()),
            tab_id: owned(self.tab_id.as_str()),
            workspace_id: owned(self.workspace_id.as_str()),
            doc_key: owned(self.doc_key.as_str()),
            pinned: self.pinned,
        }
    }
}

/// A listed pane is a preview when it carries a document token (a string),
/// an id and a tab; its workspace may be unknown (empty).
pub open spec fn preview_of(p: ListedPane) -> Option<PreviewView> {
    match str_of(member_of(p.tokens@, "hs-preview-path"@)) {
        None => None,
        Some(doc) => match (p.pane_id, p.tab_id) {
            (Some(id), Some(tab)) => Some(
                PreviewView {
                    pane_id: id@,
                    tab_id: tab@,
                    workspace_id: or_empty(p.workspace_id),
                    doc_key: doc,
                    pinned: has_token(p, "hs-preview-pinned"@),
                },
            ),
            _ => None,
        },
    }
}

/// Every preview among the listed panes, in listing order.
pub open spec fn previews_spec(ps: Seq<ListedPane>) -> Seq<PreviewView>
    decreases ps.len(),
{
    if ps.len() == 0 {
        Seq::empty()
    } else {
        previews_spec(ps.drop_last()) + match preview_of(ps.last()) {
            Some(v) => seq![v],
            None => Seq::empty(),
        }
    }
}

fn preview_from(p: &ListedPane) -> (r: Option<PreviewPane>)
    ensures
        match r {
            Some(v) => preview_of(*p) == Some(preview_view(v)),
            None => preview_of(*p) is None,
        },
{
    let doc = match token(p, TOKEN_PATH) {
        Some(Json::Str(s)) => s,
        _ => return None,
    };
    let id = match &p.pane_id {
        Some(id) => id,
        None => return None,
    };
    let tab = match &p.tab_id {
        Some(t) => t,
        None => return None,
    };
    let workspace = match &p.workspace_id {
        Some(w) => owned(w.as_str()),
        None => String::new(),
    };
    let pinned = token(p, TOKEN_PINNED).is_some();
    Some(
        PreviewPane {
            pane_id: owned(id.as_str()),
            tab_id: owned(tab.as_str()),
            workspace_id: workspace,
            doc_key: owned(doc.as_str()),
            pinned,
        },
    )
}

/// Every preview pane of a parsed `pane.list` (none when it did not parse).
pub fn previews_in(panes: Option<&Vec<ListedPane>>) -> (r: Vec<PreviewPane>)
    ensures
        r@.map_values(|p: PreviewPane| preview_view(p)) == match panes {
            Some(ps) => previews_spec(ps@),
            None => Seq::empty(),
        },
{
    let mut out: Vec<PreviewPane> = Vec::new();
    let ps = match panes {
        Some(ps) => ps,
        None => {
            assert(out@.map_values(|p: PreviewPane| preview_view(p)) =~= Seq::<PreviewView>::empty());
            return out;
        },
    };
    let mut i: usize = 0;
    while i < ps.len()
        invariant
            0 <= i <= ps.len(),
            panes == Some(ps),
            out@.map_values(|p: PreviewPane| preview_view(p)) == previews_spec(ps@.take(i as int)),
        decreases ps.len() - i,
    {
        assert(ps@.take(i + 1).drop_last() =~= ps@.take(i as int));
        let ghost before = out@;
        match preview_from(&ps[i]) {
            Some(v) => {
                out.push(v);
                assert(out@.map_values(|p: PreviewPane| preview_view(p)) =~= before.map_values(
                    |p: PreviewPane| preview_view(p),
                ) + seq![preview_view(v)]);
            },
            None => {
                assert(out@.map_values(|p: PreviewPane| preview_view(p)) =~= before.map_values(
                    |p: PreviewPane| preview_view(p),
                ));
            },
        }
        i += 1;
    }
    assert(ps@.take(ps.len() as int) =~= ps@);
    out
}

pub open spec fn shows_doc(doc_key: Seq<char>) -> spec_fn(PreviewPane) -> bool {
    |p: PreviewPane| p.doc_key@ == doc_key
}

pub open spec fn is_unpinned() -> spec_fn(PreviewPane) -> bool {
    |p: PreviewPane| !p.pinned
}

/// The preview already showing `doc_key`, pinned or not: checked first, so
/// re-selecting an open document jumps instead of clobbering the ephemeral
/// tab.
pub fn preview_for_doc(previews: &[PreviewPane], doc_key: &str) -> (r: Option<PreviewPane>)
    ensures
        match r {
            Some(p) => first_where(previews@, shows_doc(doc_key@)) matches Some(i) && preview_view(p)
                == preview_view(previews@[i]),
            None => first_where(previews@, shows_doc(doc_key@)) is None,
        },
{
    let ghost pred = shows_doc(doc_key@);
    let mut i: usize = 0;
    while i < previews.len()
        invariant
            0 <= i <= previews.len(),
            pred == shows_doc(doc_key@),
            forall|j: int| 0 <= j < i ==> !pred(#[trigger] previews@[j]),
        decreases previews.len() - i,
    {
        if eq_strings(previews[i].doc_key.as_str(), doc_key) {
            proof {
                assert(pred(previews@[i as int]));
                lemma_first_where_is(previews@, pred, i as int);
            }
            return Some(previews[i].copied());
        }
        i += 1;
    }
    proof {
        lemma_first_where_none(previews@, pred);
    }
    None
}

/// The ephemeral tab, if one exists: the first unpinned preview. Pinned
/// tabs are never overwritten.
pub fn reusable_preview(previews: &[PreviewPane]) -> (r: Option<PreviewPane>)
    ensures
        match r {
            Some(p) => first_where(previews@, is_unpinned()) matches Some(i) && preview_view(p)
                == preview_view(previews@[i]) && !p.pinned,
            None => first_where(previews@, is_unpinned()) is None,
        },
{
    let ghost pred = is_unpinned();
    let mut i: usize = 0;
    while i < previews.len()
        invariant
            0 <= i <= previews.len(),
            pred == is_unpinned(),
            forall|j: int| 0 <= j < i ==> !pred(#[trigger] previews@[j]),
        decreases previews.len() - i,
    {
        if !previews[i].pinned {
            proof {
                assert(pred(previews@[i as int]));
                lemma_first_where_is(previews@, pred, i as int);
            }
            return Some(previews[i].copied());
        }
        i += 1;
    }
    proof {
        lemma_first_where_none(previews@, pred);
    }
    None
}

/// A pinned preview is never reused, and when every preview is pinned
/// there is nothing to reuse.
pub proof fn lemma_pinned_never_reused(previews: Seq<PreviewPane>)
    ensures
        first_where(previews, is_unpinned()) matches Some(i) ==> !previews[i].pinned,
        (forall|j: int| 0 <= j < previews.len() ==> (#[trigger] previews[j]).pinned) ==> first_where(
            previews,
            is_unpinned(),
        ) is None,
{
    crate::seqs::lemma_first_where(previews, is_unpinned());
    if forall|j: int| 0 <= j < previews.len() ==> (#[trigger] previews[j]).pinned {
        if let Some(i) = first_where(previews, is_unpinned()) {
            assert(previews[i].pinned);
        }
    }
}

/// The previews of one workspace.
pub fn in_workspace(previews: &Vec<PreviewPane>, workspace: &str) -> (r: Vec<PreviewPane>)
    ensures
        r@.map_values(|p: PreviewPane| preview_view(p)) == previews@.filter(
            |p: PreviewPane| p.workspace_id@ == workspace@,
        ).map_values(|p: PreviewPane| preview_view(p)),
{
    let ghost keep = |p: PreviewPane| p.workspace_id@ == workspace@;
    let mut out: Vec<PreviewPane> = Vec::new();
    let mut i: usize = 0;
    while i < previews.len()
        invariant
            0 <= i <= previews.len(),
            keep == (|p: PreviewPane| p.workspace_id@ == workspace@),
            out@.map_values(|p: PreviewPane| preview_view(p)) == previews@.take(i as int).filter(
                keep,
            ).map_values(|p: PreviewPane| preview_view(p)),
        decreases previews.len() - i,
    {
        proof {
            previews@.take(i as int).lemma_filter_push(previews@[i as int], keep);
            assert(previews@.take(i as int).push(previews@[i as int]) =~= previews@.take(i + 1));
        }
        let ghost before = out@;
        if eq_strings(previews[i].workspace_id.as_str(), workspace) {
            let c = previews[i].copied();
            out.push(c);
            proof {
                assert(keep(previews@[i as int]));
                let f = previews@.take(i as int).filter(keep);
                assert(previews@.take(i + 1).filter(keep) == f.push(previews@[i as int]));
                assert(f.push(previews@[i as int]).map_values(|p: PreviewPane| preview_view(p))
                    =~= f.map_values(|p: PreviewPane| preview_view(p)).push(preview_view(c)));
            }
            assert(out@.map_values(|p: PreviewPane| preview_view(p)) =~= previews@.take(
                i + 1,
            ).filter(keep).map_values(|p: PreviewPane| preview_view(p)));
        } else {
            assert(!keep(previews@[i as int]));
            assert(out@.map_values(|p: PreviewPane| preview_view(p)) =~= previews@.take(
                i + 1,
            ).filter(keep).map_values(|p: PreviewPane| preview_view(p)));
        }
        i += 1;
    }
    assert(previews@.take(previews.len() as int) =~= previews@);
    out
}

/// Where a preview request goes.
#[derive(Clone, Debug, PartialEq, Eq)]
pub enum Route {
    /// The document is already open in this preview: jump to it.
    Existing(PreviewPane),
    /// Overwrite the ephemeral preview with the request.
    Reuse(PreviewPane),
    /// Nothing reusable: spawn a preview in a tab of its own.
    NewTab,
}

/// VS Code tab rules over the workspace's previews: an open document
/// first, then the ephemeral tab, then a new tab.
pub fn route(previews: &Vec<PreviewPane>, doc_key: &str) -> (r: Route)
    ensures
        match r {
            Route::Existing(p) => first_where(previews@, shows_doc(doc_key@)) matches Some(i)
                && preview_view(p) == preview_view(previews@[i]),
            Route::Reuse(p) => first_where(previews@, shows_doc(doc_key@)) is None && (first_where(
                previews@,
                is_unpinned(),
            ) matches Some(i) && preview_view(p) == preview_view(previews@[i])),
            Route::NewTab => first_where(previews@, shows_doc(doc_key@)) is None && first_where(
                previews@,
                is_unpinned(),
            ) is None,
        },
{
    if let Some(p) = preview_for_doc(previews.as_slice(), doc_key) {
        return Route::Existing(p);
    }
    if let Some(p) = reusable_preview(previews.as_slice()) {
        return Route::Reuse(p);
    }
    Route::NewTab
}

/// After routing: a preview in the caller's own tab keeps the sidebar
/// focused (so a double click's second click reaches it); one elsewhere is
/// jumped to. `true` means "focus the preview's tab".
pub fn focus_preview_tab(preview_tab: &str, my_tab: &str) -> (r: bool)
    ensures
        r == (preview_tab@ != my_tab@),
{
    !eq_strings(preview_tab, my_tab)
}

/// A sidebar pane (of either view) in tab `tab`.
pub open spec fn is_sidebar_in(tab: Seq<char>) -> spec_fn(ListedPane) -> bool {
    |p: ListedPane|
        crate::panes::opt_is(p.tab_id, tab) && (has_token(p, "herdr-sidebar-explorer"@) || has_token(
            p,
            "herdr-sidebar-git"@,
        ))
}

/// The sidebar pane in `tab`, so a closing preview can hand focus back.
pub open spec fn sidebar_in_tab_spec(panes: Option<Seq<ListedPane>>, tab: Seq<char>) -> Option<
    Seq<char>,
> {
    match panes {
        Some(ps) => match first_where(ps, is_sidebar_in(tab)) {
            Some(i) => crate::preview::opt_view(ps[i].pane_id),
            None => None,
        },
        None => None,
    }
}

pub fn sidebar_in_tab(panes: Option<&Vec<ListedPane>>, tab: &str) -> (r: Option<String>)
    ensures
        crate::preview::opt_view(r) == sidebar_in_tab_spec(
            match panes {
                Some(v) => Some(v@),
                None => None,
            },
            tab@,
        ),
{
    let ps = match panes {
        Some(ps) => ps,
        None => return None,
    };
    let ghost pred = is_sidebar_in(tab@);
    let mut i: usize = 0;
    while i < ps.len()
        invariant
            0 <= i <= ps.len(),
            panes == Some(ps),
            pred == is_sidebar_in(tab@),
            forall|j: int| 0 <= j < i ==> !pred(#[trigger] ps@[j]),
        decreases ps.len() - i,
    {
        let q = &ps[i];
        if opt_eq(&q.tab_id, tab) && (token(q, "herdr-sidebar-explorer").is_some() || token(
            q,
            "herdr-sidebar-git",
        ).is_some()) {
            proof {
                assert(pred(ps@[i as int]));
                lemma_first_where_is(ps@, pred, i as int);
            }
            return match &q.pane_id {
                Some(id) => Some(owned(id.as_str())),
                None => None,
            };
        }
        assert(!pred(ps@[i as int]));
        i += 1;
    }
    proof {
        lemma_first_where_none(ps@, pred);
    }
    None
}

/// The preview pane in the tab of pane `my` (by heartbeat token, or a
/// `Preview` label left behind by a restart) and whether its heartbeat at
/// `now` says it is dead.
pub open spec fn viewer_pane_spec(panes: Option<Seq<ListedPane>>, my: Seq<char>, now: u64) -> Option<
    (Seq<char>, bool),
> {
    match panes {
        None => None,
        Some(ps) => match viewer_index_spec(ps, my, "herdr-sidebar-preview"@, true) {
            None => None,
            Some(i) => match ps[i].pane_id {
                None => None,
                Some(id) => Some(
                    (id@, stale_spec(now, member_of(ps[i].tokens@, "herdr-sidebar-preview"@))),
                ),
            },
        },
    }
}

pub fn viewer_pane_at(panes: Option<&Vec<ListedPane>>, my_pane_id: &str, now: u64) -> (r: Option<
    (String, bool),
>)
    ensures
        match r {
            Some((id, stale)) => viewer_pane_spec(
                match panes {
                    Some(v) => Some(v@),
                    None => None,
                },
                my_pane_id@,
                now,
            ) == Some((id@, stale)),
            None => viewer_pane_spec(
                match panes {
                    Some(v) => Some(v@),
                    None => None,
                },
                my_pane_id@,
                now,
            ) is None,
        },
{
    let ps = match panes {
        Some(ps) => ps,
        None => return None,
    };
    let i = match viewer_index(ps, my_pane_id, METADATA_SOURCE, true) {
        Some(i) => i,
        None => return None,
    };
    let id = match &ps[i].pane_id {
        Some(id) => owned(id.as_str()),
        None => return None,
    };
    let stale = is_stale(now, token(&ps[i], METADATA_SOURCE));
    Some((id, stale))
}

/// The preview pane of `my`'s tab, without its heartbeat verdict.
pub open spec fn viewer_id_spec(panes: Option<Seq<ListedPane>>, my: Seq<char>) -> Option<Seq<char>> {
    match viewer_pane_spec(panes, my, 0) {
        Some((id, _)) => Some(id),
        None => None,
    }
}

/// The preview pane in the caller's tab, judged against the clock now.
/// The pane found is exactly the one `viewer_id_spec` names, and its
/// verdict is the one `viewer_pane_spec` gives at some reading of the
/// clock (so a pane without a heartbeat is always reported stale).
pub fn viewer_pane_in_tab(panes: Option<&Vec<ListedPane>>, my_pane_id: &str) -> (r: Option<
    (String, bool),
>)
    ensures
        match r {
            Some((id, stale)) => viewer_id_spec(
                match panes {
                    Some(v) => Some(v@),
                    None => None,
                },
                my_pane_id@,
            ) == Some(id@) && exists|now: u64|
                #[trigger] viewer_pane_spec(crate::filetree::launch::opt_seq(panes), my_pane_id@, now) == Some(
                    (id@, stale),
                ),
            None => viewer_id_spec(
                match panes {
                    Some(v) => Some(v@),
                    None => None,
                },
                my_pane_id@,
            ) is None,
        },
{
    let now = crate::clock::unix_seconds();
    let r = viewer_pane_at(panes, my_pane_id, now);
    assert(crate::filetree::launch::opt_seq(panes) == match panes {
        Some(v) => Some(v@),
        None => None::<Seq<ListedPane>>,
    });
    r
}

/// The pane a control file in the scratch directory belongs to: the name
/// between the prefix and `.ctl`.
pub fn control_id_of(file_name: &str) -> (r: Option<String>)
    ensures
        match r {
            Some(id) => crate::text::starts_with(file_name@, "herdr-sidebar-preview-"@)
                && crate::text::ends_with(file_name@, ".ctl"@) && file_name@.len() >= 26 && id@
                == file_name@.subrange(22, file_name@.len() - 4),
            None => !(crate::text::starts_with(file_name@, "herdr-sidebar-preview-"@)
                && crate::text::ends_with(file_name@, ".ctl"@) && file_name@.len() >= 26),
        },
{
    proof {
        reveal_strlit("herdr-sidebar-preview-");
        reveal_strlit(".ctl");
    }
    let v = chars_of(file_name);
    if v.len() >= 26 && has_prefix(&v, CONTROL_PREFIX) && has_suffix(&v, ".ctl") {
        let id = crate::text::slice_range(&v, 22, v.len() - 4);
        Some(crate::text::string_of(&id))
    } else {
        None
    }
}

} // verus!
