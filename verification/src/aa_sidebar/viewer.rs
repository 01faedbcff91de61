//! The preview pane the sidebar keeps beside itself, one per tab, steered
//! through a control file named after the sidebar pane.

use vstd::prelude::*;

use crate::json::member_of;
use crate::panes::{is_stale, stale_spec, token, viewer_index, viewer_index_spec, ListedPane};
use crate::text::owned;

pub use crate::preview::{diff_request, file_request, parse_request, show_request, Request};

verus! {

/// Metadata source and token that mark the preview pane; its value is the
/// heartbeat (Unix seconds).
pub const METADATA_SOURCE: &'static str = "herdr-aa-sidebar-preview";

/// The control file the sidebar writes requests into, unique per sidebar
/// pane (tab) so tabs don't steer each other's previews: inside `dir` (the
/// temp directory), `herdr-aa-sidebar-preview-<pane>.ctl`.
pub fn control_path(dir: &str, sidebar_pane_id: &str) -> (r: String)
    ensures
        r@ == crate::text::join_spec(
            dir@,
            crate::preview::control_file_name_spec("herdr-aa-sidebar-preview-"@, sidebar_pane_id@),
        ),
{
    crate::preview::control_path_in(dir, "herdr-aa-sidebar-preview-", sidebar_pane_id)
}

/// The preview pane in the tab of pane `my` (by its token) and whether its
/// heartbeat at `now` says it is dead.
pub open spec fn viewer_pane_spec(panes: Option<Seq<ListedPane>>, my: Seq<char>, now: u64) -> Option<
    (Seq<char>, bool),
> {
    match panes {
        None => None,
        Some(ps) => match viewer_index_spec(ps, my, "herdr-aa-sidebar-preview"@, false) {
            None => None,
            Some(i) => match ps[i].pane_id {
                None => None,
                Some(id) => Some(
                    (id@, stale_spec(now, member_of(ps[i].tokens@, "herdr-aa-sidebar-preview"@))),
                ),
            },
        },
    }
}

pub fn viewer_pane_at(panes: Option<&Vec<ListedPane>>, my_pane_id: &str, now: u64) -> (r: Option<
    (String, bool),
>)
    ensures
        match r {
            Some((id, stale)) => viewer_pane_spec(
                match panes {
                    Some(v) => Some(v@),
                    None => None,
                },
                my_pane_id@,
                now,
            ) == Some((id@, stale)),
            None => viewer_pane_spec(
                match panes {
                    Some(v) => Some(v@),
                    None => None,
                },
                my_pane_id@,
                now,
            ) is None,
        },
{
    let ps = match panes {
        Some(ps) => ps,
        None => return None,
    };
    let i = match viewer_index(ps, my_pane_id, METADATA_SOURCE, false) {
        Some(i) => i,
        None => return None,
    };
    let id = match &ps[i].pane_id {
        Some(id) => owned(id.as_str()),
        None => return None,
    };
    let stale = is_stale(now, token(&ps[i], METADATA_SOURCE));
    Some((id, stale))
}

/// The preview pane of `my`'s tab, without its heartbeat verdict.
pub open spec fn viewer_id_spec(panes: Option<Seq<ListedPane>>, my: Seq<char>) -> Option<Seq<char>> {
    match viewer_pane_spec(panes, my, 0) {
        Some((id, _)) => Some(id),
        None => None,
    }
}

/// The preview pane in the caller's tab, judged against the clock now.
/// The pane found is exactly the one `viewer_id_spec` names, and its
/// verdict is the one `viewer_pane_spec` gives at some reading of the
/// clock (so a pane without a heartbeat is always reported stale).
pub fn viewer_pane_in_tab(panes: Option<&Vec<ListedPane>>, my_pane_id: &str) -> (r: Option<
    (String, bool),
>)
    ensures
        match r {
            Some((id, stale)) => viewer_id_spec(
                match panes {
                    Some(v) => Some(v@),
                    None => None,
                },
                my_pane_id@,
            ) == Some(id@) && exists|now: u64|
                #[trigger] viewer_pane_spec(crate::filetree::launch::opt_seq(panes), my_pane_id@, now) == Some(
                    (id@, stale),
                ),
            None => viewer_id_spec(
                match panes {
                    Some(v) => Some(v@),
                    None => None,
                },
                my_pane_id@,
            ) is None,
        },
{
    let now = crate::clock::unix_seconds();
    let r = viewer_pane_at(panes, my_pane_id, now);
    assert(crate::filetree::launch::opt_seq(panes) == match panes {
        Some(v) => Some(v@),
        None => None::<Seq<ListedPane>>,
    });
    r
}

} // verus!
