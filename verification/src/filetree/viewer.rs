//! The explorer's file preview pane: its identity token, the control file
//! the explorer writes target paths into, and reading a target back.

use vstd::prelude::*;

use crate::text::{chars_of, string_of, trim, trimmed};

verus! {

/// Metadata source/token that marks the preview pane, so the explorer can
/// find and reuse it.
pub const METADATA_SOURCE: &'static str = "herdr-aa-filetree-preview";

/// The control file the explorer writes target paths into, unique per
/// explorer pane (tab): inside `dir` (the temp directory),
/// `herdr-aa-filetree-preview-<pane>.ctl`.
pub fn control_path(dir: &str, explorer_pane_id: &str) -> (r: String)
    ensures
        r@ == crate::text::join_spec(
            dir@,
            crate::preview::control_file_name_spec("herdr-aa-filetree-preview-"@, explorer_pane_id@),
        ),
{
    crate::preview::control_path_in(dir, "herdr-aa-filetree-preview-", explorer_pane_id)
}

/// The target a control file names: its trimmed text, when not blank.
pub open spec fn control_target_spec(contents: Seq<char>) -> Option<Seq<char>> {
    if trim(contents).len() == 0 {
        None
    } else {
        Some(trim(contents))
    }
}

pub fn control_target(contents: &str) -> (r: Option<String>)
    ensures
        match r {
            Some(t) => control_target_spec(contents@) == Some(t@),
            None => control_target_spec(contents@) is None,
        },
{
    let t = trimmed(&chars_of(contents));
    if t.len() == 0 {
        None
    } else {
        Some(string_of(&t))
    }
}

} // verus!
