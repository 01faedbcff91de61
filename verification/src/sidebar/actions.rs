//! The file context menu's model: which entries a target offers, which
//! names the create/rename prompts accept, and the text handling around the
//! platform folder picker. The filesystem, clipboard and shell effects
//! behind the entries are carried out by the caller.

use vstd::prelude::*;

use crate::text::{
    chars_of, has_char, join_path, join_spec, push_str, replace_char, replace_chars, string_of,
    trim, trim_str, trimmed,
};

verus! {

#[derive(Clone, Copy, PartialEq, Eq, Debug, Structural)]
pub enum MenuAction {
    NewFile,
    NewFolder,
    CopyPath,
    CopyRelativePath,
    Rename,
    Delete,
    OpenExternal,
    Reveal,
    ChangeFolder,
    ChangeFolderTyped,
}

#[derive(Clone, Copy, PartialEq, Eq, Debug)]
pub enum MenuEntry {
    Action(MenuAction, &'static str),
    Separator,
}

/// An entry as the contracts see it: the action and its label, or `None`
/// for a separator.
pub open spec fn entry_view(e: MenuEntry) -> Option<(MenuAction, Seq<char>)> {
    match e {
        MenuEntry::Action(a, label) => Some((a, label@)),
        MenuEntry::Separator => None,
    }
}

pub open spec fn act(a: MenuAction, label: Seq<char>) -> Option<(MenuAction, Seq<char>)> {
    Some((a, label))
}

/// The context menu for a tree row (`Some(is_dir)`) or for empty space
/// (`None`, which targets the workspace root: creation only). "Open with
/// Default App" is offered for files only.
pub open spec fn menu_spec(target: Option<bool>) -> Seq<Option<(MenuAction, Seq<char>)>> {
    let create = seq![
        act(MenuAction::NewFile, "New File…"@),
        act(MenuAction::NewFolder, "New Folder…"@),
    ];
    let open_external = if target == Some(false) {
        seq![None, act(MenuAction::OpenExternal, "Open with Default App"@)]
    } else {
        Seq::empty()
    };
    let row_actions = if target is Some {
        seq![
            None,
            act(MenuAction::CopyPath, "Copy Path"@),
            act(MenuAction::CopyRelativePath, "Copy Relative Path"@),
            None,
            act(MenuAction::Rename, "Rename…"@),
            act(MenuAction::Delete, "Delete"@),
        ]
    } else {
        Seq::empty()
    };
    let tail = seq![
        None,
        act(MenuAction::Reveal, "Reveal in File Explorer"@),
        None,
        act(MenuAction::ChangeFolder, "Change Folder…"@),
        act(MenuAction::ChangeFolderTyped, "Change Folder (Type Path)…"@),
    ];
    create + open_external + row_actions + tail
}

pub fn menu_entries(target: Option<bool>) -> (r: Vec<MenuEntry>)
    ensures
        r@.map_values(|e: MenuEntry| entry_view(e)) == menu_spec(target),
{
    let mut entries: Vec<MenuEntry> = Vec::new();
    entries.push(MenuEntry::Action(MenuAction::NewFile, "New File…"));
    entries.push(MenuEntry::Action(MenuAction::NewFolder, "New Folder…"));
    if target == Some(false) {
        entries.push(MenuEntry::Separator);
        entries.push(MenuEntry::Action(MenuAction::OpenExternal, "Open with Default App"));
    }
    if target.is_some() {
        entries.push(MenuEntry::Separator);
        entries.push(MenuEntry::Action(MenuAction::CopyPath, "Copy Path"));
        entries.push(MenuEntry::Action(MenuAction::CopyRelativePath, "Copy Relative Path"));
        entries.push(MenuEntry::Separator);
        entries.push(MenuEntry::Action(MenuAction::Rename, "Rename…"));
        entries.push(MenuEntry::Action(MenuAction::Delete, "Delete"));
    }
    entries.push(MenuEntry::Separator);
    entries.push(MenuEntry::Action(MenuAction::Reveal, "Reveal in File Explorer"));
    entries.push(MenuEntry::Separator);
    entries.push(MenuEntry::Action(MenuAction::ChangeFolder, "Change Folder…"));
    entries.push(MenuEntry::Action(MenuAction::ChangeFolderTyped, "Change Folder (Type Path)…"));
    let ghost got = entries@.map_values(|e: MenuEntry| entry_view(e));
    assert(got =~= menu_spec(target));
    entries
}

/// The entry is action `a`.
pub open spec fn is_action(e: Option<(MenuAction, Seq<char>)>, a: MenuAction) -> bool {
    e matches Some((b, _)) && b == a
}

/// The menu offers action `a`.
pub open spec fn offers(menu: Seq<Option<(MenuAction, Seq<char>)>>, a: MenuAction) -> bool {
    exists|i: int| 0 <= i < menu.len() && is_action(#[trigger] menu[i], a)
}

/// Every menu starts with New File; only a file row offers "Open with
/// Default App"; only a row (file or directory) can be renamed or deleted;
/// every menu offers Reveal.
pub proof fn lemma_menu_shape(target: Option<bool>)
    ensures
        is_action(menu_spec(target)[0], MenuAction::NewFile),
        offers(menu_spec(target), MenuAction::OpenExternal) <==> target == Some(false),
        offers(menu_spec(target), MenuAction::Rename) <==> target is Some,
        offers(menu_spec(target), MenuAction::Delete) <==> target is Some,
        offers(menu_spec(target), MenuAction::Reveal),
{
    let m = menu_spec(target);
    if target is Some && target->0 == false {
        assert(m[3] == act(MenuAction::OpenExternal, "Open with Default App"@));
        assert(m[8] == act(MenuAction::Rename, "Rename…"@));
        assert(m[9] == act(MenuAction::Delete, "Delete"@));
        assert(m[11] == act(MenuAction::Reveal, "Reveal in File Explorer"@));
    } else if target is Some {
        assert(m[6] == act(MenuAction::Rename, "Rename…"@));
        assert(m[7] == act(MenuAction::Delete, "Delete"@));
        assert(m[9] == act(MenuAction::Reveal, "Reveal in File Explorer"@));
    } else {
        assert(target is None);
        assert(m =~= seq![
            act(MenuAction::NewFile, "New File…"@),
            act(MenuAction::NewFolder, "New Folder…"@),
            None,
            act(MenuAction::Reveal, "Reveal in File Explorer"@),
            None,
            act(MenuAction::ChangeFolder, "Change Folder…"@),
            act(MenuAction::ChangeFolderTyped, "Change Folder (Type Path)…"@),
        ]);
        assert(is_action(m[3], MenuAction::Reveal));
    }
}

// ---------------------------------------------------------------------------
// Names
// ---------------------------------------------------------------------------

/// A usable file name from prompt input: the trimmed input, when it is not
/// empty, holds no path separator or drive colon, and is not `.` or `..`.
pub open spec fn valid_name_spec(input: Seq<char>) -> Option<Seq<char>> {
    let name = trim(input);
    if name.len() > 0 && !name.contains('/') && !name.contains('\\') && !name.contains(':')
        && name != "."@ && name != ".."@ {
        Some(name)
    } else {
        None
    }
}

pub fn validate_name(input: &str) -> (r: Option<&str>)
    ensures
        match r {
            Some(n) => valid_name_spec(input@) == Some(n@),
            None => valid_name_spec(input@) is None,
        },
{
    let name = trim_str(input);
    let v = chars_of(name);
    if v.len() > 0 && !has_char(&v, '/') && !has_char(&v, '\\') && !has_char(&v, ':')
        && !crate::text::eq_strings(name, ".") && !crate::text::eq_strings(name, "..") {
        Some(name)
    } else {
        None
    }
}

/// Names are accepted exactly when their trimmed form is non-empty, holds
/// no `/`, `\` or `:` and is neither `.` nor `..`; the accepted name is that
/// trimmed form, whatever else it holds (inner spaces, dots, any other
/// character).
pub proof fn lemma_names_accepted_when_not_paths(input: Seq<char>)
    ensures
        (valid_name_spec(input) is Some) <==> (trim(input).len() > 0 && (forall|i: int|
            0 <= i < trim(input).len() ==> #[trigger] trim(input)[i] != '/' && trim(input)[i] != '\\'
                && trim(input)[i] != ':') && trim(input) != "."@ && trim(input) != ".."@),
        valid_name_spec(input) is Some ==> valid_name_spec(input) == Some(trim(input)),
{
    let t = trim(input);
    if !t.contains('/') && !t.contains('\\') && !t.contains(':') {
        assert forall|i: int| 0 <= i < t.len() implies #[trigger] t[i] != '/' && t[i] != '\\' && t[i] != ':' by {
            if t[i] == '/' {
                assert(t.contains('/'));
            }
            if t[i] == '\\' {
                assert(t.contains('\\'));
            }
            if t[i] == ':' {
                assert(t.contains(':'));
            }
        }
    }
}

/// An accepted name is a single path component: no separators, not empty,
/// and without surrounding whitespace.
pub proof fn lemma_valid_names_are_components(input: Seq<char>)
    ensures
        valid_name_spec(input) is Some ==> valid_name_spec(input)->0.len() > 0
            && !valid_name_spec(input)->0.contains('/') && !valid_name_spec(input)->0.contains('\\')
            && valid_name_spec(input)->0 == trim(valid_name_spec(input)->0),
{
    if let Some(n) = valid_name_spec(input) {
        crate::text::lemma_trim_idempotent(input);
    }
}

/// Where a new entry `name` inside `dir` goes; the caller refuses it when
/// something is already there.
pub open spec fn fresh_path_spec(dir: Seq<char>, name: Seq<char>) -> Seq<char> {
    join_spec(dir, name)
}

pub fn fresh_path(dir: &str, name: &str) -> (r: String)
    ensures
        r@ == fresh_path_spec(dir@, name@),
{
    let d = chars_of(dir);
    let n = chars_of(name);
    string_of(&join_path(&d, &n))
}

/// The refusal when the new entry's path is taken.
pub fn already_exists(name: &str) -> (r: String)
    ensures
        r@ == name@ + " already exists"@,
{
    let mut out = String::new();
    push_str(&mut out, name);
    push_str(&mut out, " already exists");
    out
}

// ---------------------------------------------------------------------------
// The folder picker
// ---------------------------------------------------------------------------

/// Quote a string for a double-quoted AppleScript literal: backslashes are
/// doubled first, then quotes are escaped.
pub open spec fn applescript_escape_spec(s: Seq<char>) -> Seq<char> {
    replace_char(replace_char(s, '\\', "\\\\"@), '"', "\\\""@)
}

pub fn applescript_escape(s: &str) -> (r: String)
    ensures
        r@ == applescript_escape_spec(s@),
{
    let v = chars_of(s);
    let once = replace_chars(&v, '\\', "\\\\");
    let twice = replace_chars(&once, '"', "\\\"");
    string_of(&twice)
}

/// Text with neither quotes nor backslashes passes through unchanged.
pub proof fn lemma_plain_text_needs_no_escape(s: Seq<char>)
    requires
        !s.contains('"'),
        !s.contains('\\'),
    ensures
        applescript_escape_spec(s) == s,
{
    crate::text::lemma_replace_absent(s, '\\', "\\\\"@);
    crate::text::lemma_replace_absent(s, '"', "\\\""@);
}

/// Trailing `/` characters removed.
pub open spec fn drop_trailing_slashes(s: Seq<char>) -> Seq<char>
    decreases s.len(),
{
    if s.len() > 0 && s.last() == '/' {
        drop_trailing_slashes(s.drop_last())
    } else {
        s
    }
}

/// The folder a picker printed (`POSIX path of` ends in `/`): the trimmed
/// output without trailing slashes, `/` itself when only slashes were
/// printed, nothing when the output was blank.
pub open spec fn picked_folder_spec(output: Seq<char>) -> Option<Seq<char>> {
    let picked = trim(output);
    let bare = drop_trailing_slashes(picked);
    if picked.len() == 0 {
        None
    } else if bare.len() == 0 {
        Some("/"@)
    } else {
        Some(bare)
    }
}

pub fn picked_folder(output: &str) -> (r: Option<String>)
    ensures
        match r {
            Some(p) => picked_folder_spec(output@) == Some(p@),
            None => picked_folder_spec(output@) is None,
        },
{
    let v = chars_of(output);
    let picked = trimmed(&v);
    if picked.len() == 0 {
        return None;
    }
    let mut j: usize = picked.len();
    assert(picked@.take(j as int) =~= picked@);
    while j > 0 && picked[j - 1] == '/'
        invariant
            0 <= j <= picked.len(),
            drop_trailing_slashes(picked@) == drop_trailing_slashes(picked@.take(j as int)),
        decreases j,
    {
        assert(picked@.take(j as int).drop_last() =~= picked@.take(j as int - 1));
        j -= 1;
    }
    if j == 0 {
        Some(String::from_str("/"))
    } else {
        let bare = crate::text::slice_range(&picked, 0, j);
        assert(bare@ =~= picked@.take(j as int));
        Some(string_of(&bare))
    }
}

} // verus!
