//! The preview pane's control protocol. A sidebar writes one request into
//! the preview's control file (a file to show, a git diff, or a `git show`),
//! and the preview reads it back. Also: the document identity of a request,
//! the tab names that mark the ephemeral preview tab, and the control file's
//! name.

use vstd::prelude::*;

use crate::seqs::{first_where, lemma_first_where_is, lemma_first_where_none};
use crate::text::{
    after_last, bom, chars_of, eq_chars, eq_str, fields, is_char, is_either, is_ws, join_path,
    join_spec, last_field, lemma_fields_concat, lemma_fields_nonempty, lemma_fields_single,
    push_char, push_chars, push_str, replace_char, replace_chars, split_fields, string_of, trim,
    trim_end, trim_start, trimmed,
};

verus! {

/// What a sidebar asked the preview to show.
#[derive(Clone, PartialEq, Eq, Debug)]
pub enum Request {
    File(String),
    Diff {
        root: String,
        rel: String,
        /// `staged`, `worktree` or `untracked`: which diff to run.
        kind: String,
    },
    /// `git show <spec>`: a commit, stash, tag or branch tip, optionally
    /// narrowed to one file.
    Show {
        root: String,
        spec: String,
        path: Option<String>,
    },
}

/// A request as the contracts see it.
pub enum RequestView {
    File(Seq<char>),
    Diff { root: Seq<char>, rel: Seq<char>, kind: Seq<char> },
    Show { root: Seq<char>, spec: Seq<char>, path: Option<Seq<char>> },
}

pub open spec fn opt_view(o: Option<String>) -> Option<Seq<char>> {
    match o {
        Some(s) => Some(s@),
        None => None,
    }
}

pub open spec fn request_view(r: Request) -> RequestView {
    match r {
        Request::File(p) => RequestView::File(p@),
        Request::Diff { root, rel, kind } => RequestView::Diff { root: root@, rel: rel@, kind: kind@ },
        Request::Show { root, spec, path } => RequestView::Show {
            root: root@,
            spec: spec@,
            path: opt_view(path),
        },
    }
}

pub open spec fn tab() -> Seq<char> {
    seq!['\t']
}

/// Control-file payload for a file preview: `file<TAB><path>`.
pub open spec fn file_request_spec(path: Seq<char>) -> Seq<char> {
    "file"@ + tab() + path
}

/// Control-file payload for a git diff: `diff<TAB><root><TAB><rel><TAB><kind>`.
pub open spec fn diff_request_spec(root: Seq<char>, rel: Seq<char>, kind: Seq<char>) -> Seq<char> {
    "diff"@ + tab() + root + tab() + rel + tab() + kind
}

/// Control-file payload for `git show`: `show<TAB><root><TAB><spec><TAB><path>`,
/// the path empty when there is none.
pub open spec fn show_request_spec(root: Seq<char>, spec: Seq<char>, path: Option<Seq<char>>) -> Seq<
    char,
> {
    "show"@ + tab() + root + tab() + spec + tab() + match path {
        Some(p) => p,
        None => Seq::empty(),
    }
}

pub fn file_request(path: &str) -> (r: String)
    ensures
        r@ == file_request_spec(path@),
{
    let mut out = String::new();
    push_str(&mut out, "file");
    push_char(&mut out, '\t');
    push_str(&mut out, path);
    out
}

pub fn diff_request(root: &str, rel: &str, kind: &str) -> (r: String)
    ensures
        r@ == diff_request_spec(root@, rel@, kind@),
{
    let mut out = String::new();
    push_str(&mut out, "diff");
    push_char(&mut out, '\t');
    push_str(&mut out, root);
    push_char(&mut out, '\t');
    push_str(&mut out, rel);
    push_char(&mut out, '\t');
    push_str(&mut out, kind);
    out
}

pub fn show_request(root: &str, spec: &str, path: Option<&str>) -> (r: String)
    ensures
        r@ == show_request_spec(
            root@,
            spec@,
            match path {
                Some(p) => Some(p@),
                None => None,
            },
        ),
{
    let mut out = String::new();
    push_str(&mut out, "show");
    push_char(&mut out, '\t');
    push_str(&mut out, root);
    push_char(&mut out, '\t');
    push_str(&mut out, spec);
    push_char(&mut out, '\t');
    if let Some(p) = path {
        push_str(&mut out, p);
    }
    out
}

/// Reading a control file: blank text is no request; `diff`, `show` and
/// `file` payloads need their leading fields (a diff's kind defaults to
/// `worktree`, a show's empty path is no path); anything else is taken as a
/// bare file path, the legacy form.
pub open spec fn parse_request_spec(raw: Seq<char>) -> Option<RequestView> {
    let t = trim(raw);
    if t.len() == 0 {
        None
    } else {
        let parts = fields(t, is_char('\t'));
        let n = parts.len();
        if parts[0] == "diff"@ {
            if n < 3 {
                None
            } else {
                Some(
                    RequestView::Diff {
                        root: parts[1],
                        rel: parts[2],
                        kind: if n >= 4 {
                            parts[3]
                        } else {
                            "worktree"@
                        },
                    },
                )
            }
        } else if parts[0] == "show"@ {
            if n < 3 {
                None
            } else {
                Some(
                    RequestView::Show {
                        root: parts[1],
                        spec: parts[2],
                        path: if n >= 4 && parts[3].len() > 0 {
                            Some(parts[3])
                        } else {
                            None
                        },
                    },
                )
            }
        } else if parts[0] == "file"@ {
            if n < 2 {
                None
            } else {
                Some(RequestView::File(parts[1]))
            }
        } else {
            Some(RequestView::File(t))
        }
    }
}

pub fn parse_request(raw: &str) -> (r: Option<Request>)
    ensures
        match r {
            Some(q) => parse_request_spec(raw@) == Some(request_view(q)),
            None => parse_request_spec(raw@) is None,
        },
{
    let v = chars_of(raw);
    let t = trimmed(&v);
    if t.len() == 0 {
        return None;
    }
    let parts = split_fields(&t, '\t');
    proof {
        lemma_fields_nonempty(t@, is_char('\t'));
    }
    let n = parts.len();
    if eq_str(&parts[0], "diff") {
        if n < 3 {
            return None;
        }
        let kind = if n >= 4 {
            string_of(&parts[3])
        } else {
            String::from_str("worktree")
        };
        Some(
            Request::Diff {
                root: string_of(&parts[1]),
                rel: string_of(&parts[2]),
                kind,
            },
        )
    } else if eq_str(&parts[0], "show") {
        if n < 3 {
            return None;
        }
        let path = if n >= 4 && parts[3].len() > 0 {
            Some(string_of(&parts[3]))
        } else {
            None
        };
        Some(Request::Show { root: string_of(&parts[1]), spec: string_of(&parts[2]), path })
    } else if eq_str(&parts[0], "file") {
        if n < 2 {
            return None;
        }
        Some(Request::File(string_of(&parts[1])))
    } else {
        Some(Request::File(string_of(&t)))
    }
}

// ---------------------------------------------------------------------------
// Round trips
// ---------------------------------------------------------------------------

/// Text fit to be a request field: no tab inside.
pub open spec fn no_tab(s: Seq<char>) -> bool {
    !s.contains('\t')
}

/// Text that survives the trim around the whole payload at its end: not
/// empty, and not ending in whitespace.
pub open spec fn ends_solid(s: Seq<char>) -> bool {
    s.len() > 0 && !is_ws(s.last())
}

proof fn lemma_trim_keeps(s: Seq<char>)
    requires
        s.len() > 0,
        !is_ws(s[0]),
        !is_ws(s.last()),
    ensures
        trim(s) == s,
{
    assert(trim_start(s) == s);
    assert(trim_end(s) == s);
}

proof fn lemma_trim_end_drops(s: Seq<char>, c: char)
    requires
        is_ws(c),
        s.len() > 0,
        !is_ws(s.last()),
    ensures
        trim_end(s.push(c)) == s,
{
    assert(s.push(c).drop_last() =~= s);
    assert(trim_end(s) == s);
}

proof fn lemma_single_field(s: Seq<char>)
    requires
        no_tab(s),
    ensures
        fields(s, is_char('\t')) == seq![s],
{
    assert forall|i: int| 0 <= i < s.len() implies !is_char('\t')(#[trigger] s[i]) by {
        if is_char('\t')(s[i]) {
            assert(s.contains('\t'));
        }
    }
    lemma_fields_single(s, is_char('\t'));
}

proof fn lemma_keywords()
    ensures
        "file"@ == seq!['f', 'i', 'l', 'e'],
        "diff"@ == seq!['d', 'i', 'f', 'f'],
        "show"@ == seq!['s', 'h', 'o', 'w'],
        "worktree"@.len() == 8,
{
    reveal_strlit("file");
    reveal_strlit("diff");
    reveal_strlit("show");
    reveal_strlit("worktree");
}

/// A file request reads back as the same file, for any path without a tab
/// that does not end in whitespace.
pub proof fn lemma_file_request_roundtrip(path: Seq<char>)
    requires
        no_tab(path),
        ends_solid(path),
    ensures
        parse_request_spec(file_request_spec(path)) == Some(RequestView::File(path)),
{
    lemma_keywords();
    let s = file_request_spec(path);
    assert(s =~= "file"@.push('\t') + path);
    lemma_trim_keeps(s);
    lemma_fields_concat("file"@, '\t', path, is_char('\t'));
    lemma_single_field("file"@);
    lemma_single_field(path);
    let parts = fields(s, is_char('\t'));
    assert(parts =~= seq!["file"@, path]);
}

/// A diff request reads back as the same diff, for tab-free fields whose
/// kind is not empty and does not end in whitespace.
pub proof fn lemma_diff_request_roundtrip(root: Seq<char>, rel: Seq<char>, kind: Seq<char>)
    requires
        no_tab(root),
        no_tab(rel),
        no_tab(kind),
        ends_solid(kind),
    ensures
        parse_request_spec(diff_request_spec(root, rel, kind)) == Some(
            RequestView::Diff { root, rel, kind },
        ),
{
    lemma_keywords();
    let s = diff_request_spec(root, rel, kind);
    assert(s =~= "diff"@.push('\t') + (root.push('\t') + (rel.push('\t') + kind)));
    lemma_trim_keeps(s);
    lemma_fields_concat(rel, '\t', kind, is_char('\t'));
    lemma_fields_concat(root, '\t', rel.push('\t') + kind, is_char('\t'));
    lemma_fields_concat("diff"@, '\t', root.push('\t') + (rel.push('\t') + kind), is_char('\t'));
    lemma_single_field("diff"@);
    lemma_single_field(root);
    lemma_single_field(rel);
    lemma_single_field(kind);
    let parts = fields(s, is_char('\t'));
    assert(parts =~= seq!["diff"@, root, rel, kind]);
}

/// A show request reads back as the same show: tab-free fields, and the
/// last field present (the path when there is one, else the spec) neither
/// empty nor ending in whitespace.
pub proof fn lemma_show_request_roundtrip(root: Seq<char>, spec: Seq<char>, path: Option<Seq<char>>)
    requires
        no_tab(root),
        no_tab(spec),
        match path {
            Some(p) => no_tab(p) && ends_solid(p),
            None => ends_solid(spec),
        },
    ensures
        parse_request_spec(show_request_spec(root, spec, path)) == Some(
            RequestView::Show { root, spec, path },
        ),
{
    lemma_keywords();
    let s = show_request_spec(root, spec, path);
    lemma_single_field("show"@);
    lemma_single_field(root);
    lemma_single_field(spec);
    match path {
        Some(p) => {
            assert(s =~= "show"@.push('\t') + (root.push('\t') + (spec.push('\t') + p)));
            lemma_trim_keeps(s);
            lemma_fields_concat(spec, '\t', p, is_char('\t'));
            lemma_fields_concat(root, '\t', spec.push('\t') + p, is_char('\t'));
            lemma_fields_concat("show"@, '\t', root.push('\t') + (spec.push('\t') + p), is_char('\t'));
            lemma_single_field(p);
            let parts = fields(s, is_char('\t'));
            assert(parts =~= seq!["show"@, root, spec, p]);
        },
        None => {
            let body = "show"@.push('\t') + (root.push('\t') + spec);
            assert(s =~= body.push('\t'));
            assert(trim_start(s) == s);
            assert(body.last() == spec.last());
            lemma_trim_end_drops(body, '\t');
            assert(trim(s) == body);
            lemma_fields_concat(root, '\t', spec, is_char('\t'));
            lemma_fields_concat("show"@, '\t', root.push('\t') + spec, is_char('\t'));
            let parts = fields(body, is_char('\t'));
            assert(parts =~= seq!["show"@, root, spec]);
        },
    }
}

// ---------------------------------------------------------------------------
// Document identity and tab names
// ---------------------------------------------------------------------------

/// The document a file preview shows: the path itself.
pub open spec fn doc_key_for_file_spec(path: Seq<char>) -> Seq<char> {
    path
}

/// A diff document: `diff:<root joined with rel>:<kind>`.
pub open spec fn doc_key_for_diff_spec(root: Seq<char>, rel: Seq<char>, kind: Seq<char>) -> Seq<char> {
    "diff:"@ + join_spec(root, rel) + ":"@ + kind
}

/// A show document: `show:<root>:<spec>`, then `:<path>` when narrowed.
pub open spec fn doc_key_for_show_spec(root: Seq<char>, spec: Seq<char>, path: Option<Seq<char>>) -> Seq<
    char,
> {
    match path {
        Some(p) => "show:"@ + root + ":"@ + spec + ":"@ + p,
        None => "show:"@ + root + ":"@ + spec,
    }
}

pub fn doc_key_for_file(path: &str) -> (r: String)
    ensures
        r@ == doc_key_for_file_spec(path@),
{
    crate::text::owned(path)
}

pub fn doc_key_for_diff(root: &str, rel: &str, kind: &str) -> (r: String)
    ensures
        r@ == doc_key_for_diff_spec(root@, rel@, kind@),
{
    let joined = join_path(&chars_of(root), &chars_of(rel));
    let mut out = String::new();
    push_str(&mut out, "diff:");
    push_chars(&mut out, &joined);
    push_str(&mut out, ":");
    push_str(&mut out, kind);
    out
}

pub fn doc_key_for_show(root: &str, spec: &str, path: Option<&str>) -> (r: String)
    ensures
        r@ == doc_key_for_show_spec(
            root@,
            spec@,
            match path {
                Some(p) => Some(p@),
                None => None,
            },
        ),
{
    let mut out = String::new();
    push_str(&mut out, "show:");
    push_str(&mut out, root);
    push_str(&mut out, ":");
    push_str(&mut out, spec);
    if let Some(p) = path {
        push_str(&mut out, ":");
        push_str(&mut out, p);
    }
    out
}

pub open spec fn doc_key_spec(r: RequestView) -> Seq<char> {
    match r {
        RequestView::File(p) => doc_key_for_file_spec(p),
        RequestView::Diff { root, rel, kind } => doc_key_for_diff_spec(root, rel, kind),
        RequestView::Show { root, spec, path } => doc_key_for_show_spec(root, spec, path),
    }
}

impl Request {
    /// The document identity this request renders.
    pub fn doc_key(&self) -> (r: String)
        ensures
            r@ == doc_key_spec(request_view(*self)),
    {
        match self {
            Request::File(p) => doc_key_for_file(p.as_str()),
            Request::Diff { root, rel, kind } => doc_key_for_diff(
                root.as_str(),
                rel.as_str(),
                kind.as_str(),
            ),
            Request::Show { root, spec, path } => {
                let p = match path {
                    Some(p) => Some(p.as_str()),
                    None => None,
                };
                doc_key_for_show(root.as_str(), spec.as_str(), p)
            },
        }
    }
}

proof fn lemma_key_prefixes()
    ensures
        "diff:"@ == seq!['d', 'i', 'f', 'f', ':'],
        "show:"@ == seq!['s', 'h', 'o', 'w', ':'],
        ":"@ == seq![':'],
{
    reveal_strlit("diff:");
    reveal_strlit("show:");
    reveal_strlit(":");
}

/// A diff and a `git show` are never the same document, and two diffs of
/// one file differ when their kinds differ (given kinds without `:`).
pub proof fn lemma_doc_keys_separate(
    root: Seq<char>,
    rel: Seq<char>,
    kind: Seq<char>,
    other_kind: Seq<char>,
    sroot: Seq<char>,
    spec: Seq<char>,
    path: Option<Seq<char>>,
)
    requires
        kind != other_kind,
        !kind.contains(':'),
        !other_kind.contains(':'),
    ensures
        doc_key_for_diff_spec(root, rel, kind) != doc_key_for_show_spec(sroot, spec, path),
        doc_key_for_diff_spec(root, rel, kind) != doc_key_for_diff_spec(root, rel, other_kind),
{
    lemma_key_prefixes();
    let d = doc_key_for_diff_spec(root, rel, kind);
    let s = doc_key_for_show_spec(sroot, spec, path);
    assert(d[0] == 'd');
    assert(s[0] == 's');
    let head = "diff:"@ + join_spec(root, rel) + ":"@;
    let d2 = doc_key_for_diff_spec(root, rel, other_kind);
    assert(d =~= head + kind);
    assert(d2 =~= head + other_kind);
    if d == d2 {
        assert(kind =~= d.skip(head.len() as int));
        assert(other_kind =~= d2.skip(head.len() as int));
    }
}

/// The name a preview tab shows: the last path segment of the document key
/// (after `/` or `\`), or the whole key when that segment is empty.
pub open spec fn display_name_spec(doc_key: Seq<char>) -> Seq<char> {
    let last = last_field(doc_key, is_either('/', '\\'));
    if last.len() > 0 {
        last
    } else {
        doc_key
    }
}

/// A tab's name: the display name, prefixed with `*` while the tab is
/// ephemeral (the next file overwrites it).
pub open spec fn tab_label_spec(doc_key: Seq<char>, pinned: bool) -> Seq<char> {
    if pinned {
        display_name_spec(doc_key)
    } else {
        seq!['*'] + display_name_spec(doc_key)
    }
}

pub fn tab_label(doc_key: &str, pinned: bool) -> (r: String)
    ensures
        r@ == tab_label_spec(doc_key@, pinned),
{
    let v = chars_of(doc_key);
    let last = after_last(&v, '/', '\\');
    let mut out = String::new();
    if !pinned {
        push_char(&mut out, '*');
    }
    if last.len() > 0 {
        push_chars(&mut out, &last);
    } else {
        push_str(&mut out, doc_key);
    }
    out
}

/// Reading a tab's name back: the display name and whether it is pinned
/// (no leading `*`).
pub open spec fn parse_tab_label_spec(label: Seq<char>) -> (Seq<char>, bool) {
    if label.len() > 0 && label[0] == '*' {
        (label.skip(1), false)
    } else {
        (label, true)
    }
}

pub fn parse_tab_label(label: &str) -> (r: (String, bool))
    ensures
        (r.0@, r.1) == parse_tab_label_spec(label@),
{
    let v = chars_of(label);
    if v.len() > 0 && v[0] == '*' {
        let rest = crate::text::slice_from(&v, 1);
        (string_of(&rest), false)
    } else {
        (string_of(&v), true)
    }
}

/// Reading back a tab's name gives its display name and pin state, unless
/// a pinned tab's name itself starts with `*`.
pub proof fn lemma_tab_label_roundtrip(doc_key: Seq<char>, pinned: bool)
    requires
        pinned ==> !(display_name_spec(doc_key).len() > 0 && display_name_spec(doc_key)[0] == '*'),
    ensures
        parse_tab_label_spec(tab_label_spec(doc_key, pinned)) == (display_name_spec(doc_key), pinned),
{
    if !pinned {
        assert((seq!['*'] + display_name_spec(doc_key)).skip(1) =~= display_name_spec(doc_key));
    }
}

// ---------------------------------------------------------------------------
// Control files
// ---------------------------------------------------------------------------

/// The control file name for a pane: `<prefix><pane id with ':' as '_'>.ctl`
/// (colons are not filename-safe).
pub open spec fn control_file_name_spec(prefix: Seq<char>, pane_id: Seq<char>) -> Seq<char> {
    prefix + replace_char(pane_id, ':', "_"@) + ".ctl"@
}

pub fn control_file_name(prefix: &str, pane_id: &str) -> (r: String)
    ensures
        r@ == control_file_name_spec(prefix@, pane_id@),
{
    let id = replace_chars(&chars_of(pane_id), ':', "_");
    let mut out = String::new();
    push_str(&mut out, prefix);
    push_chars(&mut out, &id);
    push_str(&mut out, ".ctl");
    out
}

/// The control file for a pane inside directory `dir`.
pub fn control_path_in(dir: &str, prefix: &str, pane_id: &str) -> (r: String)
    ensures
        r@ == join_spec(dir@, control_file_name_spec(prefix@, pane_id@)),
{
    let name = control_file_name(prefix, pane_id);
    string_of(&join_path(&chars_of(dir), &chars_of(name.as_str())))
}

// ---------------------------------------------------------------------------
// The preview pane while idle
// ---------------------------------------------------------------------------

/// A request, if any, as the contracts see it.
pub open spec fn opt_request_view(r: Option<Request>) -> Option<RequestView> {
    match r {
        Some(q) => Some(request_view(q)),
        None => None,
    }
}

fn same_opt_string(a: &Option<String>, b: &Option<String>) -> (r: bool)
    ensures
        r == (opt_view(*a) == opt_view(*b)),
{
    match (a, b) {
        (Some(x), Some(y)) => crate::text::eq_strings(x.as_str(), y.as_str()),
        (None, None) => true,
        _ => false,
    }
}

/// Two requests ask for the same document view.
pub fn same_request(a: &Option<Request>, b: &Option<Request>) -> (r: bool)
    ensures
        r == (opt_request_view(*a) == opt_request_view(*b)),
{
    match (a, b) {
        (None, None) => true,
        (Some(Request::File(x)), Some(Request::File(y))) => crate::text::eq_strings(x.as_str(), y.as_str()),
        (
            Some(Request::Diff { root: r1, rel: l1, kind: k1 }),
            Some(Request::Diff { root: r2, rel: l2, kind: k2 }),
        ) => crate::text::eq_strings(r1.as_str(), r2.as_str()) && crate::text::eq_strings(l1.as_str(), l2.as_str())
            && crate::text::eq_strings(k1.as_str(), k2.as_str()),
        (
            Some(Request::Show { root: r1, spec: s1, path: p1 }),
            Some(Request::Show { root: r2, spec: s2, path: p2 }),
        ) => crate::text::eq_strings(r1.as_str(), r2.as_str()) && crate::text::eq_strings(s1.as_str(), s2.as_str())
            && same_opt_string(p1, p2),
        _ => false,
    }
}

/// What the preview does with the document after a quiet poll.
#[derive(Clone, Copy, PartialEq, Eq, Debug, Structural)]
pub enum IdleAction {
    /// Keep showing it.
    Stay,
    /// The control file names another request: load it (and report the new
    /// identity).
    Load,
    /// The control file no longer names anything: forget the request but
    /// keep the document on screen.
    Forget,
    /// Reload the diff on screen (it may have changed), keeping the scroll.
    Refresh,
}

/// One quiet poll of the preview's loop.
#[derive(Clone, Copy, PartialEq, Eq, Debug, Structural)]
pub struct IdleStep {
    /// The poll counter after this poll.
    pub beat: u64,
    /// Re-stamp the pane's heartbeat (every twentieth poll).
    pub heartbeat: bool,
    pub action: IdleAction,
}

pub open spec fn idle_step_spec(beat: u64, current: Option<RequestView>, target: Option<RequestView>) -> IdleStep {
    let b = (beat + 1) as u64;
    IdleStep {
        beat: b,
        heartbeat: b % 20 == 0,
        action: if current != target {
            if target is Some {
                IdleAction::Load
            } else {
                IdleAction::Forget
            }
        } else if b % 8 == 0 && (current matches Some(RequestView::Diff { .. })) {
            IdleAction::Refresh
        } else {
            IdleAction::Stay
        },
    }
}

/// A quiet poll: count it, re-stamp the heartbeat every twentieth poll,
/// follow the control file when it names something else (`target` is what
/// it names now, `current` what is shown), and otherwise reload a diff every
/// eighth poll so that it stays live.
pub fn idle_step(beat: u64, current: &Option<Request>, target: &Option<Request>) -> (r: IdleStep)
    requires
        beat < u64::MAX,
    ensures
        r == idle_step_spec(beat, opt_request_view(*current), opt_request_view(*target)),
{
    let b = beat + 1;
    let action = if !same_request(current, target) {
        if target.is_some() {
            IdleAction::Load
        } else {
            IdleAction::Forget
        }
    } else if b % 8 == 0 && matches!(current, Some(Request::Diff { .. })) {
        IdleAction::Refresh
    } else {
        IdleAction::Stay
    };
    IdleStep { beat: b, heartbeat: b % 20 == 0, action }
}

/// The scroll offset kept across a refresh: the old one, moved up onto
/// the last line when the document got shorter.
pub fn refreshed_scroll(keep: usize, line_count: usize) -> (r: usize)
    ensures
        r == (if keep as int <= line_count - 1 {
            keep as int
        } else if line_count >= 1 {
            line_count - 1
        } else {
            0
        }),
{
    let last = line_count.saturating_sub(1);
    if keep < last {
        keep
    } else {
        last
    }
}

} // verus!
