//! File-type emoji for the source control list, VS Code style: whole-name
//! matches first, then the extension, case-insensitively. Icons avoid
//! variation-selector sequences where practical, since their rendered width
//! differs between terminals and would misalign the list columns.

use vstd::prelude::*;

use crate::text::{eq_strings, has_prefix, split_last, split_once_last, starts_with};

verus! {

/// The lower-case form of a string, as `str::to_lowercase` computes it
/// (full Unicode case mapping).
pub uninterp spec fn lowercase(s: Seq<char>) -> Seq<char>;

/// `str::to_lowercase`: the result is `lowercase` of the argument; nothing
/// more is stated of it.
#[verifier::external_body]
pub(crate) fn to_lowercase(s: &str) -> (r: String)
    ensures
        r@ == lowercase(s@),
{
    s.to_lowercase()
}

/// Whole-filename icons, which take priority over the extension.
pub open spec fn special_name_spec(lower: Seq<char>) -> Option<Seq<char>> {
    if lower == "cargo.lock"@ || lower == "package-lock.json"@ || lower == "yarn.lock"@
        || lower == "pnpm-lock.yaml"@ {
        Some("🔒"@)
    } else if lower == "cargo.toml"@ || lower == "package.json"@ || lower == "pyproject.toml"@
        || lower == "go.mod"@ || lower == "gemfile"@ {
        Some("📦"@)
    } else if lower == "makefile"@ || lower == "justfile"@ || lower == "cmakelists.txt"@ {
        Some("🔨"@)
    } else if lower == ".gitignore"@ || lower == ".gitattributes"@ || lower == ".gitmodules"@ {
        Some("🙈"@)
    } else if starts_with(lower, "dockerfile"@) || starts_with(lower, "docker-compose"@) {
        Some("🐳"@)
    } else if starts_with(lower, "readme"@) {
        Some("📖"@)
    } else if starts_with(lower, "license"@) || lower == "copying"@ {
        Some("📜"@)
    } else if lower == ".env"@ || starts_with(lower, ".env."@) {
        Some("🔑"@)
    } else {
        None
    }
}

pub fn special_name(lower: &str) -> (r: Option<&'static str>)
    ensures
        match r {
            Some(icon) => special_name_spec(lower@) == Some(icon@),
            None => special_name_spec(lower@) is None,
        },
{
    let v = crate::text::chars_of(lower);
    if eq_strings(lower, "cargo.lock") || eq_strings(lower, "package-lock.json") || eq_strings(
        lower,
        "yarn.lock",
    ) || eq_strings(lower, "pnpm-lock.yaml") {
        Some("🔒")
    } else if eq_strings(lower, "cargo.toml") || eq_strings(lower, "package.json") || eq_strings(
        lower,
        "pyproject.toml",
    ) || eq_strings(lower, "go.mod") || eq_strings(lower, "gemfile") {
        Some("📦")
    } else if eq_strings(lower, "makefile") || eq_strings(lower, "justfile") || eq_strings(
        lower,
        "cmakelists.txt",
    ) {
        Some("🔨")
    } else if eq_strings(lower, ".gitignore") || eq_strings(lower, ".gitattributes") || eq_strings(
        lower,
        ".gitmodules",
    ) {
        Some("🙈")
    } else if has_prefix(&v, "dockerfile") || has_prefix(&v, "docker-compose") {
        Some("🐳")
    } else if has_prefix(&v, "readme") {
        Some("📖")
    } else if has_prefix(&v, "license") || eq_strings(lower, "copying") {
        Some("📜")
    } else if eq_strings(lower, ".env") || has_prefix(&v, ".env.") {
        Some("🔑")
    } else {
        None
    }
}

/// The icon for a (lower-case) extension; unknown ones get the page.
pub open spec fn extension_icon_spec(ext: Seq<char>) -> Seq<char> {
    if ext == "rs"@ {
        "🦀"@
    } else if ext == "py"@ || ext == "pyi"@ {
        "🐍"@
    } else if ext == "go"@ {
        "🐹"@
    } else if ext == "rb"@ {
        "💎"@
    } else if ext == "php"@ {
        "🐘"@
    } else if ext == "java"@ || ext == "jar"@ {
        "☕"@
    } else if ext == "js"@ || ext == "mjs"@ || ext == "cjs"@ || ext == "jsx"@ {
        "🟨"@
    } else if ext == "ts"@ || ext == "tsx"@ {
        "🔷"@
    } else if ext == "json"@ || ext == "jsonc"@ {
        "🧾"@
    } else if ext == "md"@ || ext == "markdown"@ {
        "📝"@
    } else if ext == "html"@ || ext == "htm"@ {
        "🌐"@
    } else if ext == "css"@ || ext == "scss"@ || ext == "sass"@ || ext == "less"@ {
        "🎨"@
    } else if ext == "toml"@ || ext == "yaml"@ || ext == "yml"@ || ext == "ini"@ || ext == "cfg"@ || ext == "conf"@ {
        "🔧"@
    } else if ext == "xml"@ {
        "📰"@
    } else if ext == "sh"@ || ext == "bash"@ || ext == "zsh"@ || ext == "fish"@ {
        "🐚"@
    } else if ext == "ps1"@ || ext == "psm1"@ || ext == "psd1"@ || ext == "bat"@ || ext == "cmd"@ {
        "💻"@
    } else if ext == "c"@ || ext == "h"@ || ext == "cpp"@ || ext == "cc"@ || ext == "cxx"@ || ext == "hpp"@ || ext == "hh"@ {
        "🔩"@
    } else if ext == "cs"@ {
        "🟣"@
    } else if ext == "kt"@ || ext == "kts"@ {
        "🟪"@
    } else if ext == "swift"@ {
        "🐦"@
    } else if ext == "lua"@ {
        "🌙"@
    } else if ext == "sql"@ || ext == "db"@ || ext == "sqlite"@ || ext == "sqlite3"@ {
        "💾"@
    } else if ext == "csv"@ || ext == "tsv"@ {
        "📊"@
    } else if ext == "txt"@ {
        "📄"@
    } else if ext == "log"@ {
        "📋"@
    } else if ext == "pdf"@ {
        "📕"@
    } else if ext == "png"@ || ext == "jpg"@ || ext == "jpeg"@ || ext == "gif"@ || ext == "webp"@ || ext == "bmp"@ || ext == "ico"@ || ext == "svg"@ || ext == "tiff"@ {
        "📷"@
    } else if ext == "mp3"@ || ext == "wav"@ || ext == "flac"@ || ext == "ogg"@ {
        "🎵"@
    } else if ext == "mp4"@ || ext == "mkv"@ || ext == "avi"@ || ext == "mov"@ || ext == "webm"@ {
        "🎬"@
    } else if ext == "zip"@ || ext == "tar"@ || ext == "gz"@ || ext == "tgz"@ || ext == "bz2"@ || ext == "xz"@ || ext == "7z"@ || ext == "rar"@ {
        "🧳"@
    } else if ext == "lock"@ {
        "🔒"@
    } else if ext == "exe"@ || ext == "dll"@ || ext == "so"@ || ext == "dylib"@ || ext == "a"@ || ext == "o"@ || ext == "bin"@ {
        "⚡"@
    } else if ext == "wasm"@ {
        "🧩"@
    } else if ext == "ttf"@ || ext == "otf"@ || ext == "woff"@ || ext == "woff2"@ {
        "🔤"@
    } else if ext == "ipynb"@ {
        "📓"@
    } else {
        "📄"@
    }
}

pub fn extension_icon(ext: &str) -> (r: &'static str)
    ensures
        r@ == extension_icon_spec(ext@),
{
    if eq_strings(ext, "rs") {
        "🦀"
    } else if eq_strings(ext, "py") || eq_strings(ext, "pyi") {
        "🐍"
    } else if eq_strings(ext, "go") {
        "🐹"
    } else if eq_strings(ext, "rb") {
        "💎"
    } else if eq_strings(ext, "php") {
        "🐘"
    } else if eq_strings(ext, "java") || eq_strings(ext, "jar") {
        "☕"
    } else if eq_strings(ext, "js") || eq_strings(ext, "mjs") || eq_strings(ext, "cjs") || eq_strings(ext, "jsx") {
        "🟨"
    } else if eq_strings(ext, "ts") || eq_strings(ext, "tsx") {
        "🔷"
    } else if eq_strings(ext, "json") || eq_strings(ext, "jsonc") {
        "🧾"
    } else if eq_strings(ext, "md") || eq_strings(ext, "markdown") {
        "📝"
    } else if eq_strings(ext, "html") || eq_strings(ext, "htm") {
        "🌐"
    } else if eq_strings(ext, "css") || eq_strings(ext, "scss") || eq_strings(ext, "sass") || eq_strings(ext, "less") {
        "🎨"
    } else if eq_strings(ext, "toml") || eq_strings(ext, "yaml") || eq_strings(ext, "yml") || eq_strings(ext, "ini") || eq_strings(ext, "cfg") || eq_strings(ext, "conf") {
        "🔧"
    } else if eq_strings(ext, "xml") {
        "📰"
    } else if eq_strings(ext, "sh") || eq_strings(ext, "bash") || eq_strings(ext, "zsh") || eq_strings(ext, "fish") {
        "🐚"
    } else if eq_strings(ext, "ps1") || eq_strings(ext, "psm1") || eq_strings(ext, "psd1") || eq_strings(ext, "bat") || eq_strings(ext, "cmd") {
        "💻"
    } else if eq_strings(ext, "c") || eq_strings(ext, "h") || eq_strings(ext, "cpp") || eq_strings(ext, "cc") || eq_strings(ext, "cxx") || eq_strings(ext, "hpp") || eq_strings(ext, "hh") {
        "🔩"
    } else if eq_strings(ext, "cs") {
        "🟣"
    } else if eq_strings(ext, "kt") || eq_strings(ext, "kts") {
        "🟪"
    } else if eq_strings(ext, "swift") {
        "🐦"
    } else if eq_strings(ext, "lua") {
        "🌙"
    } else if eq_strings(ext, "sql") || eq_strings(ext, "db") || eq_strings(ext, "sqlite") || eq_strings(ext, "sqlite3") {
        "💾"
    } else if eq_strings(ext, "csv") || eq_strings(ext, "tsv") {
        "📊"
    } else if eq_strings(ext, "txt") {
        "📄"
    } else if eq_strings(ext, "log") {
        "📋"
    } else if eq_strings(ext, "pdf") {
        "📕"
    } else if eq_strings(ext, "png") || eq_strings(ext, "jpg") || eq_strings(ext, "jpeg") || eq_strings(ext, "gif") || eq_strings(ext, "webp") || eq_strings(ext, "bmp") || eq_strings(ext, "ico") || eq_strings(ext, "svg") || eq_strings(ext, "tiff") {
        "📷"
    } else if eq_strings(ext, "mp3") || eq_strings(ext, "wav") || eq_strings(ext, "flac") || eq_strings(ext, "ogg") {
        "🎵"
    } else if eq_strings(ext, "mp4") || eq_strings(ext, "mkv") || eq_strings(ext, "avi") || eq_strings(ext, "mov") || eq_strings(ext, "webm") {
        "🎬"
    } else if eq_strings(ext, "zip") || eq_strings(ext, "tar") || eq_strings(ext, "gz") || eq_strings(ext, "tgz") || eq_strings(ext, "bz2") || eq_strings(ext, "xz") || eq_strings(ext, "7z") || eq_strings(ext, "rar") {
        "🧳"
    } else if eq_strings(ext, "lock") {
        "🔒"
    } else if eq_strings(ext, "exe") || eq_strings(ext, "dll") || eq_strings(ext, "so") || eq_strings(ext, "dylib") || eq_strings(ext, "a") || eq_strings(ext, "o") || eq_strings(ext, "bin") {
        "⚡"
    } else if eq_strings(ext, "wasm") {
        "🧩"
    } else if eq_strings(ext, "ttf") || eq_strings(ext, "otf") || eq_strings(ext, "woff") || eq_strings(ext, "woff2") {
        "🔤"
    } else if eq_strings(ext, "ipynb") {
        "📓"
    } else {
        "📄"
    }
}

/// The icon for an already lower-cased file name: a whole-name match, else
/// the text after the last `.` as an extension, else the page.
pub open spec fn icon_for_lower_spec(lower: Seq<char>) -> Seq<char> {
    match special_name_spec(lower) {
        Some(icon) => icon,
        None => match split_last(lower, '.') {
            Some((_, ext)) => extension_icon_spec(ext),
            None => "📄"@,
        },
    }
}

pub fn icon_for_lower(lower: &str) -> (r: &'static str)
    ensures
        r@ == icon_for_lower_spec(lower@),
{
    if let Some(icon) = special_name(lower) {
        return icon;
    }
    let v = crate::text::chars_of(lower);
    match split_once_last(&v, '.') {
        Some((_, ext)) => {
            let ext = crate::text::string_of(&ext);
            extension_icon(ext.as_str())
        },
        None => "📄",
    }
}

/// The emoji for a file name (source control lists only files, never
/// directories): `icon_for_lower` of the name's lower-case form.
pub fn icon_for(name: &str) -> (r: &'static str)
    ensures
        r@ == icon_for_lower_spec(lowercase(name@)),
{
    let lower = to_lowercase(name);
    icon_for_lower(lower.as_str())
}

} // verus!
