//! Recognising files by path, name and content, and finding the workspace
//! files the desktop front end reads.

use vstd::prelude::*;
use crate::options::{is_word, TelegramMediaType, VideoQuality};
use crate::text::{
    chars_of, contains, eq_ascii_nocase, eq_ignore_ascii_case, extend_str, has_infix, has_prefix, has_suffix,
    lowercase_chars, lowercased, starts_with, string_of,
};

verus! {

broadcast use vstd::string::group_string_axioms;

/// The extension `std::path::Path::extension` finds in a path: the part of
/// the final file name after its last dot, if the name has one that does not
/// begin it. Taken as a name here: the path grammar is not restated.
pub uninterp spec fn extension_of(path: Seq<char>) -> Option<Seq<char>>;

/// The final file name `std::path::Path::file_name` finds in a path.
pub uninterp spec fn file_name_of(path: Seq<char>) -> Option<Seq<char>>;

/// The file name without its extension, as `std::path::Path::file_stem`
/// finds it.
pub uninterp spec fn file_stem_of(path: Seq<char>) -> Option<Seq<char>>;

/// `Path::extension`, read back as text.
#[verifier::external_body]
fn path_extension(path: &str) -> (ext: Option<String>)
    ensures
        match ext {
            Some(e) => extension_of(path@) == Some(e@),
            None => extension_of(path@) is None,
        },
{
    std::path::Path::new(path).extension().and_then(|e| e.to_str()).map(|e| e.to_owned())
}

/// `Path::file_name`, read back as text.
#[verifier::external_body]
fn path_file_name(path: &str) -> (name: Option<String>)
    ensures
        match name {
            Some(n) => file_name_of(path@) == Some(n@),
            None => file_name_of(path@) is None,
        },
{
    std::path::Path::new(path).file_name().and_then(|n| n.to_str()).map(|n| n.to_owned())
}

/// `Path::file_stem`, read back as text.
#[verifier::external_body]
fn path_file_stem(path: &str) -> (stem: Option<String>)
    ensures
        match stem {
            Some(s) => file_stem_of(path@) == Some(s@),
            None => file_stem_of(path@) is None,
        },
{
    std::path::Path::new(path).file_stem().and_then(|s| s.to_str()).map(|s| s.to_owned())
}

/// The extension of a path, if it has one.
pub fn extension(path: &str) -> (ext: Option<String>)
    ensures
        match ext {
            Some(e) => extension_of(path@) == Some(e@),
            None => extension_of(path@) is None,
        },
{
    path_extension(path)
}

/// The name a listing shows for a file: its file name, or the whole path
/// when it has none.
pub fn display_name(path: &str) -> (name: String)
    ensures
        name@ == (match file_name_of(path@) {
            Some(n) => n,
            None => path@,
        }),
{
    match path_file_name(path) {
        Some(n) => n,
        None => path.to_owned(),
    }
}

/// The title of an imported chat: the file stem of its path, or `WhatsApp Chat`.
pub fn chat_title(path: &str) -> (title: String)
    ensures
        title@ == (match file_stem_of(path@) {
            Some(s) => s,
            None => "WhatsApp Chat"@,
        }),
{
    match path_file_stem(path) {
        Some(s) => s,
        None => "WhatsApp Chat".to_owned(),
    }
}

/// An extension equal to `a` or `b` ignoring ASCII case.
pub open spec fn extension_is_either(ext: Option<Seq<char>>, a: Seq<char>, b: Seq<char>) -> bool {
    match ext {
        Some(e) => eq_ascii_nocase(e, a) || eq_ascii_nocase(e, b),
        None => false,
    }
}

/// Whether an extension found in a path is `word`, ignoring ASCII case;
/// never when the path has none.
pub fn ext_matches(ext: &Option<String>, word: &str) -> (r: bool)
    ensures
        r == (match *ext {
            Some(e) => eq_ascii_nocase(e@, word@),
            None => false,
        }),
{
    match ext {
        Some(e) => {
            let a = chars_of(e.as_str());
            let b = chars_of(word);
            eq_ignore_ascii_case(a.as_slice(), b.as_slice())
        },
        None => false,
    }
}

/// Whether a device file is a calendar: its extension is `ics` or `vcs`,
/// ignoring ASCII case.
pub fn is_calendar_file(path: &str) -> (r: bool)
    ensures
        r == extension_is_either(extension_of(path@), "ics"@, "vcs"@),
{
    let ext = path_extension(path);
    ext_matches(&ext, "ics") || ext_matches(&ext, "vcs")
}

/// Whether a device file holds a note: a Markdown file, or a text file whose
/// lowercased path mentions `note`.
pub fn is_note_file(path: &str) -> (r: bool)
    ensures
        r == (extension_is_either(extension_of(path@), "md"@, "md"@)
            || (extension_is_either(extension_of(path@), "txt"@, "txt"@)
                && has_infix(lowercased(path@), "note"@))),
{
    let ext = path_extension(path);
    let lower = lowercase_chars(path);
    note_file_from(&ext, lower.as_slice())
}

/// Whether a device file holds a note, from the extension found in its path
/// and its lowercased path: a Markdown file, or a text file whose lowercased
/// path mentions `note`.
pub fn note_file_from(ext: &Option<String>, lowered_path: &[char]) -> (r: bool)
    ensures
        r == (extension_is_either(found_text(*ext), "md"@, "md"@)
            || (extension_is_either(found_text(*ext), "txt"@, "txt"@)
                && has_infix(lowered_path@, "note"@))),
{
    if ext_matches(ext, "md") {
        return true;
    }
    if !ext_matches(ext, "txt") {
        return false;
    }
    let needle = chars_of("note");
    contains(lowered_path, needle.as_slice())
}

/// Whether a path has exactly the extension `json`.
pub fn is_json_file(path: &str) -> (r: bool)
    ensures
        r == (extension_of(path@) == Some("json"@)),
{
    match path_extension(path) {
        Some(e) => {
            let l = chars_of(e.as_str());
            is_word(l.as_slice(), "json")
        },
        None => false,
    }
}

/// Whether an imported Wi-Fi file is an Android `WifiConfigStore` XML file:
/// it has the extension `xml`, or its content mentions `<WifiConfig`.
pub fn is_wifi_config_store(path: &str, content: &str) -> (r: bool)
    ensures
        r == (extension_of(path@) == Some("xml"@) || has_infix(content@, "<WifiConfig"@)),
{
    if let Some(e) = path_extension(path) {
        let l = chars_of(e.as_str());
        if is_word(l.as_slice(), "xml") {
            return true;
        }
    }
    let c = chars_of(content);
    let p = chars_of("<WifiConfig");
    contains(c.as_slice(), p.as_slice())
}

/// Whether an imported bookmarks file is a Netscape HTML export rather than
/// a Chromium JSON file.
pub fn is_netscape_bookmarks(content: &str) -> (r: bool)
    ensures
        r == (has_infix(content@, "<!DOCTYPE NETSCAPE"@) || has_infix(content@, "<H3>"@)),
{
    let c = chars_of(content);
    let a = chars_of("<!DOCTYPE NETSCAPE");
    let b = chars_of("<H3>");
    contains(c.as_slice(), a.as_slice()) || contains(c.as_slice(), b.as_slice())
}

/// Whether a device path belongs to Telegram: its lowercased form mentions
/// the Telegram package, a `/telegram/` folder, or a folder starting `/telegram `.
pub fn is_telegram_path(path: &str) -> (r: bool)
    ensures
        r == (has_infix(lowercased(path@), "org.telegram.messenger"@)
            || has_infix(lowercased(path@), "/telegram/"@)
            || has_infix(lowercased(path@), "/telegram "@)),
{
    let l = lowercase_chars(path);
    mentions_telegram(l.as_slice())
}

/// Whether an already lowercased device path mentions the Telegram package,
/// a `/telegram/` folder, or a folder starting `/telegram `.
pub fn mentions_telegram(l: &[char]) -> (r: bool)
    ensures
        r == (has_infix(l@, "org.telegram.messenger"@) || has_infix(l@, "/telegram/"@)
            || has_infix(l@, "/telegram "@)),
{
    let a = chars_of("org.telegram.messenger");
    let b = chars_of("/telegram/");
    let c = chars_of("/telegram ");
    contains(l, a.as_slice()) || contains(l, b.as_slice()) || contains(l, c.as_slice())
}

/// Whether a MIME type is an image type.
pub fn is_image_mime(mime: &str) -> (r: bool)
    ensures
        r == has_prefix(mime@, "image/"@),
{
    let m = chars_of(mime);
    let p = chars_of("image/");
    starts_with(m.as_slice(), p.as_slice())
}

/// Whether a file's category label is the category asked for: the two are
/// equal once lowercased.
pub fn category_matches(label: &str, wanted: &str) -> (r: bool)
    ensures
        r == (lowercased(label@) == lowercased(wanted@)),
{
    let a = lowercase_chars(label);
    let b = lowercase_chars(wanted);
    crate::text::same_chars(a.as_slice(), b.as_slice())
}

/// A Telegram item stays in the listing when it has the media kind asked
/// for (if any) and at least the minimum size asked for (if any).
pub open spec fn keeps_telegram_item(kind: TelegramMediaType, size: u64, wanted: Option<TelegramMediaType>, min_size: Option<u64>) -> bool {
    &&& (wanted matches Some(w) ==> kind == w)
    &&& (min_size matches Some(m) ==> size >= m)
}

/// Whether a Telegram item stays in the listing.
pub fn keep_telegram_item(kind: TelegramMediaType, size: u64, wanted: Option<TelegramMediaType>, min_size: Option<u64>) -> (r: bool)
    ensures
        r == keeps_telegram_item(kind, size, wanted, min_size),
{
    if let Some(w) = wanted {
        if kind != w {
            return false;
        }
    }
    if let Some(m) = min_size {
        if size < m {
            return false;
        }
    }
    true
}

/// A video stays in the listing when its container is the one asked for (as
/// the caller found), it has at least the minimum size asked for (if any),
/// and its resolution tier is the one asked for (if any).
pub open spec fn keeps_video(container_ok: bool, size: u64, min_size: Option<u64>, quality: VideoQuality, wanted: Option<VideoQuality>) -> bool {
    &&& container_ok
    &&& (min_size matches Some(m) ==> size >= m)
    &&& (wanted matches Some(w) ==> quality == w)
}

/// Whether a video stays in the listing.
pub fn keep_video(container_ok: bool, size: u64, min_size: Option<u64>, quality: VideoQuality, wanted: Option<VideoQuality>) -> (r: bool)
    ensures
        r == keeps_video(container_ok, size, min_size, quality, wanted),
{
    if !container_ok {
        return false;
    }
    if let Some(m) = min_size {
        if size < m {
            return false;
        }
    }
    if let Some(w) = wanted {
        if quality != w {
            return false;
        }
    }
    true
}

/// `base` joined with `name` as `PathBuf::join` joins Unix paths: an
/// absolute `name` replaces `base`; otherwise a `/` separates the two unless
/// `base` is empty or already ends with one.
pub open spec fn joined(base: Seq<char>, name: Seq<char>) -> Seq<char> {
    if name.len() > 0 && name[0] == '/' {
        name
    } else if base.len() == 0 || base.last() == '/' {
        base + name
    } else {
        base + seq!['/'] + name
    }
}

/// The workspace folders a file is looked for in, nearest first.
pub open spec fn workspace_candidates(name: Seq<char>) -> Seq<Seq<char>> {
    seq![joined("workspace"@, name), joined("../../workspace"@, name), joined("../workspace"@, name)]
}

pub(crate) fn join_path(base: &str, name: &str) -> (out: String)
    ensures
        out@ == joined(base@, name@),
{
    let n = chars_of(name);
    if n.len() > 0 && n[0] == '/' {
        return string_of(n.as_slice());
    }
    let mut v = chars_of(base);
    if v.len() > 0 && v[v.len() - 1] != '/' {
        v.push('/');
    }
    extend_str(&mut v, name);
    proof {
        if base@.len() == 0 || base@.last() == '/' {
            assert(v@ =~= base@ + name@);
        } else {
            assert(v@ =~= base@ + seq!['/'] + name@);
        }
    }
    string_of(v.as_slice())
}

/// The paths a workspace file is looked for at.
pub fn candidate_paths(name: &str) -> (out: Vec<String>)
    ensures
        out@.len() == 3,
        forall|i: int| 0 <= i < 3 ==> #[trigger] out@[i]@ == workspace_candidates(name@)[i],
{
    let mut out: Vec<String> = Vec::new();
    out.push(join_path("workspace", name));
    out.push(join_path("../../workspace", name));
    out.push(join_path("../workspace", name));
    out
}

/// `Path::exists`: whether something is found at the path. Nothing is
/// promised of the answer, which depends on the file system.
#[verifier::external_body]
fn path_exists(path: &str) -> bool {
    std::path::Path::new(path).exists()
}

/// The first of `candidates` whose flag in `present` is set.
pub open spec fn first_present(candidates: Seq<Seq<char>>, present: Seq<bool>) -> Option<Seq<char>>
    decreases candidates.len(),
{
    if candidates.len() == 0 || present.len() == 0 {
        None
    } else if present[0] {
        Some(candidates[0])
    } else {
        first_present(candidates.drop_first(), present.drop_first())
    }
}

/// The text of a path that was found, if any.
pub open spec fn found_text(found: Option<String>) -> Option<Seq<char>> {
    match found {
        Some(p) => Some(p@),
        None => None,
    }
}

/// The paths a workspace file is looked for at when the current directory
/// `cwd` may be known: the workspace candidates, then the `workspace`
/// folder of `cwd`.
pub open spec fn lookup_candidates(name: Seq<char>, cwd: Option<Seq<char>>) -> Seq<Seq<char>> {
    match cwd {
        Some(c) => workspace_candidates(name).push(joined(joined(c, "workspace"@), name)),
        None => workspace_candidates(name),
    }
}

/// Asks the file system, for each of `candidates` in turn, whether
/// something is found there.
fn presence(candidates: &Vec<String>) -> (present: Vec<bool>)
    ensures
        present@.len() == candidates@.len(),
{
    let mut present: Vec<bool> = Vec::new();
    let mut i: usize = 0;
    while i < candidates.len()
        invariant
            i <= candidates@.len(),
            present@.len() == i,
        decreases candidates@.len() - i,
    {
        present.push(path_exists(candidates[i].as_str()));
        i = i + 1;
    }
    present
}

/// Looks for a workspace file in `workspace/`, `../../workspace/` and
/// `../workspace/`, in that order, and returns the first path where the file
/// system has something; `None` when none has. Whatever the file system
/// answers, the result is the first candidate it reported present.
pub fn probe_file(name: &str) -> (found: Option<String>)
    ensures
        exists|present: Seq<bool>| present.len() == 3
            && found_text(found) == #[trigger] first_present(workspace_candidates(name@), present),
{
    let candidates = candidate_paths(name);
    let present = presence(&candidates);
    assert(candidates@.map_values(|c: String| c@) =~= workspace_candidates(name@));
    let found = first_found(&candidates, &present);
    assert(found_text(found) == first_present(workspace_candidates(name@), present@));
    found
}

/// Looks for a workspace file like `probe_file`, and then in the
/// `workspace` folder of the current directory `cwd` when it is known.
/// Whatever the file system answers, the result is the first of these
/// candidates it reported present.
pub fn find_file_in_workspace(name: &str, cwd: Option<&str>) -> (found: Option<String>)
    ensures
        exists|present: Seq<bool>| present.len() == lookup_candidates(name@, cwd_text(cwd)).len()
            && found_text(found) == #[trigger] first_present(lookup_candidates(name@, cwd_text(cwd)), present),
{
    let mut candidates = candidate_paths(name);
    if let Some(c) = cwd {
        let dir = join_path(c, "workspace");
        candidates.push(join_path(dir.as_str(), name));
    }
    let present = presence(&candidates);
    assert(candidates@.map_values(|c: String| c@) =~= lookup_candidates(name@, cwd_text(cwd)));
    let found = first_found(&candidates, &present);
    assert(found_text(found) == first_present(lookup_candidates(name@, cwd_text(cwd)), present@));
    found
}

/// The text of the current directory, when it is known.
pub open spec fn cwd_text(cwd: Option<&str>) -> Option<Seq<char>> {
    match cwd {
        Some(c) => Some(c@),
        None => None,
    }
}

/// Chooses among looked-for paths with known answers: the first present one.
pub fn first_found(candidates: &Vec<String>, present: &Vec<bool>) -> (found: Option<String>)
    ensures
        match found {
            Some(p) => first_present(candidates@.map_values(|c: String| c@), present@) == Some(p@),
            None => first_present(candidates@.map_values(|c: String| c@), present@) is None,
        },
{
    let ghost cs = candidates@.map_values(|c: String| c@);
    let n = if candidates.len() < present.len() { candidates.len() } else { present.len() };
    let mut i: usize = 0;
    assert(cs.subrange(0, cs.len() as int) =~= cs);
    assert(present@.subrange(0, present@.len() as int) =~= present@);
    while i < n
        invariant
            cs == candidates@.map_values(|c: String| c@),
            n <= candidates@.len(),
            n <= present@.len(),
            n == candidates@.len() || n == present@.len(),
            i <= n,
            first_present(cs, present@) == first_present(
                cs.subrange(i as int, cs.len() as int),
                present@.subrange(i as int, present@.len() as int),
            ),
        decreases n - i,
    {
        let ghost c = cs.subrange(i as int, cs.len() as int);
        let ghost p = present@.subrange(i as int, present@.len() as int);
        if present[i] {
            assert(c[0] == candidates@[i as int]@);
            return Some(candidates[i].clone());
        }
        assert(c.drop_first() =~= cs.subrange(i + 1, cs.len() as int));
        assert(p.drop_first() =~= present@.subrange(i + 1, present@.len() as int));
        i = i + 1;
    }
    None
}

/// Whether an export path asks for JSON: it ends with `.json`.
pub fn is_json_export(path: &str) -> (r: bool)
    ensures
        r == has_suffix(path@, ".json"@),
{
    let p = chars_of(path);
    let j = chars_of(".json");
    crate::text::ends_with(p.as_slice(), j.as_slice())
}

} // verus!
