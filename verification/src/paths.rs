//! Path helpers: joining, relative paths and canonicalisation, on paths
//! held as strings.
use vstd::prelude::*;

use crate::text::{chars_of, concat, ends_with, has_prefix, has_suffix, opt_chars, owned, starts_with, string_of};

verus! {

/// `Path::strip_prefix`: the path relative to `base` when `base` is a
/// prefix of it by whole components, `None` otherwise.
pub uninterp spec fn path_strip(path: Seq<char>, base: Seq<char>) -> Option<Seq<char>>;

/// `Path::strip_prefix`, its result named [`path_strip`].
#[verifier::external_body]
pub(crate) fn strip_path_prefix(path: &str, base: &str) -> (r: Option<String>)
    ensures
        opt_chars(r) == path_strip(path@, base@),
{
    match std::path::Path::new(path).strip_prefix(base) {
        Ok(p) => Some(p.to_string_lossy().into_owned()),
        Err(_) => None,
    }
}

/// `Path::extension`: the part of the file name after its last `.`, if
/// the file name has one that does not start it.
pub uninterp spec fn path_ext(path: Seq<char>) -> Option<Seq<char>>;

/// `Path::extension` on a path held as a string, its result named
/// [`path_ext`]. Which characters make the file name is not stated.
#[verifier::external_body]
pub(crate) fn path_extension(path: &str) -> (r: Option<String>)
    ensures
        opt_chars(r) == path_ext(path@),
{
    std::path::Path::new(path).extension().and_then(|e| e.to_str()).map(|e| e.to_string())
}

/// `Path::join` on a relative path: a separator is put between the two
/// unless the base is empty or already ends with one; an absolute path
/// replaces the base.
pub open spec fn path_join(base: Seq<char>, rel: Seq<char>) -> Seq<char> {
    if has_prefix(rel, "/"@) {
        rel
    } else if base.len() == 0 || has_suffix(base, "/"@) {
        base + rel
    } else {
        base + "/"@ + rel
    }
}

/// Joins `rel` onto `base` as `Path::join` does.
pub fn join_path(base: &str, rel: &str) -> (s: String)
    ensures
        s@ == path_join(base@, rel@),
{
    proof {
        reveal_strlit("/");
    }
    if starts_with(rel, "/") {
        owned(rel)
    } else if base.unicode_len() == 0 || ends_with(base, "/") {
        concat(base, rel)
    } else {
        let b = concat(base, "/");
        concat(b.as_str(), rel)
    }
}

/// Whether a path starts with a drive (`C:`) or with `UNC\`.
pub open spec fn drive_or_unc(p: Seq<char>) -> bool {
    ||| (p.len() >= 2 && (('a' <= p[0] && p[0] <= 'z') || ('A' <= p[0] && p[0] <= 'Z')) && p[1] == ':')
    ||| has_prefix(p, "UNC\\"@)
}

/// The form of a canonical path: rooted at `/` (Unix), or in Windows'
/// extended-length syntax, `\\?\` followed by a drive or by `UNC\`.
pub open spec fn canonical_form(c: Seq<char>) -> bool {
    has_prefix(c, "/"@) || (has_prefix(c, "\\\\?\\"@) && drive_or_unc(c.skip(4)))
}

/// An absolute path once the extended-length prefix is gone: rooted at
/// `/`, or starting with a drive or `UNC\`.
pub open spec fn absolute_without_unc(p: Seq<char>) -> bool {
    has_prefix(p, "/"@) || drive_or_unc(p)
}

/// `Path::canonicalize`: the canonical, absolute form of the path with
/// every link resolved, or `None` when that fails (the path does not
/// exist, say). Which path comes back depends on the file system; only
/// its absolute form is claimed.
#[verifier::external_body]
fn canonical_path(path: &str) -> (r: Option<String>)
    ensures
        r matches Some(c) ==> canonical_form(c@),
{
    match std::path::Path::new(path).canonicalize() {
        Ok(p) => Some(p.to_string_lossy().into_owned()),
        Err(_) => None,
    }
}

/// A path without the `\\?\` extended-length prefix that Windows puts on
/// canonical paths (canonical paths elsewhere never start with it).
pub open spec fn without_unc(p: Seq<char>) -> Seq<char> {
    if has_prefix(p, "\\\\?\\"@) {
        p.skip(4)
    } else {
        p
    }
}

/// Strips the `\\?\` extended-length path prefix.
pub fn strip_unc_prefix(path: String) -> (r: String)
    ensures
        r@ == without_unc(path@),
{
    proof {
        reveal_strlit("\\\\?\\");
    }
    if starts_with(path.as_str(), "\\\\?\\") {
        let cs = chars_of(path.as_str());
        string_of(&cs.as_slice()[4..cs.len()])
    } else {
        path
    }
}

/// The path `safe_canonicalize` settles on once canonicalisation gave
/// `canonical`: that path without its `\\?\` prefix, or the original path
/// when canonicalisation failed.
pub open spec fn settled_path(canonical: Option<Seq<char>>, path: Seq<char>) -> Seq<char> {
    match canonical {
        Some(c) => without_unc(c),
        None => path,
    }
}

/// The path settled on for a canonicalisation outcome.
pub fn settle_path(canonical: Option<String>, path: &str) -> (r: String)
    ensures
        r@ == settled_path(opt_chars(canonical), path@),
{
    match canonical {
        Some(c) => strip_unc_prefix(c),
        None => owned(path),
    }
}

/// Canonicalises `path`, stripping the Windows `\\?\` prefix, and falls
/// back to the path itself when canonicalisation fails (e.g. the path
/// does not exist yet).
pub fn safe_canonicalize(path: &str) -> (r: String)
    ensures
        r@ == path@ || absolute_without_unc(r@),
{
    let c = canonical_path(path);
    let ghost cv = opt_chars(c);
    let r = settle_path(c, path);
    proof {
        reveal_strlit("/");
        reveal_strlit("\\\\?\\");
        if let Some(cs) = cv {
            if has_prefix(cs, "/"@) && has_prefix(cs, "\\\\?\\"@) {
                assert(cs.take(1)[0] == cs[0]);
                assert(cs.take(4)[0] == cs[0]);
                assert(false);
            }
        }
    }
    r
}

} // verus!
