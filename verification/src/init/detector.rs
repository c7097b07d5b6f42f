//! Detection results: the languages `scc` reports and the availability of
//! every scanner and fixer tool.
use vstd::prelude::*;

use crate::registry::probe::ProbeResult;
use crate::strmap::StrMap;
use crate::text::{copy_strings, str_eq, to_lowercase, unicode_lower, views};

verus! {

/// A single language entry as reported by `scc --format json`.
#[derive(Debug, Clone)]
pub struct SccLanguage {
    /// Language name, e.g. `"Rust"` or `"Go"`.
    pub name: String,
    /// Number of source files in this language.
    pub files: u64,
    /// Total lines (code + comment + blank).
    pub lines: u64,
    /// Lines of actual code (excludes comments and blanks).
    pub code: u64,
}

/// The result of the `init` detection pipeline.
pub struct DetectionResult {
    /// Languages with at least one line of code.
    pub languages: Vec<SccLanguage>,
    /// Scanner tool availability keyed by scanner name.
    pub scanner_probes: StrMap<ProbeResult>,
    /// Fixer tool availability keyed by language, then by step name.
    pub fixer_probes: StrMap<StrMap<ProbeResult>>,
    /// Path of the project that was probed.
    pub project_path: String,
}

/// The languages with at least one line of code, in order.
pub open spec fn with_code(ls: Seq<SccLanguage>) -> Seq<SccLanguage>
    decreases ls.len(),
{
    if ls.len() == 0 {
        Seq::empty()
    } else if ls.last().code > 0 {
        with_code(ls.drop_last()).push(ls.last())
    } else {
        with_code(ls.drop_last())
    }
}

/// Keeps the languages with at least one line of code, in order.
pub fn keep_languages_with_code(all: Vec<SccLanguage>) -> (v: Vec<SccLanguage>)
    ensures
        v@ == with_code(all@),
{
    let mut out: Vec<SccLanguage> = Vec::new();
    let mut rest = all;
    let ghost orig = rest@;
    let n = rest.len();
    let mut i: usize = 0;
    while i < n
        invariant
            n == orig.len(),
            i <= n,
            rest@ == orig.skip(i as int),
            out@ == with_code(orig.take(i as int)),
        decreases n - i,
    {
        let l = rest.remove(0);
        proof {
            assert(orig.take(i + 1).drop_last() =~= orig.take(i as int));
            assert(rest@ =~= orig.skip(i + 1));
        }
        if l.code > 0 {
            out.push(l);
        }
        i = i + 1;
    }
    assert(orig.take(n as int) =~= orig);
    out
}

/// The lowercased names of the languages.
pub open spec fn lower_names(ls: Seq<SccLanguage>) -> Seq<Seq<char>> {
    ls.map_values(|l: SccLanguage| unicode_lower(l.name@))
}

/// The lowercased names of the detected languages, in order.
pub fn detected_language_names(languages: &Vec<SccLanguage>) -> (v: Vec<String>)
    ensures
        views(v@) == lower_names(languages@),
{
    let mut out: Vec<String> = Vec::new();
    let n = languages.len();
    for i in 0..n
        invariant
            n == languages@.len(),
            views(out@) == lower_names(languages@).take(i as int),
    {
        let name = to_lowercase(languages[i].name.as_str());
        proof {
            assert(views(out@.push(name)) =~= views(out@).push(name@));
            assert(lower_names(languages@).take(i + 1) =~= lower_names(languages@).take(
                i as int,
            ).push(name@));
        }
        out.push(name);
    }
    assert(lower_names(languages@).take(n as int) =~= lower_names(languages@));
    out
}

/// Whether the fixers of `language` are probed: only those of a detected
/// language (names compared lowercased) are.
pub fn probes_fixers_of(detected_names: &Vec<String>, language: &str) -> (b: bool)
    ensures
        b == views(detected_names@).contains(unicode_lower(language@)),
{
    let lang = to_lowercase(language);
    let n = detected_names.len();
    for i in 0..n
        invariant
            n == detected_names@.len(),
            lang@ == unicode_lower(language@),
            forall|j: int| 0 <= j < i ==> detected_names@[j]@ != lang@,
    {
        if str_eq(detected_names[i].as_str(), lang.as_str()) {
            assert(views(detected_names@)[i as int] == lang@);
            assert(views(detected_names@).contains(lang@));
            return true;
        }
    }
    assert forall|j: int| 0 <= j < views(detected_names@).len() implies views(
        detected_names@,
    )[j] != lang@ by {
        assert(views(detected_names@)[j] == detected_names@[j]@);
    }
    false
}

} // verus!
