//! Tool-native exclude flags derived from active ignore patterns.
use vstd::prelude::*;

use crate::config::{default_exclude_patterns, FiltersConfig, RiceGuardConfig};
use crate::text::{
    contains_char, copy_strings, has_prefix, owned, starts_with, str_eq, trim_end_char, trim_end_matches_char,
    views,
};

verus! {

/// Per-tool exclude flag arguments derived from active ignore patterns.
///
/// Gitleaks ignores by fingerprint, not by path, so it gets no flags here.
#[derive(Debug, Clone)]
pub struct ExcludeArgs {
    /// `--exclude <pattern>` pairs for semgrep.
    pub semgrep: Vec<String>,
    /// `--skip-dirs <pattern>` pairs for trivy (no glob wildcards).
    pub trivy: Vec<String>,
    /// `--ignore <pattern>` pairs for jscpd.
    pub jscpd: Vec<String>,
    /// `--exclude-dir <pattern>` pairs for scc (no glob wildcards).
    pub scc: Vec<String>,
}

impl Default for ExcludeArgs {
    fn default() -> (a: Self)
        ensures
            a.semgrep@.len() == 0,
            a.trivy@.len() == 0,
            a.jscpd@.len() == 0,
            a.scc@.len() == 0,
    {
        ExcludeArgs { semgrep: Vec::new(), trivy: Vec::new(), jscpd: Vec::new(), scc: Vec::new() }
    }
}

/// A pattern with its trailing slashes removed.
pub open spec fn clean_pattern(p: Seq<char>) -> Seq<char> {
    trim_end_char(p, '/')
}

/// Whether a pattern becomes an exclude flag: negations are rescues, not
/// excludes, and a pattern that is only slashes says nothing.
pub open spec fn excludes(p: Seq<char>) -> bool {
    !has_prefix(p, "!"@) && clean_pattern(p).len() > 0
}

/// The `flag value` pairs for the patterns that become exclude flags; with
/// `plain_only`, those whose cleaned form holds a `*` are left out.
pub open spec fn flag_pairs(ps: Seq<Seq<char>>, flag: Seq<char>, plain_only: bool) -> Seq<Seq<char>>
    decreases ps.len(),
{
    if ps.len() == 0 {
        Seq::empty()
    } else {
        let p = ps.last();
        flag_pairs(ps.drop_last(), flag, plain_only) + if excludes(p) && !(plain_only
            && clean_pattern(p).contains('*')) {
            seq![flag, clean_pattern(p)]
        } else {
            Seq::empty()
        }
    }
}

/// The sequence with each element after its first occurrence dropped.
pub open spec fn dedup(s: Seq<Seq<char>>) -> Seq<Seq<char>>
    decreases s.len(),
{
    if s.len() == 0 {
        Seq::empty()
    } else {
        let d = dedup(s.drop_last());
        if d.contains(s.last()) {
            d
        } else {
            d.push(s.last())
        }
    }
}

/// Deduplication keeps exactly the elements it is given, each once.
pub proof fn lemma_dedup(s: Seq<Seq<char>>)
    ensures
        forall|x: Seq<char>| s.contains(x) <==> dedup(s).contains(x),
        forall|i: int, j: int| 0 <= i < j < dedup(s).len() ==> dedup(s)[i] != dedup(s)[j],
    decreases s.len(),
{
    if s.len() > 0 {
        lemma_dedup(s.drop_last());
        let d = dedup(s.drop_last());
        assert forall|x: Seq<char>| s.contains(x) <==> dedup(s).contains(x) by {
            if s.contains(x) {
                let k = choose|k: int| 0 <= k < s.len() && s[k] == x;
                if k < s.len() - 1 {
                    assert(s.drop_last()[k] == x);
                    assert(s.drop_last().contains(x));
                    assert(d.contains(x));
                    if !d.contains(s.last()) {
                        let m = choose|m: int| 0 <= m < d.len() && d[m] == x;
                        assert(dedup(s)[m] == x);
                    }
                } else if !d.contains(s.last()) {
                    assert(dedup(s)[d.len() as int] == x);
                }
            }
            if dedup(s).contains(x) && x != s.last() {
                if !d.contains(s.last()) {
                    let m = choose|m: int| 0 <= m < dedup(s).len() && dedup(s)[m] == x;
                    assert(d[m] == x);
                }
                assert(d.contains(x));
                assert(s.drop_last().contains(x));
                let k = choose|k: int| 0 <= k < s.drop_last().len() && s.drop_last()[k] == x;
                assert(s[k] == x);
            }
        }
    }
}

fn push_pair(v: &mut Vec<String>, flag: &str, value: &str)
    ensures
        views(final(v)@) == views(old(v)@) + seq![flag@, value@],
{
    let f = owned(flag);
    let x = owned(value);
    proof {
        assert(views(old(v)@.push(f).push(x)) =~= views(old(v)@) + seq![flag@, value@]);
    }
    v.push(f);
    v.push(x);
}

fn contains_string(v: &Vec<String>, s: &str) -> (r: bool)
    ensures
        r == views(v@).contains(s@),
{
    let n = v.len();
    for i in 0..n
        invariant
            n == v@.len(),
            forall|j: int| 0 <= j < i ==> v@[j]@ != s@,
    {
        if str_eq(v[i].as_str(), s) {
            assert(views(v@)[i as int] == s@);
            return true;
        }
    }
    assert forall|j: int| 0 <= j < views(v@).len() implies views(v@)[j] != s@ by {
        assert(views(v@)[j] == v@[j]@);
    }
    false
}

impl ExcludeArgs {
    /// The exclude flags of a scanner by its name; none for a scanner that
    /// takes no path excludes.
    pub fn flags_for(&self, scanner: &str) -> (v: Vec<String>)
        ensures
            views(v@) == if scanner@ == "semgrep"@ {
                views(self.semgrep@)
            } else if scanner@ == "trivy"@ {
                views(self.trivy@)
            } else if scanner@ == "jscpd"@ {
                views(self.jscpd@)
            } else if scanner@ == "scc"@ {
                views(self.scc@)
            } else {
                Seq::empty()
            },
    {
        if str_eq(scanner, "semgrep") {
            copy_strings(&self.semgrep)
        } else if str_eq(scanner, "trivy") {
            copy_strings(&self.trivy)
        } else if str_eq(scanner, "jscpd") {
            copy_strings(&self.jscpd)
        } else if str_eq(scanner, "scc") {
            copy_strings(&self.scc)
        } else {
            let v: Vec<String> = Vec::new();
            assert(views(v@) =~= Seq::<Seq<char>>::empty());
            v
        }
    }

    /// Builds the exclude flags from gitignore-style patterns: negations
    /// are skipped, trailing slashes are stripped, and patterns holding a
    /// `*` reach semgrep and jscpd only (trivy and scc take no globs).
    pub fn from_patterns(patterns: &[String]) -> (a: Self)
        ensures
            views(a.semgrep@) == flag_pairs(views(patterns@), "--exclude"@, false),
            views(a.jscpd@) == flag_pairs(views(patterns@), "--ignore"@, false),
            views(a.trivy@) == flag_pairs(views(patterns@), "--skip-dirs"@, true),
            views(a.scc@) == flag_pairs(views(patterns@), "--exclude-dir"@, true),
    {
        let mut args = ExcludeArgs::default();
        let n = patterns.len();
        let ghost ps = views(patterns@);
        proof {
            assert(views(args.semgrep@) =~= Seq::<Seq<char>>::empty());
            assert(views(args.jscpd@) =~= Seq::<Seq<char>>::empty());
            assert(views(args.trivy@) =~= Seq::<Seq<char>>::empty());
            assert(views(args.scc@) =~= Seq::<Seq<char>>::empty());
        }
        for i in 0..n
            invariant
                n == patterns@.len(),
                ps == views(patterns@),
                views(args.semgrep@) == flag_pairs(ps.take(i as int), "--exclude"@, false),
                views(args.jscpd@) == flag_pairs(ps.take(i as int), "--ignore"@, false),
                views(args.trivy@) == flag_pairs(ps.take(i as int), "--skip-dirs"@, true),
                views(args.scc@) == flag_pairs(ps.take(i as int), "--exclude-dir"@, true),
        {
            let pattern = patterns[i].as_str();
            proof {
                assert(ps.take(i + 1).drop_last() =~= ps.take(i as int));
                assert(ps.take(i + 1).last() == pattern@);
                reveal_strlit("!");
            }
            if !starts_with(pattern, "!") {
                let clean = trim_end_matches_char(pattern, '/');
                if clean.as_str().unicode_len() > 0 {
                    let has_glob = contains_char(clean.as_str(), '*');
                    push_pair(&mut args.semgrep, "--exclude", clean.as_str());
                    push_pair(&mut args.jscpd, "--ignore", clean.as_str());
                    if !has_glob {
                        push_pair(&mut args.trivy, "--skip-dirs", clean.as_str());
                        push_pair(&mut args.scc, "--exclude-dir", clean.as_str());
                    }
                }
            }
        }
        proof {
            assert(ps.take(n as int) =~= ps);
        }
        args
    }

    /// The active exclude patterns: the built-in defaults followed by the
    /// configured excludes, each kept once at its first occurrence. The
    /// configured includes are rescues and take no part.
    pub fn collect_active_patterns(config: &RiceGuardConfig) -> (v: Vec<String>)
        ensures
            views(v@) == dedup(default_exclude_patterns() + views(config.filters.exclude@)),
    {
        let defaults = FiltersConfig::default_excludes();
        let ghost all = default_exclude_patterns() + views(config.filters.exclude@);
        let mut result: Vec<String> = Vec::new();
        let nd = defaults.len();
        let ne = config.filters.exclude.len();
        assert(all.take(0) =~= Seq::<Seq<char>>::empty());
        for i in 0..nd
            invariant
                nd == defaults@.len(),
                views(defaults@) == default_exclude_patterns(),
                all == default_exclude_patterns() + views(config.filters.exclude@),
                views(result@) == dedup(all.take(i as int)),
        {
            let p = defaults[i].as_str();
            proof {
                assert(all.take(i + 1).drop_last() =~= all.take(i as int));
                assert(all.take(i + 1).last() == views(defaults@)[i as int]);
            }
            if !contains_string(&result, p) {
                let s = owned(p);
                assert(views(result@.push(s)) =~= views(result@).push(s@));
                result.push(s);
            }
        }
        for j in 0..ne
            invariant
                nd == default_exclude_patterns().len(),
                ne == config.filters.exclude@.len(),
                all == default_exclude_patterns() + views(config.filters.exclude@),
                views(result@) == dedup(all.take(nd + j)),
        {
            let p = config.filters.exclude[j].as_str();
            proof {
                assert(all.take(nd + j + 1).drop_last() =~= all.take(nd + j));
                assert(all.take(nd + j + 1).last() == views(config.filters.exclude@)[j as int]);
            }
            if !contains_string(&result, p) {
                let s = owned(p);
                assert(views(result@.push(s)) =~= views(result@).push(s@));
                result.push(s);
            }
        }
        assert(all.take(nd + ne) =~= all);
        result
    }
}

/// The active patterns hold each default and each configured exclude,
/// nothing else, and none twice.
pub proof fn lemma_active_patterns(excluded: Seq<Seq<char>>)
    ensures
        ({
            let v = dedup(default_exclude_patterns() + excluded);
            &&& forall|x: Seq<char>| #[trigger]
                v.contains(x) <==> default_exclude_patterns().contains(x) || excluded.contains(x)
            &&& forall|i: int, j: int| 0 <= i < j < v.len() ==> v[i] != v[j]
        }),
{
    let all = default_exclude_patterns() + excluded;
    lemma_dedup(all);
    assert forall|x: Seq<char>| all.contains(x) <==> default_exclude_patterns().contains(x)
        || excluded.contains(x) by {
        if all.contains(x) {
            let k = choose|k: int| 0 <= k < all.len() && all[k] == x;
            if k >= default_exclude_patterns().len() {
                assert(excluded[k - default_exclude_patterns().len()] == x);
            }
        }
        if excluded.contains(x) {
            let k = choose|k: int| 0 <= k < excluded.len() && excluded[k] == x;
            assert(all[k + default_exclude_patterns().len()] == x);
        }
        if default_exclude_patterns().contains(x) {
            let k = choose|k: int| 0 <= k < default_exclude_patterns().len()
                && default_exclude_patterns()[k] == x;
            assert(all[k] == x);
        }
    }
    let v = dedup(all);
    assert forall|x: Seq<char>| #[trigger]
        v.contains(x) <==> default_exclude_patterns().contains(x) || excluded.contains(x) by {
        assert(all.contains(x) <==> v.contains(x));
    }
}

} // verus!
