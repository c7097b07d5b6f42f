//! The ignore engine: gitignore-style patterns from every source, layered
//! in priority order and compiled into one matcher.
//!
//! Layers, later ones overriding earlier ones:
//! 1. built-in defaults (`vendor/`, `node_modules/`, `target/`, ...);
//! 2. the global ignore file;
//! 3. `.gitignore`, only when asked for;
//! 4. `.rguardignore`, or `.rgignore` when the first is absent;
//! 5. the configured excludes;
//! 6. the configured includes, as `!` negations (rescues).
//!
//! Lines from files that the matcher refuses are skipped; a refused
//! built-in or configured pattern makes the whole build fail.
use vstd::prelude::*;

use crate::config::{default_exclude_patterns, FiltersConfig, RiceGuardConfig};
use crate::paths::{path_strip, strip_path_prefix};
use crate::text::{
    chars_of, concat, contains_char, has_prefix, has_suffix, lines_of, string_of, opt_chars, owned, split_lines, starts_with,
    trim_start_matches, trim_start_str, trim_ws_end, views,
};

verus! {

#[verifier::external_type_specification]
#[verifier::external_body]
pub struct ExGitignoreBuilder(ignore::gitignore::GitignoreBuilder);

#[verifier::external_type_specification]
#[verifier::external_body]
pub struct ExGitignore(ignore::gitignore::Gitignore);

#[verifier::external_type_specification]
#[verifier::external_body]
pub struct ExIgnoreError(ignore::Error);

/// The globs a gitignore builder holds, in the order they were added, each
/// as the line it came from with trailing whitespace trimmed.
pub uninterp spec fn builder_lines(b: ignore::gitignore::GitignoreBuilder) -> Seq<Seq<char>>;

/// The root a gitignore builder matches paths relative to.
pub uninterp spec fn builder_root(b: ignore::gitignore::GitignoreBuilder) -> Seq<char>;

/// The globs a gitignore matcher was built from, in order.
pub uninterp spec fn matcher_lines(g: ignore::gitignore::Gitignore) -> Seq<Seq<char>>;

/// The root a gitignore matcher matches paths relative to.
pub uninterp spec fn matcher_root(g: ignore::gitignore::Gitignore) -> Seq<char>;

/// Whether the `ignore` crate accepts a line of a gitignore file (a
/// comment, a blank line or a glob it can parse).
pub uninterp spec fn gitignore_line_ok(line: Seq<char>) -> bool;

/// Whether a gitignore matcher can be compiled from these lines.
pub uninterp spec fn gitignore_builds(lines: Seq<Seq<char>>) -> bool;

/// Whether gitignore lines, rooted at `root`, ignore `path` or one of its
/// parent directories (the last matching glob decides; `!` globs rescue).
pub uninterp spec fn gitignore_ignores(
    root: Seq<char>,
    lines: Seq<Seq<char>>,
    path: Seq<char>,
    is_dir: bool,
) -> bool;

/// The root a builder keeps: the given one with a leading `./` removed.
pub open spec fn strip_dot_slash(root: Seq<char>) -> Seq<char> {
    if has_prefix(root, "./"@) {
        root.skip(2)
    } else {
        root
    }
}

/// The glob a gitignore line makes, if any: a line starting with `#` is a
/// comment; otherwise trailing whitespace is trimmed (unless the line ends
/// with an escaped space, `\ `), and what is left, if not empty, is the glob.
pub open spec fn glob_line(line: Seq<char>) -> Option<Seq<char>> {
    if has_prefix(line, "#"@) {
        None
    } else {
        let t = if has_suffix(line, "\\ "@) {
            line
        } else {
            trim_ws_end(line)
        };
        if t.len() == 0 {
            None
        } else {
            Some(t)
        }
    }
}

/// `GitignoreBuilder::new`: a builder with no globs, whose root is `root`
/// with a leading `./` removed.
#[verifier::external_body]
fn gitignore_builder(root: &str) -> (b: ignore::gitignore::GitignoreBuilder)
    ensures
        builder_lines(b) == Seq::<Seq<char>>::empty(),
        builder_root(b) == strip_dot_slash(root@),
{
    ignore::gitignore::GitignoreBuilder::new(root)
}

/// `GitignoreBuilder::add_line`: a comment or blank line is accepted and
/// adds nothing; any other line is accepted when its glob parses, and the
/// builder then holds the trimmed line as one more glob. A refused line
/// leaves the builder as it was. Whether a glob parses is not stated.
#[verifier::external_body]
fn gitignore_add_line(b: &mut ignore::gitignore::GitignoreBuilder, line: &str) -> (r: Result<(), ignore::Error>)
    ensures
        r is Ok <==> gitignore_line_ok(line@),
        glob_line(line@) is None ==> r is Ok,
        builder_root(*final(b)) == builder_root(*old(b)),
        builder_lines(*final(b)) == (match glob_line(line@) {
            Some(g) => if r is Ok {
                builder_lines(*old(b)).push(g)
            } else {
                builder_lines(*old(b))
            },
            None => builder_lines(*old(b)),
        }),
{
    match b.add_line(None, line) {
        Ok(_) => Ok(()),
        Err(e) => Err(e),
    }
}

/// The root of the matcher built from a builder: with no globs the crate
/// hands back its empty matcher, whose root is empty.
pub open spec fn built_root(lines: Seq<Seq<char>>, root: Seq<char>) -> Seq<char> {
    if lines.len() == 0 {
        Seq::empty()
    } else {
        root
    }
}

/// `GitignoreBuilder::build`: compiles the builder's globs into a matcher;
/// with no globs it always succeeds with the empty matcher. Whether a
/// non-empty set of globs compiles is not stated.
#[verifier::external_body]
fn gitignore_build(b: &ignore::gitignore::GitignoreBuilder) -> (r: Result<ignore::gitignore::Gitignore, ignore::Error>)
    ensures
        r is Ok <==> gitignore_builds(builder_lines(*b)),
        builder_lines(*b).len() == 0 ==> r is Ok,
        r matches Ok(g) ==> matcher_lines(g) == builder_lines(*b) && matcher_root(g)
            == built_root(builder_lines(*b), builder_root(*b)),
{
    b.build()
}

/// Whether a path's components are just `.` (`Path::new(p) == Path::new(".")`):
/// a leading `.`, then only empty and `.` segments.
pub open spec fn is_dot_path(p: Seq<char>) -> bool {
    &&& p.len() > 0
    &&& p[0] == '.'
    &&& forall|i: int|
        1 <= i < p.len() ==> #[trigger] p[i] == '/' || (p[i] == '.' && p[i - 1] == '/' && (i + 1
            == p.len() || p[i + 1] == '/'))
}

/// The path a matcher with root `root` matches after its own stripping: a
/// leading `./` goes; then, unless the root is `.` or the path is a bare
/// file name, a root prefix goes together with one `/` after it.
pub open spec fn matcher_stripped(root: Seq<char>, path: Seq<char>) -> Seq<char> {
    let p = if has_prefix(path, "./"@) {
        path.skip(2)
    } else {
        path
    };
    if !is_dot_path(root) && p.contains('/') && has_prefix(p, root) {
        let q = p.skip(root.len() as int);
        if has_prefix(q, "/"@) {
            q.skip(1)
        } else {
            q
        }
    } else {
        p
    }
}

/// Whether a matcher with this root and these globs can be asked about a
/// path: with no globs it answers at once; otherwise it panics when the
/// path, once stripped, still starts at `/`.
pub open spec fn matchable(root: Seq<char>, lines: Seq<Seq<char>>, path: Seq<char>) -> bool {
    lines.len() == 0 || !has_prefix(matcher_stripped(root, path), "/"@)
}

/// `Gitignore::matched_path_or_any_parents`: whether the path or one of
/// its parents is ignored (and not rescued). Paths are taken as Unix paths.
#[verifier::external_body]
fn gitignore_matched(g: &ignore::gitignore::Gitignore, path: &str, is_dir: bool) -> (r: bool)
    requires
        matchable(matcher_root(*g), matcher_lines(*g), path@),
    ensures
        r == gitignore_ignores(matcher_root(*g), matcher_lines(*g), path@, is_dir),
{
    match g.matched_path_or_any_parents(std::path::Path::new(path), is_dir) {
        ignore::Match::Ignore(_) => true,
        ignore::Match::Whitelist(_) => false,
        ignore::Match::None => false,
    }
}

/// The contents of the ignore files that exist, as read from disk.
pub struct IgnoreFiles {
    /// The global ignore file.
    pub global: Option<String>,
    /// The project's `.gitignore`.
    pub gitignore: Option<String>,
    /// The project's `.rguardignore`.
    pub rguardignore: Option<String>,
    /// The project's `.rgignore`.
    pub rgignore: Option<String>,
}

/// The lines of an ignore file, a byte-order mark at its start removed.
pub open spec fn file_lines(contents: Seq<char>) -> Seq<Seq<char>> {
    let ls = lines_of(contents);
    if ls.len() == 0 {
        ls
    } else {
        ls.update(0, trim_start_str(ls[0], seq!['\u{feff}']))
    }
}

/// Lines whose refusal is skipped over.
pub open spec fn soft_lines(file: Option<Seq<char>>) -> Seq<(Seq<char>, bool)> {
    match file {
        Some(c) => file_lines(c).map_values(|l: Seq<char>| (l, false)),
        None => Seq::empty(),
    }
}

/// Lines whose refusal fails the build.
pub open spec fn strict_lines(ps: Seq<Seq<char>>) -> Seq<(Seq<char>, bool)> {
    ps.map_values(|p: Seq<char>| (p, true))
}

/// A pattern as a rescue: negated unless it already is.
pub open spec fn rescue(p: Seq<char>) -> Seq<char> {
    if has_prefix(p, "!"@) {
        p
    } else {
        "!"@ + p
    }
}

/// All ignore lines in priority order, each with whether its refusal fails
/// the build.
pub open spec fn ignore_layers(
    excludes: Seq<Seq<char>>,
    includes: Seq<Seq<char>>,
    respect_gitignore: bool,
    global: Option<Seq<char>>,
    gitignore: Option<Seq<char>>,
    rguardignore: Option<Seq<char>>,
    rgignore: Option<Seq<char>>,
) -> Seq<(Seq<char>, bool)> {
    strict_lines(default_exclude_patterns()) + soft_lines(global) + (if respect_gitignore {
        soft_lines(gitignore)
    } else {
        Seq::empty()
    }) + (if rguardignore is Some {
        soft_lines(rguardignore)
    } else {
        soft_lines(rgignore)
    }) + strict_lines(excludes) + strict_lines(includes.map_values(|p: Seq<char>| rescue(p)))
}

/// The layers for a config and the files found.
pub open spec fn layers_for(config: RiceGuardConfig, respect_gitignore: bool, files: IgnoreFiles) -> Seq<
    (Seq<char>, bool),
> {
    ignore_layers(
        views(config.filters.exclude@),
        views(config.filters.includes@),
        respect_gitignore,
        opt_chars(files.global),
        opt_chars(files.gitignore),
        opt_chars(files.rguardignore),
        opt_chars(files.rgignore),
    )
}

/// The globs the matcher takes from the lines, in order: one for each
/// accepted line that makes a glob.
pub open spec fn accepted(ls: Seq<(Seq<char>, bool)>) -> Seq<Seq<char>>
    decreases ls.len(),
{
    if ls.len() == 0 {
        Seq::empty()
    } else {
        match glob_line(ls.last().0) {
            Some(g) => if gitignore_line_ok(ls.last().0) {
                accepted(ls.drop_last()).push(g)
            } else {
                accepted(ls.drop_last())
            },
            None => accepted(ls.drop_last()),
        }
    }
}

/// The first line that the matcher refuses and whose refusal fails the
/// build.
pub open spec fn first_refused(ls: Seq<(Seq<char>, bool)>) -> Option<Seq<char>>
    decreases ls.len(),
{
    if ls.len() == 0 {
        None
    } else {
        match first_refused(ls.drop_last()) {
            Some(p) => Some(p),
            None => if ls.last().1 && !gitignore_line_ok(ls.last().0) {
                Some(ls.last().0)
            } else {
                None
            },
        }
    }
}

/// When `.rguardignore` exists, `.rgignore` is not read: its contents
/// make no difference to the layers.
pub proof fn lemma_rguardignore_shadows_rgignore(
    excludes: Seq<Seq<char>>,
    includes: Seq<Seq<char>>,
    respect_gitignore: bool,
    global: Option<Seq<char>>,
    gitignore: Option<Seq<char>>,
    rguardignore: Seq<char>,
    rgignore_a: Option<Seq<char>>,
    rgignore_b: Option<Seq<char>>,
)
    ensures
        ignore_layers(excludes, includes, respect_gitignore, global, gitignore, Some(rguardignore), rgignore_a)
            == ignore_layers(excludes, includes, respect_gitignore, global, gitignore, Some(rguardignore), rgignore_b),
{
}

/// `.gitignore` is read only when asked for: without it, its contents
/// make no difference to the layers.
pub proof fn lemma_gitignore_opt_in(
    excludes: Seq<Seq<char>>,
    includes: Seq<Seq<char>>,
    global: Option<Seq<char>>,
    gitignore_a: Option<Seq<char>>,
    gitignore_b: Option<Seq<char>>,
    rguardignore: Option<Seq<char>>,
    rgignore: Option<Seq<char>>,
)
    ensures
        ignore_layers(excludes, includes, false, global, gitignore_a, rguardignore, rgignore)
            == ignore_layers(excludes, includes, false, global, gitignore_b, rguardignore, rgignore),
{
}

/// Every configured include comes last, as a rescue, so it overrides
/// every exclude before it.
pub proof fn lemma_includes_come_last(
    excludes: Seq<Seq<char>>,
    includes: Seq<Seq<char>>,
    respect_gitignore: bool,
    global: Option<Seq<char>>,
    gitignore: Option<Seq<char>>,
    rguardignore: Option<Seq<char>>,
    rgignore: Option<Seq<char>>,
)
    ensures
        ({
            let ls = ignore_layers(excludes, includes, respect_gitignore, global, gitignore, rguardignore, rgignore);
            let k = ls.len() - includes.len();
            &&& k >= 0
            &&& forall|j: int| 0 <= j < includes.len() ==> #[trigger] ls[k + j] == (rescue(includes[j]), true)
            &&& forall|j: int| 0 <= j < includes.len() ==> has_prefix(#[trigger] rescue(includes[j]), "!"@)
        }),
{
    reveal_strlit("!");
    let ls = ignore_layers(excludes, includes, respect_gitignore, global, gitignore, rguardignore, rgignore);
    let k = ls.len() - includes.len();
    assert forall|j: int| 0 <= j < includes.len() implies has_prefix(#[trigger] rescue(includes[j]), "!"@) by {
        let p = includes[j];
        if !has_prefix(p, "!"@) {
            assert(("!"@ + p).take(1) =~= "!"@);
        }
    }
}

/// Why an ignore engine could not be built.
#[derive(Debug)]
pub enum IgnoreError {
    /// A built-in or configured pattern is not a valid glob.
    InvalidPattern { pattern: String, source: ignore::Error },
    /// The accepted patterns could not be compiled together.
    Build { source: ignore::Error },
}

/// The lines of an ignore file, as [`file_lines`] gives them.
fn ignore_file_lines(contents: &str) -> (v: Vec<String>)
    ensures
        views(v@) == file_lines(contents@),
{
    let mut ls = split_lines(contents);
    if ls.len() > 0 {
        let first = trim_start_matches(ls[0].as_str(), "\u{feff}");
        proof {
            reveal_strlit("\u{feff}");
            assert("\u{feff}"@ =~= seq!['\u{feff}']);
        }
        ls.set(0, first);
        assert(views(ls@) =~= lines_of(contents@).update(0, first@));
    }
    ls
}

fn push_lines(out: &mut Vec<(String, bool)>, lines: Vec<String>, strict: bool)
    ensures
        line_views(final(out)@) == line_views(old(out)@) + views(lines@).map_values(
            |l: Seq<char>| (l, strict),
        ),
{
    let n = lines.len();
    let ghost start = line_views(out@);
    let mut lines = lines;
    let mut i: usize = 0;
    let ghost all = views(lines@);
    while i < n
        invariant
            n == lines@.len(),
            i <= n,
            all == views(lines@),
            line_views(out@) == start + all.take(i as int).map_values(
                |l: Seq<char>| (l, strict),
            ),
        decreases n - i,
    {
        let l = lines[i].clone();
        proof {
            assert(line_views(out@.push((l, strict))) =~= line_views(out@).push((l@, strict)));
            assert(all.take(i + 1).map_values(|l: Seq<char>| (l, strict)) =~= all.take(
                i as int,
            ).map_values(|l: Seq<char>| (l, strict)).push((all[i as int], strict)));
        }
        out.push((l, strict));
        i = i + 1;
    }
    assert(all.take(n as int) =~= all);
}

/// The text and strictness of each line.
pub open spec fn line_views(v: Seq<(String, bool)>) -> Seq<(Seq<char>, bool)> {
    v.map_values(|l: (String, bool)| (l.0@, l.1))
}

fn push_file(out: &mut Vec<(String, bool)>, file: &Option<String>)
    ensures
        line_views(final(out)@) == line_views(old(out)@) + soft_lines(opt_chars(*file)),
{
    match file {
        Some(c) => push_lines(out, ignore_file_lines(c.as_str()), false),
        None => {
            assert(line_views(out@) + soft_lines(opt_chars(*file)) =~= line_views(out@));
        },
    }
}

/// All ignore lines for a config and the files found, in priority order,
/// each with whether its refusal fails the build.
pub fn collect_ignore_lines(
    config: &RiceGuardConfig,
    respect_gitignore: bool,
    files: &IgnoreFiles,
) -> (v: Vec<(String, bool)>)
    ensures
        line_views(v@) == layers_for(*config, respect_gitignore, *files),
{
    let mut out: Vec<(String, bool)> = Vec::new();
    assert(line_views(out@) =~= Seq::<(Seq<char>, bool)>::empty());
    push_lines(&mut out, FiltersConfig::default_excludes(), true);
    push_file(&mut out, &files.global);
    if respect_gitignore {
        push_file(&mut out, &files.gitignore);
    }
    let ghost mid = line_views(out@);
    if files.rguardignore.is_some() {
        push_file(&mut out, &files.rguardignore);
    } else {
        push_file(&mut out, &files.rgignore);
    }
    push_lines(&mut out, crate::text::copy_strings(&config.filters.exclude), true);
    let mut rescues: Vec<String> = Vec::new();
    let ni = config.filters.includes.len();
    let ghost incl = views(config.filters.includes@);
    for i in 0..ni
        invariant
            ni == config.filters.includes@.len(),
            incl == views(config.filters.includes@),
            views(rescues@) == incl.take(i as int).map_values(|p: Seq<char>| rescue(p)),
    {
        let p = config.filters.includes[i].as_str();
        proof {
            reveal_strlit("!");
        }
        let negation = if starts_with(p, "!") {
            owned(p)
        } else {
            concat("!", p)
        };
        proof {
            assert(views(rescues@.push(negation)) =~= views(rescues@).push(negation@));
            assert(incl.take(i + 1).map_values(|p: Seq<char>| rescue(p)) =~= incl.take(
                i as int,
            ).map_values(|p: Seq<char>| rescue(p)).push(rescue(incl[i as int])));
        }
        rescues.push(negation);
    }
    assert(incl.take(ni as int) =~= incl);
    push_lines(&mut out, rescues, true);
    let ghost layers = layers_for(*config, respect_gitignore, *files);
    assert(line_views(out@) =~= layers);
    out
}

/// The compiled ignore matcher of a project.
pub struct IgnoreEngine {
    matcher: ignore::gitignore::Gitignore,
    root: String,
}

/// The path a query matches: relative to the root when it lies under it.
pub open spec fn relative_path(path: Seq<char>, root: Seq<char>) -> Seq<char> {
    match path_strip(path, root) {
        Some(r) => r,
        None => path,
    }
}

/// `Gitignore::is_empty`: whether the matcher holds no globs.
#[verifier::external_body]
fn gitignore_is_empty(g: &ignore::gitignore::Gitignore) -> (r: bool)
    ensures
        r == (matcher_lines(*g).len() == 0),
{
    g.is_empty()
}

fn skip_chars(s: &str, k: usize) -> (r: String)
    requires
        k <= s@.len(),
    ensures
        r@ == s@.skip(k as int),
{
    let cs = chars_of(s);
    let r = string_of(&cs.as_slice()[k..cs.len()]);
    assert(cs@.subrange(k as int, cs@.len() as int) =~= s@.skip(k as int));
    r
}

fn strip_dot_slash_str(root: &str) -> (r: String)
    ensures
        r@ == strip_dot_slash(root@),
{
    proof {
        reveal_strlit("./");
    }
    if starts_with(root, "./") {
        skip_chars(root, 2)
    } else {
        owned(root)
    }
}

fn dot_path(p: &str) -> (b: bool)
    ensures
        b == is_dot_path(p@),
{
    let cs = chars_of(p);
    let n = cs.len();
    if n == 0 || cs[0] != '.' {
        return false;
    }
    for i in 1..n
        invariant
            n == cs@.len(),
            cs@ == p@,
            n > 0,
            forall|j: int|
                1 <= j < i ==> #[trigger] cs@[j] == '/' || (cs@[j] == '.' && cs@[j - 1] == '/' && (j + 1
                    == n || cs@[j + 1] == '/')),
    {
        let ok = cs[i] == '/' || (cs[i] == '.' && cs[i - 1] == '/' && (i + 1 == n || cs[i + 1] == '/'));
        if !ok {
            assert(!(cs@[i as int] == '/' || (cs@[i as int] == '.' && cs@[i - 1] == '/' && (i + 1 == n
                || cs@[i + 1] == '/'))));
            return false;
        }
    }
    true
}

fn stripped_for(root: &str, path: &str) -> (r: String)
    ensures
        r@ == matcher_stripped(root@, path@),
{
    proof {
        reveal_strlit("./");
        reveal_strlit("/");
    }
    let p = if starts_with(path, "./") {
        skip_chars(path, 2)
    } else {
        owned(path)
    };
    if !dot_path(root) && contains_char(p.as_str(), '/') && starts_with(p.as_str(), root) {
        let q = skip_chars(p.as_str(), root.unicode_len());
        if starts_with(q.as_str(), "/") {
            skip_chars(q.as_str(), 1)
        } else {
            q
        }
    } else {
        p
    }
}

impl IgnoreEngine {
    /// The matcher's root is the engine's root without a leading `./`, or
    /// empty when the matcher holds no globs.
    #[verifier::type_invariant]
    spec fn roots_agree(self) -> bool {
        matcher_root(self.matcher) == built_root(matcher_lines(self.matcher), strip_dot_slash(self.root@))
    }

    /// The root paths are matched relative to.
    pub closed spec fn root(&self) -> Seq<char> {
        self.root@
    }

    /// The globs the matcher was compiled from, in order.
    pub closed spec fn lines(&self) -> Seq<Seq<char>> {
        matcher_lines(self.matcher)
    }

    /// The root the matcher itself strips from the paths it is given.
    pub closed spec fn match_root(&self) -> Seq<char> {
        matcher_root(self.matcher)
    }

    /// Builds the engine for `root` from the config's excludes and
    /// includes and from the ignore files found (`.gitignore` only when
    /// `respect_gitignore`).
    pub fn build(
        root: &str,
        config: &RiceGuardConfig,
        respect_gitignore: bool,
        files: &IgnoreFiles,
    ) -> (r: Result<Self, IgnoreError>)
        ensures
            ({
                let layers = layers_for(*config, respect_gitignore, *files);
                match r {
                    Ok(e) => {
                        &&& first_refused(layers) is None
                        &&& gitignore_builds(accepted(layers))
                        &&& e.root() == root@
                        &&& e.match_root() == built_root(accepted(layers), strip_dot_slash(root@))
                        &&& e.lines() == accepted(layers)
                    },
                    Err(IgnoreError::InvalidPattern { pattern, .. }) => first_refused(layers)
                        == Some(pattern@),
                    Err(IgnoreError::Build { .. }) => first_refused(layers) is None
                        && !gitignore_builds(accepted(layers)),
                }
            }),
    {
        let lines = collect_ignore_lines(config, respect_gitignore, files);
        let ghost layers = line_views(lines@);
        let mut builder = gitignore_builder(root);
        let n = lines.len();
        assert(layers.take(0) =~= Seq::<(Seq<char>, bool)>::empty());
        for i in 0..n
            invariant
                n == lines@.len(),
                layers == line_views(lines@),
                layers == layers_for(*config, respect_gitignore, *files),
                builder_root(builder) == strip_dot_slash(root@),
                builder_lines(builder) == accepted(layers.take(i as int)),
                first_refused(layers.take(i as int)) is None,
        {
            proof {
                assert(layers.take(i + 1).drop_last() =~= layers.take(i as int));
                assert(layers.take(i + 1).last() == (lines@[i as int].0@, lines@[i as int].1));
            }
            let line = &lines[i];
            match gitignore_add_line(&mut builder, line.0.as_str()) {
                Ok(()) => {},
                Err(e) => {
                    if line.1 {
                        proof {
                            assert(layers[i as int] == (line.0@, line.1));
                            lemma_refused_prefix(layers, i as int + 1);
                        }
                        let pattern = line.0.clone();
                        assert(pattern@ == layers[i as int].0);
                        assert(first_refused(layers) == Some(pattern@));
                        return Err(IgnoreError::InvalidPattern { pattern, source: e });
                    }
                },
            }
        }
        assert(layers.take(n as int) =~= layers);
        match gitignore_build(&builder) {
            Ok(matcher) => Ok(IgnoreEngine { matcher, root: owned(root) }),
            Err(e) => Err(IgnoreError::Build { source: e }),
        }
    }

    /// Whether the path (or one of its parent directories) is ignored; the
    /// path is matched relative to the root when it lies under it, and
    /// `is_dir` says whether it names a directory.
    pub fn is_ignored(&self, path: &str, is_dir: bool) -> (r: bool)
        requires
            matchable(self.match_root(), self.lines(), relative_path(path@, self.root())),
        ensures
            r == gitignore_ignores(
                self.match_root(),
                self.lines(),
                relative_path(path@, self.root()),
                is_dir,
            ),
    {
        let rel = match strip_path_prefix(path, self.root.as_str()) {
            Some(r) => r,
            None => owned(path),
        };
        gitignore_matched(&self.matcher, rel.as_str(), is_dir)
    }

    /// [`IgnoreEngine::is_ignored`] for any path: `None` when the path,
    /// taken relative to the root, is one the matcher cannot be asked
    /// about (one that still starts at `/` once the matcher has stripped
    /// it, such as an absolute path outside the root).
    pub fn check_ignored(&self, path: &str, is_dir: bool) -> (r: Option<bool>)
        ensures
            r is Some <==> matchable(self.match_root(), self.lines(), relative_path(path@, self.root())),
            r matches Some(b) ==> b == gitignore_ignores(
                self.match_root(),
                self.lines(),
                relative_path(path@, self.root()),
                is_dir,
            ),
    {
        let rel = match strip_path_prefix(path, self.root.as_str()) {
            Some(r) => r,
            None => owned(path),
        };
        proof {
            use_type_invariant(self);
            reveal_strlit("/");
            reveal_strlit("");
        }
        if gitignore_is_empty(&self.matcher) {
            return Some(self.is_ignored(path, is_dir));
        }
        let mroot = strip_dot_slash_str(self.root.as_str());
        let stripped = stripped_for(mroot.as_str(), rel.as_str());
        if starts_with(stripped.as_str(), "/") {
            None
        } else {
            Some(self.is_ignored(path, is_dir))
        }
    }
}

proof fn lemma_refused_prefix(ls: Seq<(Seq<char>, bool)>, k: int)
    requires
        0 < k <= ls.len(),
        first_refused(ls.take(k - 1)) is None,
        ls[k - 1].1,
        !gitignore_line_ok(ls[k - 1].0),
    ensures
        first_refused(ls) == Some(ls[k - 1].0),
    decreases ls.len() - k,
{
    assert(ls.take(k).drop_last() =~= ls.take(k - 1));
    if k < ls.len() {
        lemma_refused_prefix_extends(ls, k);
    } else {
        assert(ls.take(k) =~= ls);
    }
}

proof fn lemma_refused_prefix_extends(ls: Seq<(Seq<char>, bool)>, k: int)
    requires
        0 < k <= ls.len(),
        first_refused(ls.take(k)) is Some,
    ensures
        first_refused(ls) == first_refused(ls.take(k)),
    decreases ls.len() - k,
{
    if k < ls.len() {
        assert(ls.take(k + 1).drop_last() =~= ls.take(k));
        lemma_refused_prefix_extends(ls, k + 1);
    } else {
        assert(ls.take(k) =~= ls);
    }
}

} // verus!
