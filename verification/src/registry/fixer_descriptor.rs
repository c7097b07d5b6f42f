//! Fixer descriptors: the deterministic fixers of one language, by stage.
use vstd::prelude::*;

verus! {

/// All deterministic fixers for a single language.
#[derive(Debug, Clone)]
pub struct FixerDescriptor {
    /// Canonical language name, e.g. `"rust"`.
    pub name: String,
    /// Language identifier (matches scc / tree-sitter language names).
    pub language: String,
    /// Build-file globs used to detect this language.
    pub detect: Vec<String>,
    /// Fix stages in pipeline order.
    pub stages: FixerStages,
}

/// The six fix stages, executed in a fixed order.
#[derive(Debug, Clone)]
pub struct FixerStages {
    /// Code formatters.
    pub format: Vec<FixerStep>,
    /// Linter auto-fix.
    pub lint: Vec<FixerStep>,
    /// Security pattern auto-fix.
    pub security: Vec<FixerStep>,
    /// AST-level rewrites.
    pub ast: Vec<FixerStep>,
    /// Dependency updates.
    pub deps: Vec<FixerStep>,
    /// Import cleanup.
    pub import: Vec<FixerStep>,
}

/// A single fixer invocation (check + fix pair).
#[derive(Debug, Clone)]
pub struct FixerStep {
    /// Display name.
    pub name: String,
    /// Command that exits non-zero when fixes are needed (may hold `{{files}}`).
    pub check: String,
    /// Command that applies the fix in place.
    pub fix: String,
    /// `"file"` or `"project"`.
    pub scope: String,
    /// Whether the step is safe to run without `--unsafe`.
    pub safe: bool,
    /// Extra flag added in `--unsafe` mode.
    pub unsafe_flag: Option<String>,
}

/// The steps of all stages, in pipeline order.
pub open spec fn all_steps(s: FixerStages) -> Seq<FixerStep> {
    s.format@ + s.lint@ + s.security@ + s.ast@ + s.deps@ + s.import@
}

impl FixerDescriptor {
    /// Whether at least one stage has at least one step.
    pub fn has_any_stage(&self) -> (r: bool)
        ensures
            r == (all_steps(self.stages).len() > 0),
    {
        !self.stages.format.is_empty() || !self.stages.lint.is_empty()
            || !self.stages.security.is_empty() || !self.stages.ast.is_empty()
            || !self.stages.deps.is_empty() || !self.stages.import.is_empty()
    }
}

/// The names of the steps that are not safe, over all descriptors, in order.
pub open spec fn unsafe_step_names(ds: Seq<FixerDescriptor>) -> Seq<Seq<char>>
    decreases ds.len(),
{
    if ds.len() == 0 {
        Seq::empty()
    } else {
        unsafe_step_names(ds.drop_last()) + all_steps(ds.last().stages).filter(
            |s: FixerStep| !s.safe,
        ).map_values(|s: FixerStep| s.name@)
    }
}

fn push_unsafe(out: &mut Vec<String>, steps: &Vec<FixerStep>)
    ensures
        crate::text::views(final(out)@) == crate::text::views(old(out)@) + steps@.filter(
            |s: FixerStep| !s.safe,
        ).map_values(|s: FixerStep| s.name@),
{
    let n = steps.len();
    let ghost start = crate::text::views(out@);
    for i in 0..n
        invariant
            n == steps@.len(),
            crate::text::views(out@) == start + steps@.take(i as int).filter(|s: FixerStep| !s.safe).map_values(
                |s: FixerStep| s.name@,
            ),
    {
        proof {
            assert(steps@.take(i + 1) =~= steps@.take(i as int).push(steps@[i as int]));
            steps@.take(i as int).lemma_filter_push(steps@[i as int], |s: FixerStep| !s.safe);
        }
        if !steps[i].safe {
            let name = steps[i].name.clone();
            proof {
                assert(crate::text::views(out@.push(name)) =~= crate::text::views(out@).push(name@));
            }
            out.push(name);
        }
        proof {
            let f = steps@.take(i as int).filter(|s: FixerStep| !s.safe);
            if !steps@[i as int].safe {
                assert(f.push(steps@[i as int]).map_values(|s: FixerStep| s.name@) =~= f.map_values(
                    |s: FixerStep| s.name@,
                ).push(steps@[i as int].name@));
            }
        }
    }
    assert(steps@.take(n as int) =~= steps@);
}

/// The names of all unsafe steps of the given descriptors, descriptor by
/// descriptor and stage by stage (shown in the `--unsafe` warning).
pub fn unsafe_tool_names(fixers: &Vec<FixerDescriptor>) -> (r: Vec<String>)
    ensures
        crate::text::views(r@) == unsafe_step_names(fixers@),
{
    let mut out: Vec<String> = Vec::new();
    let n = fixers.len();
    for i in 0..n
        invariant
            n == fixers@.len(),
            crate::text::views(out@) == unsafe_step_names(fixers@.take(i as int)),
    {
        let st = &fixers[i].stages;
        let ghost before = crate::text::views(out@);
        push_unsafe(&mut out, &st.format);
        push_unsafe(&mut out, &st.lint);
        push_unsafe(&mut out, &st.security);
        push_unsafe(&mut out, &st.ast);
        push_unsafe(&mut out, &st.deps);
        push_unsafe(&mut out, &st.import);
        proof {
            let p = |s: FixerStep| !s.safe;
            let nm = |s: FixerStep| s.name@;
            let a = st.format@;
            let b = st.lint@;
            let c = st.security@;
            let d = st.ast@;
            let e = st.deps@;
            let f = st.import@;
            Seq::filter_distributes_over_add(a + b + c + d + e, f, p);
            Seq::filter_distributes_over_add(a + b + c + d, e, p);
            Seq::filter_distributes_over_add(a + b + c, d, p);
            Seq::filter_distributes_over_add(a + b, c, p);
            Seq::filter_distributes_over_add(a, b, p);
            assert((a.filter(p) + b.filter(p) + c.filter(p) + d.filter(p) + e.filter(p) + f.filter(
                p,
            )).map_values(nm) =~= a.filter(p).map_values(nm) + b.filter(p).map_values(nm)
                + c.filter(p).map_values(nm) + d.filter(p).map_values(nm) + e.filter(p).map_values(nm)
                + f.filter(p).map_values(nm));
            assert(fixers@.take(i + 1).drop_last() =~= fixers@.take(i as int));
        }
    }
    assert(fixers@.take(n as int) =~= fixers@);
    out
}

} // verus!
