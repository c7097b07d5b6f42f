//! Stage selection for the fix pipeline: which of the six stages run.
//! Stages always run in pipeline order, never reordered.
use vstd::prelude::*;

use crate::issue::evidence::kind_views;
use crate::text::{str_eq, str_views};

verus! {

/// All pipeline stages in execution order.
pub const PIPELINE_STAGES: [&'static str; 6] = ["format", "lint", "security", "ast", "deps", "import"];

/// The pipeline stages in execution order.
pub open spec fn pipeline_stage_names() -> Seq<Seq<char>> {
    seq!["format"@, "lint"@, "security"@, "ast"@, "deps"@, "import"@]
}

/// The pipeline stages in execution order.
pub fn pipeline_stages() -> (r: &'static [&'static str])
    ensures
        kind_views(r) == pipeline_stage_names(),
{
    let r: &'static [&'static str] = &["format", "lint", "security", "ast", "deps", "import"];
    assert(kind_views(r) =~= pipeline_stage_names());
    r
}

/// Controls which pipeline stages are active for a fix run.
#[derive(Debug, Clone)]
pub struct StageFilter {
    selected: Option<Vec<&'static str>>,
}

/// The stages selected by the flags, in pipeline order.
pub open spec fn selection(
    formatters: bool,
    linters: bool,
    security: bool,
    ast: bool,
    deps: bool,
    imports: bool,
) -> Seq<Seq<char>> {
    (if formatters { seq!["format"@] } else { Seq::empty() }) + (if linters {
        seq!["lint"@]
    } else {
        Seq::empty()
    }) + (if security { seq!["security"@] } else { Seq::empty() }) + (if ast {
        seq!["ast"@]
    } else {
        Seq::empty()
    }) + (if deps { seq!["deps"@] } else { Seq::empty() }) + (if imports {
        seq!["import"@]
    } else {
        Seq::empty()
    })
}

/// The filter for the flags: no flag means every stage (`None`), otherwise
/// exactly the flagged stages.
pub open spec fn filter_for(
    formatters: bool,
    linters: bool,
    security: bool,
    ast: bool,
    deps: bool,
    imports: bool,
) -> Option<Seq<Seq<char>>> {
    if formatters || linters || security || ast || deps || imports {
        Some(selection(formatters, linters, security, ast, deps, imports))
    } else {
        None
    }
}

/// Whether a filter lets `stage` run.
pub open spec fn admits(filter: Option<Seq<Seq<char>>>, stage: Seq<char>) -> bool {
    match filter {
        None => true,
        Some(s) => s.contains(stage),
    }
}

impl StageFilter {
    /// The selected stages, `None` meaning all.
    pub closed spec fn selected_view(self) -> Option<Seq<Seq<char>>> {
        match self.selected {
            None => None,
            Some(v) => Some(str_views(v@)),
        }
    }

    /// Builds a filter from the six category flags.
    pub fn from_args(
        formatters: bool,
        linters: bool,
        security: bool,
        ast: bool,
        deps: bool,
        imports: bool,
    ) -> (f: Self)
        ensures
            f.selected_view() == filter_for(formatters, linters, security, ast, deps, imports),
    {
        let any = formatters || linters || security || ast || deps || imports;
        if !any {
            return StageFilter { selected: None };
        }
        let mut stages: Vec<&'static str> = Vec::new();
        if formatters {
            stages.push("format");
        }
        if linters {
            stages.push("lint");
        }
        if security {
            stages.push("security");
        }
        if ast {
            stages.push("ast");
        }
        if deps {
            stages.push("deps");
        }
        if imports {
            stages.push("import");
        }
        let f = StageFilter { selected: Some(stages) };
        assert(str_views(stages@) =~= selection(formatters, linters, security, ast, deps, imports));
        f
    }

    /// Whether the stage named `stage` should run.
    pub fn includes(&self, stage: &str) -> (r: bool)
        ensures
            r == admits(self.selected_view(), stage@),
    {
        match &self.selected {
            None => true,
            Some(stages) => {
                assert(self.selected_view() == Some(str_views(stages@)));
                let n = stages.len();
                for i in 0..n
                    invariant
                        n == stages@.len(),
                        self.selected_view() == Some(str_views(stages@)),
                        forall|j: int| 0 <= j < i ==> stages@[j]@ != stage@,
                {
                    if str_eq(stages[i], stage) {
                        assert(str_views(stages@)[i as int] == stage@);
                        assert(str_views(stages@).contains(stage@));
                        return true;
                    }
                }
                assert(!str_views(stages@).contains(stage@));
                false
            },
        }
    }
}

/// With no category flag set, every stage runs.
pub proof fn lemma_no_flags_runs_all(stage: Seq<char>)
    ensures
        admits(filter_for(false, false, false, false, false, false), stage),
{
}

/// With at least one flag set, a stage runs exactly when it is one of the
/// flagged categories.
pub proof fn lemma_flags_select_exactly(
    formatters: bool,
    linters: bool,
    security: bool,
    ast: bool,
    deps: bool,
    imports: bool,
    stage: Seq<char>,
)
    requires
        formatters || linters || security || ast || deps || imports,
    ensures
        admits(filter_for(formatters, linters, security, ast, deps, imports), stage) <==> {
            ||| formatters && stage == "format"@
            ||| linters && stage == "lint"@
            ||| security && stage == "security"@
            ||| ast && stage == "ast"@
            ||| deps && stage == "deps"@
            ||| imports && stage == "import"@
        },
{
    let s = selection(formatters, linters, security, ast, deps, imports);
    let e = Seq::<Seq<char>>::empty();
    let p1 = if formatters { seq!["format"@] } else { e };
    let p2 = if linters { seq!["lint"@] } else { e };
    let p3 = if security { seq!["security"@] } else { e };
    let p4 = if ast { seq!["ast"@] } else { e };
    let p5 = if deps { seq!["deps"@] } else { e };
    let p6 = if imports { seq!["import"@] } else { e };
    assert forall|a: Seq<Seq<char>>, b: Seq<Seq<char>>, x: Seq<char>|
        #[trigger] (a + b).contains(x) <==> a.contains(x) || b.contains(x) by {
        if (a + b).contains(x) {
            let i = choose|i: int| 0 <= i < (a + b).len() && (a + b)[i] == x;
            if i < a.len() {
                assert(a[i] == x);
            } else {
                assert(b[i - a.len()] == x);
            }
        }
        if a.contains(x) {
            let i = choose|i: int| 0 <= i < a.len() && a[i] == x;
            assert((a + b)[i] == x);
        }
        if b.contains(x) {
            let i = choose|i: int| 0 <= i < b.len() && b[i] == x;
            assert((a + b)[i + a.len()] == x);
        }
    }
    assert(s == p1 + p2 + p3 + p4 + p5 + p6);
    assert forall|y: Seq<char>, x: Seq<char>| #[trigger] seq![y].contains(x) <==> x == y by {
        if x == y {
            assert(seq![y][0] == x);
        }
    }
}

/// Whether the flag that belongs to `stage` is set: `formatters` for
/// "format", `linters` for "lint", and so on; false for any other name.
pub open spec fn flag_of(
    formatters: bool,
    linters: bool,
    security: bool,
    ast: bool,
    deps: bool,
    imports: bool,
    stage: Seq<char>,
) -> bool {
    ||| formatters && stage == "format"@
    ||| linters && stage == "lint"@
    ||| security && stage == "security"@
    ||| ast && stage == "ast"@
    ||| deps && stage == "deps"@
    ||| imports && stage == "import"@
}

/// The stage-filter law: a filter built from the six flags lets a stage run
/// exactly when no flag is set or the stage's own flag is set. So with no flag
/// every name passes, and with some flag set no name outside the pipeline
/// passes.
pub proof fn lemma_stage_filter_law(
    formatters: bool,
    linters: bool,
    security: bool,
    ast: bool,
    deps: bool,
    imports: bool,
)
    ensures
        forall|stage: Seq<char>|
            #[trigger] admits(filter_for(formatters, linters, security, ast, deps, imports), stage)
                <==> (!(formatters || linters || security || ast || deps || imports) || flag_of(
                formatters,
                linters,
                security,
                ast,
                deps,
                imports,
                stage,
            )),
        forall|stage: Seq<char>|
            (formatters || linters || security || ast || deps || imports)
                && !pipeline_stage_names().contains(stage) ==> !#[trigger] admits(
                filter_for(formatters, linters, security, ast, deps, imports),
                stage,
            ),
{
    let any = formatters || linters || security || ast || deps || imports;
    assert forall|stage: Seq<char>|
        #[trigger] admits(filter_for(formatters, linters, security, ast, deps, imports), stage)
            <==> (!any || flag_of(formatters, linters, security, ast, deps, imports, stage)) by {
        if any {
            lemma_flags_select_exactly(formatters, linters, security, ast, deps, imports, stage);
        }
    }
    let names = pipeline_stage_names();
    assert forall|stage: Seq<char>|
        any && !names.contains(stage) implies !#[trigger] admits(
            filter_for(formatters, linters, security, ast, deps, imports),
            stage,
        ) by {
        lemma_flags_select_exactly(formatters, linters, security, ast, deps, imports, stage);
        assert(names[0] == "format"@);
        assert(names[1] == "lint"@);
        assert(names[2] == "security"@);
        assert(names[3] == "ast"@);
        assert(names[4] == "deps"@);
        assert(names[5] == "import"@);
    }
}

} // verus!
