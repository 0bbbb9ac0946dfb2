//! Properties that relate several calls of the loader and of the run.
use vstd::prelude::*;

use deno_ast::MediaType;

use crate::dialect::treatment_of;
use crate::host::{final_status, next_state, run_through, RunFailure, RunState, EXIT_SUCCESS};
use crate::loader::{loaded, planned, LoadError, LoadPlan, ModuleRecord};

verus! {

/// How a module is treated does not depend on its contents: two loads of one
/// plan that both succeed give the same module kind and the same decision on
/// lowering, whatever text each read.
pub proof fn lemma_treatment_ignores_content(
    plan: LoadPlan,
    first: String,
    second: String,
    r1: Result<ModuleRecord, LoadError>,
    r2: Result<ModuleRecord, LoadError>,
)
    requires
        plan.wf(),
        loaded(plan, Ok(first), r1),
        loaded(plan, Ok(second), r2),
        r1 is Ok,
        r2 is Ok,
    ensures
        r1->Ok_0.kind == r2->Ok_0.kind,
        r1->Ok_0.transpiled == r2->Ok_0.transpiled,
        r1->Ok_0.transpiled == plan.treatment.transpile,
{
}

/// Plain JavaScript is never lowered: loading it hands the engine the text
/// that was read, unchanged.
pub proof fn lemma_plain_javascript_untouched(plan: LoadPlan, code: String, r: Result<ModuleRecord, LoadError>)
    requires
        plan.wf(),
        plan.media_type == MediaType::JavaScript || plan.media_type == MediaType::Mjs
            || plan.media_type == MediaType::Cjs,
        loaded(plan, Ok(code), r),
    ensures
        r matches Ok(m) && m.source@ == code@ && !m.transpiled,
{
}

/// Loading one specifier twice gives the same module kind both times.
pub proof fn lemma_repeated_load_same_kind(
    specifier: Seq<char>,
    p1: LoadPlan,
    p2: LoadPlan,
    read1: Result<String, String>,
    read2: Result<String, String>,
    r1: Result<ModuleRecord, LoadError>,
    r2: Result<ModuleRecord, LoadError>,
)
    requires
        planned(specifier, Ok(p1)),
        planned(specifier, Ok(p2)),
        loaded(p1, read1, r1),
        loaded(p2, read2, r2),
        r1 is Ok,
        r2 is Ok,
    ensures
        p1.treatment == p2.treatment,
        r1->Ok_0.kind == r2->Ok_0.kind,
{
}

/// Planning the load of one specifier twice fails or succeeds alike, and on
/// failure at the same stage.
pub proof fn lemma_repeated_plan_agrees(
    specifier: Seq<char>,
    r1: Result<LoadPlan, LoadError>,
    r2: Result<LoadPlan, LoadError>,
)
    requires
        planned(specifier, r1),
        planned(specifier, r2),
    ensures
        r1 is Ok <==> r2 is Ok,
        r1 matches Err(e1) ==> r2 matches Err(e2) && e1.kind == e2.kind && e1.message@ == e2.message@,
        r1 matches Ok(p1) ==> r2 matches Ok(p2) && p1.treatment == p2.treatment
            && p1.media_type == p2.media_type && p1.path@ == p2.path@,
{
}

/// A plan is made only for a supported dialect: one that the loader refuses
/// is refused while planning, before its file is read or lowered.
pub proof fn lemma_planned_dialect_supported(specifier: Seq<char>, r: Result<LoadPlan, LoadError>)
    requires
        planned(specifier, r),
        r is Ok,
    ensures
        treatment_of(r->Ok_0.media_type) is Some,
{
}

/// A run that failed stays failed, whatever outcomes follow.
pub proof fn lemma_failure_is_final(f: RunFailure, outcomes: Seq<Result<(), String>>)
    ensures
        run_through(RunState::Failed(f), outcomes) == RunState::Failed(f),
    decreases outcomes.len(),
{
    if outcomes.len() > 0 {
        lemma_failure_is_final(f, outcomes.drop_first());
    }
}

/// A module graph that fails to load ends the run with a failure status, and
/// nothing that follows turns it into a success.
pub proof fn lemma_load_failure_ends_run(message: String, later: Seq<Result<(), String>>)
    ensures
        run_through(RunState::Loading, seq![Err(message)] + later) == RunState::Failed(
            RunFailure::Load(message),
        ),
        final_status(RunState::Failed(RunFailure::Load(message))) != EXIT_SUCCESS,
{
    let all = seq![Err(message)] + later;
    assert(all.drop_first() =~= later);
    assert(next_state(RunState::Loading, all[0]) == RunState::Failed(RunFailure::Load(message)));
    lemma_failure_is_final(RunFailure::Load(message), later);
}

/// An error that escapes the script, at evaluation, while draining or in the
/// awaited result, ends the run with a failure status.
pub proof fn lemma_script_error_ends_run(s: RunState, message: String, later: Seq<Result<(), String>>)
    requires
        s is Evaluating || s is Draining || s is AwaitingResult,
    ensures
        run_through(s, seq![Err(message)] + later) == RunState::Failed(RunFailure::Script(message)),
        final_status(RunState::Failed(RunFailure::Script(message))) != EXIT_SUCCESS,
{
    let all = seq![Err(message)] + later;
    assert(all.drop_first() =~= later);
    lemma_failure_is_final(RunFailure::Script(message), later);
}

/// A run whose every stage succeeds ends in success, with the success status.
pub proof fn lemma_clean_run_succeeds()
    ensures
        run_through(RunState::Initialized, seq![Ok(()), Ok(()), Ok(()), Ok(()), Ok(())])
            == RunState::Succeeded,
        final_status(RunState::Succeeded) == EXIT_SUCCESS,
{
    let o: Seq<Result<(), String>> = seq![Ok(()), Ok(()), Ok(()), Ok(()), Ok(())];
    assert(o.drop_first() =~= seq![Ok(()), Ok(()), Ok(()), Ok(())]);
    assert(o.drop_first().drop_first() =~= seq![Ok(()), Ok(()), Ok(())]);
    assert(o.drop_first().drop_first().drop_first() =~= seq![Ok(()), Ok(())]);
    assert(o.drop_first().drop_first().drop_first().drop_first() =~= seq![Ok(())]);
    assert(o.drop_first().drop_first().drop_first().drop_first().drop_first() =~= Seq::<Result<(), String>>::empty());
    reveal_with_fuel(run_through, 6);
}

} // verus!
