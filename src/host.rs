//! The decisions of one run: from the entry argument to the exit status.
//!
//! The engine itself is driven by the caller. After each action that `step`
//! asks for, the caller performs it and hands back its outcome.
use vstd::prelude::*;

verus! {

/// The exit status of a run that completed.
pub const EXIT_SUCCESS: i32 = 0;

/// The exit status of a run that failed once the engine was set up.
pub const EXIT_FAILURE: i32 = 1;

/// The exit status of a process started without an entry file.
pub const EXIT_USAGE: i32 = 2;

/// Why a run ended without success.
#[derive(Debug)]
pub enum RunFailure {
    /// No entry file was named.
    Usage,
    /// The entry file could not be turned into a specifier.
    Resolution(String),
    /// The module graph could not be loaded.
    Load(String),
    /// Script code threw, or left a rejection unhandled.
    Script(String),
}

/// Where a run stands.
#[derive(Debug)]
pub enum RunState {
    /// The engine is set up; the entry file is being resolved.
    Initialized,
    /// The entry module and its imports are being loaded.
    Loading,
    /// The entry module's top-level code is being evaluated.
    Evaluating,
    /// The event loop is being driven until no work is pending.
    Draining,
    /// The result of the entry module's evaluation is being awaited.
    AwaitingResult,
    Succeeded,
    Failed(RunFailure),
}

/// What the caller is to do next.
#[derive(Clone, Copy, Debug, PartialEq, Eq, Structural)]
pub enum Action {
    ResolveEntry,
    LoadEntry,
    Evaluate,
    DrainEventLoop,
    AwaitResult,
    /// End the process with this status.
    Exit(i32),
}

impl RunState {
    pub open spec fn is_final(&self) -> bool {
        self is Succeeded || self is Failed
    }
}

/// The exit status that a failure calls for.
pub open spec fn failure_status(f: RunFailure) -> i32 {
    match f {
        RunFailure::Usage => EXIT_USAGE,
        _ => EXIT_FAILURE,
    }
}

/// The exit status of a run that ended in `s`.
pub open spec fn final_status(s: RunState) -> i32 {
    match s {
        RunState::Failed(f) => failure_status(f),
        _ => EXIT_SUCCESS,
    }
}

/// The entry file named on a command line, whose first word is the program.
pub open spec fn entry_of(args: Seq<String>) -> Option<String> {
    if args.len() >= 2 {
        Some(args[1])
    } else {
        None
    }
}

/// The state that a run enters when `action`, taken in state `s`, ends with
/// `outcome`; a failure at any stage ends the run, without retries.
pub open spec fn next_state(s: RunState, outcome: Result<(), String>) -> RunState {
    match (s, outcome) {
        (RunState::Initialized, Ok(())) => RunState::Loading,
        (RunState::Initialized, Err(m)) => RunState::Failed(RunFailure::Resolution(m)),
        (RunState::Loading, Ok(())) => RunState::Evaluating,
        (RunState::Loading, Err(m)) => RunState::Failed(RunFailure::Load(m)),
        (RunState::Evaluating, Ok(())) => RunState::Draining,
        (RunState::Draining, Ok(())) => RunState::AwaitingResult,
        (RunState::AwaitingResult, Ok(())) => RunState::Succeeded,
        (RunState::Evaluating, Err(m)) | (RunState::Draining, Err(m))
        | (RunState::AwaitingResult, Err(m)) => RunState::Failed(RunFailure::Script(m)),
        (s, _) => s,
    }
}

/// The action that state `s` calls for.
pub open spec fn action_of(s: RunState) -> Action {
    match s {
        RunState::Initialized => Action::ResolveEntry,
        RunState::Loading => Action::LoadEntry,
        RunState::Evaluating => Action::Evaluate,
        RunState::Draining => Action::DrainEventLoop,
        RunState::AwaitingResult => Action::AwaitResult,
        _ => Action::Exit(final_status(s)),
    }
}

/// The state that a run reaches from `s` through a series of outcomes.
pub open spec fn run_through(s: RunState, outcomes: Seq<Result<(), String>>) -> RunState
    decreases outcomes.len(),
{
    if outcomes.len() == 0 {
        s
    } else {
        run_through(next_state(s, outcomes[0]), outcomes.drop_first())
    }
}

/// The entry file named on the command line `args`, if there is one.
pub fn entry_argument(args: &Vec<String>) -> (r: Option<String>)
    ensures
        r == entry_of(args@),
{
    if args.len() >= 2 {
        Some(args[1].clone())
    } else {
        None
    }
}

/// Starts a run: without an entry file the process ends with the usage
/// status before any engine is set up.
pub fn start(args: &Vec<String>) -> (r: (RunState, Action))
    ensures
        entry_of(args@) is None ==> r.0 == RunState::Failed(RunFailure::Usage)
            && r.1 == Action::Exit(EXIT_USAGE),
        entry_of(args@) is Some ==> r.0 == RunState::Initialized && r.1 == Action::ResolveEntry,
{
    if args.len() >= 2 {
        (RunState::Initialized, Action::ResolveEntry)
    } else {
        (RunState::Failed(RunFailure::Usage), Action::Exit(EXIT_USAGE))
    }
}

/// The exit status of a run that ended in `s`.
pub fn exit_status(s: &RunState) -> (r: i32)
    ensures
        r == final_status(*s),
{
    match s {
        RunState::Failed(RunFailure::Usage) => EXIT_USAGE,
        RunState::Failed(_) => EXIT_FAILURE,
        _ => EXIT_SUCCESS,
    }
}

/// Advances a run by the outcome of the action that its state called for.
pub fn step(s: RunState, outcome: Result<(), String>) -> (r: (RunState, Action))
    ensures
        r.0 == next_state(s, outcome),
        r.1 == action_of(r.0),
{
    let next = match (s, outcome) {
        (RunState::Initialized, Ok(())) => RunState::Loading,
        (RunState::Initialized, Err(m)) => RunState::Failed(RunFailure::Resolution(m)),
        (RunState::Loading, Ok(())) => RunState::Evaluating,
        (RunState::Loading, Err(m)) => RunState::Failed(RunFailure::Load(m)),
        (RunState::Evaluating, Ok(())) => RunState::Draining,
        (RunState::Draining, Ok(())) => RunState::AwaitingResult,
        (RunState::AwaitingResult, Ok(())) => RunState::Succeeded,
        (RunState::Evaluating, Err(m)) | (RunState::Draining, Err(m))
        | (RunState::AwaitingResult, Err(m)) => RunState::Failed(RunFailure::Script(m)),
        (s, _) => s,
    };
    let action = match &next {
        RunState::Initialized => Action::ResolveEntry,
        RunState::Loading => Action::LoadEntry,
        RunState::Evaluating => Action::Evaluate,
        RunState::Draining => Action::DrainEventLoop,
        RunState::AwaitingResult => Action::AwaitResult,
        _ => Action::Exit(exit_status(&next)),
    };
    (next, action)
}

} // verus!
