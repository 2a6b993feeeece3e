//! The fail-fast instruction engine shared by all stages.
//!
//! A stage's work, after its tools are resolved, is a fixed list of
//! [`Instr`] values: optional hooks, tool invocations, and one scoped
//! source enumeration. The engine executes them strictly in order and
//! aborts on the first failure anywhere — a failing hook uses the same
//! error path as a failing main step, and a failure inside the
//! working-directory scope still restores the previous directory first.

use vstd::prelude::*;
use crate::guard::ChangeCWD;
use crate::hook::HookRun;
use crate::hook::HookState;
use crate::hook::execute_shell_script_verbosely;
use crate::hook::hook_expects;
use crate::hook::hook_step_rel;
use crate::hook::hook_wf;
use crate::os::exe_suffix;
use crate::protocol::Action;
use crate::protocol::BatchExecutionError;
use crate::protocol::Event;
use crate::protocol::FindError;
use crate::protocol::RunOutcome;
use crate::protocol::Step;
use crate::protocol::classified;
use crate::protocol::classify_outcome;
use crate::protocol::clone_strings;
use crate::resolve::generic_path_var;
use crate::shared::append_args;
use crate::strutil::seq_views;
use crate::strutil::with_suffix;

verus! {

/// One unit of a stage's main work.
#[derive(Debug, PartialEq, Eq)]
pub enum Instr {
    /// Run an optional hook snippet; no snippet is a no-op.
    Hook { snippet: Option<String> },
    /// Invoke one resolved tool with a fixed argument list.
    Tool { executable: String, args: Vec<String> },
    /// Enumerate source files by a relative pattern, inside a
    /// working-directory scope on the stage's project root.
    CollectSources { pattern: String },
    /// Invoke one resolved tool with the enumerated sources appended to
    /// the argument list as trailing positional arguments.
    ToolWithSources { executable: String, args: Vec<String> },
}

/// A hook instruction with no snippet: nothing at all happens for it.
pub open spec fn skipped(i: Instr) -> bool {
    i matches Instr::Hook { snippet: None }
}

/// The index of the first instruction at or after `i` that takes work,
/// skipping hooks with no snippet; the length when none is left.
pub open spec fn next_active(instrs: Seq<Instr>, i: int) -> int
    decreases instrs.len() - i,
    when 0 <= i <= instrs.len()
{
    if i >= instrs.len() {
        instrs.len() as int
    } else if skipped(instrs[i]) {
        next_active(instrs, i + 1)
    } else {
        i
    }
}

pub proof fn lemma_next_active_bounds(instrs: Seq<Instr>, i: int)
    requires
        0 <= i <= instrs.len(),
    ensures
        i <= next_active(instrs, i) <= instrs.len(),
        next_active(instrs, i) < instrs.len() ==> !skipped(instrs[next_active(instrs, i)]),
    decreases instrs.len() - i,
{
    if i < instrs.len() && skipped(instrs[i]) {
        lemma_next_active_bounds(instrs, i + 1);
    }
}

/// The engine: the project root directory, the instruction list, the
/// index of the instruction being executed, the sources collected so
/// far, and what the engine currently waits for.
#[derive(Debug, PartialEq, Eq)]
pub struct Engine {
    pub at: String,
    pub instrs: Vec<Instr>,
    pub idx: usize,
    pub sources: Vec<String>,
    pub sub: EngineSub,
}

#[derive(Debug, PartialEq, Eq)]
pub enum EngineSub {
    /// A hook snippet is being run.
    Hook { machine: HookRun },
    /// A tool was invoked; its outcome decides the stage.
    AwaitRun { executable: String, args: Vec<String> },
    /// The working-directory scope is being entered.
    AwaitEnter { pattern: String },
    /// Inside the scope: sources are being enumerated, and the guard
    /// holds the directory to give back.
    InScope { guard: ChangeCWD },
    /// The scope is being left; any failure observed inside it is kept
    /// to be reported only after the directory is restored.
    AwaitRestore { failure: Option<BatchExecutionError> },
}

/// Structural soundness of an engine: the index is in range whenever
/// work is in flight, and what is in flight matches the instruction at
/// the index.
pub open spec fn engine_wf(e: Engine) -> bool {
    e.idx <= e.instrs@.len() && match e.sub {
        EngineSub::Hook { machine } => e.idx < e.instrs@.len() && (
        e.instrs@[e.idx as int] matches Instr::Hook { snippet: Some(s) } && machine.snippet@ == s@)
            && machine.at@ == e.at@ && hook_wf(machine),
        EngineSub::AwaitRun { .. } => e.idx < e.instrs@.len(),
        EngineSub::AwaitEnter { pattern } => e.idx < e.instrs@.len() && (
        e.instrs@[e.idx as int] matches Instr::CollectSources { pattern: p } && pattern@ == p@),
        EngineSub::InScope { .. } => e.idx < e.instrs@.len(),
        EngineSub::AwaitRestore { .. } => e.idx < e.instrs@.len(),
    }
}

/// Which events an engine in this state accepts.
pub open spec fn engine_expects(e: Engine, ev: Event) -> bool {
    match e.sub {
        EngineSub::Hook { machine } => hook_expects(machine, ev),
        EngineSub::AwaitRun { .. } => ev is Ran,
        EngineSub::AwaitEnter { .. } => ev is DirChanged,
        EngineSub::InScope { .. } => ev is SourceList,
        EngineSub::AwaitRestore { .. } => ev is DirRestored,
    }
}

/// What starting the instruction `instr` looks like: the sub-state the
/// engine enters and the action it emits.
pub open spec fn start_rel(
    at: Seq<char>,
    sources: Seq<Seq<char>>,
    instr: Instr,
    sub: EngineSub,
    action: Action,
) -> bool {
    match instr {
        Instr::Hook { snippet } => match snippet {
            None => false,
            Some(s) => (sub matches EngineSub::Hook { machine } && machine.at@ == at
                && machine.snippet@ == s@ && (
            machine.state matches HookState::Resolving { resolver } && resolver.name@
                == with_suffix("sh"@, exe_suffix()) && resolver.state is AwaitEnv)) && (
            action matches Action::ReadEnv { name } && name@ == generic_path_var()),
        },
        Instr::Tool { executable, args } => (sub matches EngineSub::AwaitRun {
            executable: e2,
            args: a2,
        } && e2@ == executable@ && seq_views(a2@) == seq_views(args@)) && (
        action matches Action::Run { dir, executable: e3, args: a3 } && dir@ == at && e3@
            == executable@ && seq_views(a3@) == seq_views(args@)),
        Instr::CollectSources { pattern } => (sub matches EngineSub::AwaitEnter { pattern: p2 }
            && p2@ == pattern@) && (action matches Action::EnterDir { dir } && dir@ == at),
        Instr::ToolWithSources { executable, args } => (sub matches EngineSub::AwaitRun {
            executable: e2,
            args: a2,
        } && e2@ == executable@ && seq_views(a2@) == seq_views(args@) + sources) && (
        action matches Action::Run { dir, executable: e3, args: a3 } && dir@ == at && e3@
            == executable@ && seq_views(a3@) == seq_views(args@) + sources),
    }
}

/// What moving on from position `from` looks like: hooks with no snippet
/// are passed over without any action, the next real instruction is
/// started, and a list with nothing left ends the stage successfully.
pub open spec fn advanced_rel(
    at: String,
    instrs: Vec<Instr>,
    sources: Seq<Seq<char>>,
    from: int,
    r: Step<Engine, (), BatchExecutionError>,
) -> bool {
    let j = next_active(instrs@, from);
    if j == instrs@.len() {
        r matches Step::Done { .. }
    } else {
        r matches Step::Continue { next, action } && next.at == at && next.instrs == instrs
            && next.idx == j && seq_views(next.sources@) == sources && start_rel(
            at@,
            sources,
            instrs@[j],
            next.sub,
            action,
        ) && engine_wf(next)
    }
}

/// How one hook step becomes one engine step: a finished hook moves the
/// engine on, a failed hook fails the stage on the very same error path
/// as a failed main step.
pub open spec fn engine_hook_lift(
    pre: Engine,
    s: Step<HookRun, (), BatchExecutionError>,
    r: Step<Engine, (), BatchExecutionError>,
) -> bool {
    match s {
        Step::Continue { next: m2, action } => r matches Step::Continue { next, action: a2 }
            && next.at == pre.at && next.instrs == pre.instrs && next.idx == pre.idx
            && next.sources == pre.sources && (next.sub matches EngineSub::Hook { machine }
            && machine == m2) && a2 == action,
        Step::Done { .. } => advanced_rel(pre.at, pre.instrs, seq_views(pre.sources@), pre.idx + 1, r),
        Step::Failed { err } => r matches Step::Failed { err: e2 } && e2 == err,
    }
}

/// The transition relation of [`Engine::step`].
pub open spec fn engine_step_rel(
    pre: Engine,
    ev: Event,
    r: Step<Engine, (), BatchExecutionError>,
) -> bool {
    match pre.sub {
        EngineSub::Hook { machine } => exists|s: Step<HookRun, (), BatchExecutionError>|
            hook_step_rel(machine, ev, s) && engine_hook_lift(pre, s, r),
        EngineSub::AwaitRun { executable, args } => match ev {
            Event::Ran { outcome } => match outcome {
                RunOutcome::Success => advanced_rel(
                    pre.at,
                    pre.instrs,
                    seq_views(pre.sources@),
                    pre.idx + 1,
                    r,
                ),
                _ => r matches Step::Failed { err: BatchExecutionError::Execution { err } }
                    && classified(outcome, executable@, pre.at@, seq_views(args@), Err(err)),
            },
            _ => false,
        },
        EngineSub::AwaitEnter { pattern } => match ev {
            Event::DirChanged { changed } => match changed {
                Ok(previous) => r matches Step::Continue { next, action } && next.at == pre.at
                    && next.instrs == pre.instrs && next.idx == pre.idx && next.sources
                    == pre.sources && (next.sub matches EngineSub::InScope { guard }
                    && guard.previous_cwd@ == previous@) && (
                action matches Action::ListSources { pattern: p2 } && p2@ == pattern@),
                Err(cause) => r matches Step::Failed {
                    err: BatchExecutionError::ChangeCurrentWorkingDir { path, cause: c2 },
                } && path@ == pre.at@ && c2@ == cause@,
            },
            _ => false,
        },
        EngineSub::InScope { guard } => match ev {
            Event::SourceList { listing } => r matches Step::Continue { next, action } && next.at
                == pre.at && next.instrs == pre.instrs && next.idx == pre.idx && (
            action matches Action::RestoreDir { dir } && dir@ == guard.previous_cwd@) && match listing {
                Ok(files) => seq_views(next.sources@) == seq_views(files@) && (
                next.sub matches EngineSub::AwaitRestore { failure: None }),
                Err(cause) => next.sources == pre.sources && (
                next.sub matches EngineSub::AwaitRestore {
                    failure: Some(
                        BatchExecutionError::Program {
                            err: FindError::Iteration { dir, cause: c2 },
                        },
                    ),
                } && dir@ == pre.at@ && c2@ == cause@),
            },
            _ => false,
        },
        EngineSub::AwaitRestore { failure } => match ev {
            Event::DirRestored => match failure {
                None => advanced_rel(pre.at, pre.instrs, seq_views(pre.sources@), pre.idx + 1, r),
                Some(e) => r matches Step::Failed { err } && err == e,
            },
            _ => false,
        },
    }
}

/// Whether an instruction is a hook with `skipped` telling exec code.
fn is_skipped(i: &Instr) -> (b: bool)
    ensures
        b == skipped(*i),
{
    match i {
        Instr::Hook { snippet: None } => true,
        _ => false,
    }
}

/// Starts the engine on the instruction at `from`, passing over hooks
/// with no snippet — those emit no action and resolve nothing.
fn advance(at: String, instrs: Vec<Instr>, from: usize, sources: Vec<String>) -> (r: Step<
    Engine,
    (),
    BatchExecutionError,
>)
    requires
        from <= instrs@.len(),
    ensures
        advanced_rel(at, instrs, seq_views(sources@), from as int, r),
{
    let len: usize = instrs.len();
    let mut i: usize = from;
    while i < len && is_skipped(&instrs[i])
        invariant
            from <= i <= len,
            len == instrs@.len(),
            next_active(instrs@, from as int) == next_active(instrs@, i as int),
        decreases len - i,
    {
        proof {
            assert(next_active(instrs@, i as int) == next_active(instrs@, i as int + 1));
        }
        i = i + 1;
    }
    proof {
        assert(next_active(instrs@, from as int) == i as int || i == len);
        if i < len {
            assert(!skipped(instrs@[i as int]));
            assert(next_active(instrs@, i as int) == i as int);
        } else {
            assert(next_active(instrs@, i as int) == len as int);
        }
    }
    if i == len {
        return Step::Done { value: () };
    }
    let (sub, action): (EngineSub, Action) = match &instrs[i] {
        Instr::Hook { snippet } => match snippet {
            Some(s) => {
                let (machine, a) = execute_shell_script_verbosely(at.as_str(), s.as_str());
                (EngineSub::Hook { machine }, a)
            },
            None => unreached(),
        },
        Instr::Tool { executable, args } => {
            let sub = EngineSub::AwaitRun {
                executable: executable.clone(),
                args: clone_strings(args),
            };
            let a = Action::Run {
                dir: at.clone(),
                executable: executable.clone(),
                args: clone_strings(args),
            };
            (sub, a)
        },
        Instr::CollectSources { pattern } => {
            let sub = EngineSub::AwaitEnter { pattern: pattern.clone() };
            (sub, ChangeCWD::into(at.as_str()))
        },
        Instr::ToolWithSources { executable, args } => {
            let full = append_args(clone_strings(args), &sources);
            let a = Action::Run {
                dir: at.clone(),
                executable: executable.clone(),
                args: clone_strings(&full),
            };
            let sub = EngineSub::AwaitRun { executable: executable.clone(), args: full };
            (sub, a)
        },
    };
    Step::Continue { next: Engine { at, instrs, idx: i, sources, sub }, action }
}

/// Builds an engine over `instrs` for the project root `at` and starts
/// it on its first instruction.
pub fn engine_new(at: String, instrs: Vec<Instr>) -> (r: Step<Engine, (), BatchExecutionError>)
    ensures
        advanced_rel(at, instrs, Seq::<Seq<char>>::empty(), 0, r),
{
    let sources: Vec<String> = Vec::new();
    proof {
        assert(seq_views(sources@) =~= Seq::<Seq<char>>::empty());
    }
    advance(at, instrs, 0, sources)
}

impl Engine {
    /// Feeds the answer to the last emitted action into the engine.
    pub fn step(self, ev: Event) -> (r: Step<Engine, (), BatchExecutionError>)
        requires
            engine_wf(self),
            engine_expects(self, ev),
        ensures
            engine_step_rel(self, ev, r),
            r matches Step::Continue { next, .. } ==> engine_wf(next),
    {
        let ghost pre = self;
        let Engine { at, instrs, idx, sources, sub } = self;
        let n: usize = instrs.len();
        match sub {
            EngineSub::Hook { machine } => {
                let s = machine.step(ev);
                let ghost s_ghost = s;
                let r = match s {
                    Step::Continue { next: m2, action } => Step::Continue {
                        next: Engine {
                            at,
                            instrs,
                            idx,
                            sources,
                            sub: EngineSub::Hook { machine: m2 },
                        },
                        action,
                    },
                    Step::Done { .. } => advance(at, instrs, idx + 1, sources),
                    Step::Failed { err } => Step::Failed { err },
                };
                proof {
                    assert(engine_hook_lift(pre, s_ghost, r));
                }
                r
            },
            EngineSub::AwaitRun { executable, args } => match ev {
                Event::Ran { outcome } => match outcome {
                    RunOutcome::Success => advance(at, instrs, idx + 1, sources),
                    outcome => {
                        let err = match classify_outcome(outcome, &executable, &at, &args) {
                            Ok(_) => unreached(),
                            Err(e) => e,
                        };
                        Step::Failed { err: BatchExecutionError::Execution { err } }
                    },
                },
                _ => unreached(),
            },
            EngineSub::AwaitEnter { pattern } => match ev {
                Event::DirChanged { changed } => match changed {
                    Ok(previous) => {
                        let guard = ChangeCWD::from_previous(previous);
                        Step::Continue {
                            next: Engine {
                                at,
                                instrs,
                                idx,
                                sources,
                                sub: EngineSub::InScope { guard },
                            },
                            action: Action::ListSources { pattern },
                        }
                    },
                    Err(cause) => Step::Failed {
                        err: BatchExecutionError::ChangeCurrentWorkingDir { path: at, cause },
                    },
                },
                _ => unreached(),
            },
            EngineSub::InScope { guard } => match ev {
                Event::SourceList { listing } => match listing {
                    Ok(files) => Step::Continue {
                        next: Engine {
                            at,
                            instrs,
                            idx,
                            sources: files,
                            sub: EngineSub::AwaitRestore { failure: None },
                        },
                        action: guard.restore(),
                    },
                    Err(cause) => {
                        let kept = BatchExecutionError::Program {
                            err: FindError::Iteration { dir: at.clone(), cause },
                        };
                        Step::Continue {
                            next: Engine {
                                at,
                                instrs,
                                idx,
                                sources,
                                sub: EngineSub::AwaitRestore { failure: Some(kept) },
                            },
                            action: guard.restore(),
                        }
                    },
                },
                _ => unreached(),
            },
            EngineSub::AwaitRestore { failure } => match ev {
                Event::DirRestored => match failure {
                    None => advance(at, instrs, idx + 1, sources),
                    Some(e) => Step::Failed { err: e },
                },
                _ => unreached(),
            },
        }
    }
}

/// A stage with no hooks configured never attempts to resolve a shell
/// interpreter: with no hook instruction carrying a snippet, a
/// well-formed engine is never inside a hook, and no transition emits an
/// environment read — the only actions left are runs, traversal-free
/// directory changes and the source enumeration.
pub open spec fn no_configured_hooks(instrs: Seq<Instr>) -> bool {
    forall|j: int|
        0 <= j < instrs.len() ==> !(#[trigger] instrs[j] matches Instr::Hook {
            snippet: Some(..),
        })
}

pub proof fn lemma_no_hooks_never_resolves_shell(
    e: Engine,
    ev: Event,
    r: Step<Engine, (), BatchExecutionError>,
)
    requires
        engine_wf(e),
        no_configured_hooks(e.instrs@),
        engine_step_rel(e, ev, r),
    ensures
        !(e.sub is Hook),
        r matches Step::Continue { next, action } ==> !(next.sub is Hook) && !(action is ReadEnv)
            && next.instrs == e.instrs,
{
    if r is Continue {
        let next = r->Continue_next;
        let action = r->Continue_action;
        match e.sub {
            EngineSub::AwaitRun { .. } | EngineSub::AwaitRestore { .. } => {
                let j = next_active(e.instrs@, e.idx + 1);
                lemma_next_active_bounds(e.instrs@, e.idx + 1);
                assert(!(e.instrs@[j] matches Instr::Hook { snippet: Some(..) }));
            },
            _ => {},
        }
    }
}

/// A failing main step prevents everything that would have come after
/// it, the after-hook included: the engine ends in `Failed`, a terminal
/// result that carries no machine and emits no further action.
pub proof fn lemma_failing_step_stops_stage(
    e: Engine,
    outcome: RunOutcome,
    r: Step<Engine, (), BatchExecutionError>,
)
    requires
        engine_wf(e),
        e.sub is AwaitRun,
        !(outcome is Success),
        engine_step_rel(e, Event::Ran { outcome }, r),
    ensures
        r is Failed,
{
}

/// The engine only moves forward: a continuing step keeps the
/// instruction list and the project root and never lowers the index.
/// With each stage's instruction list pinned elementwise by its builder,
/// this says the tools of a stage can only ever be invoked in the
/// listed order, whatever the driver answers.
pub proof fn lemma_engine_index_monotone(
    e: Engine,
    ev: Event,
    r: Step<Engine, (), BatchExecutionError>,
)
    requires
        engine_wf(e),
        engine_step_rel(e, ev, r),
    ensures
        r matches Step::Continue { next, .. } ==> next.instrs == e.instrs && next.at == e.at
            && e.idx <= next.idx,
{
    match e.sub {
        EngineSub::Hook { machine } => {
            let s = choose|s: Step<HookRun, (), BatchExecutionError>|
                hook_step_rel(machine, ev, s) && engine_hook_lift(e, s, r);
            assert(hook_step_rel(machine, ev, s) && engine_hook_lift(e, s, r));
            if s is Done {
                lemma_next_active_bounds(e.instrs@, e.idx + 1);
            }
        },
        EngineSub::AwaitRun { .. } => {
            if r is Continue {
                lemma_next_active_bounds(e.instrs@, e.idx + 1);
            }
        },
        EngineSub::AwaitRestore { .. } => {
            if r is Continue {
                lemma_next_active_bounds(e.instrs@, e.idx + 1);
            }
        },
        _ => {},
    }
}

/// Inside the working-directory scope the engine restores the remembered
/// directory on every exit path: whatever the enumeration reports —
/// success or failure — the very next action gives the previous
/// directory back, and a failure is reported only after that, never
/// masked by the restoration.
pub proof fn lemma_scope_always_restores(
    e: Engine,
    listing: Result<Vec<String>, String>,
    r: Step<Engine, (), BatchExecutionError>,
)
    requires
        engine_wf(e),
        e.sub is InScope,
        engine_step_rel(e, Event::SourceList { listing }, r),
    ensures
        e.sub matches EngineSub::InScope { guard } ==> (r matches Step::Continue { next, action }
            && (action matches Action::RestoreDir { dir } && dir@ == guard.previous_cwd@)),
        listing matches Err(cause) ==> (r matches Step::Continue { next, .. } && (
        next.sub matches EngineSub::AwaitRestore {
            failure: Some(BatchExecutionError::Program { err: FindError::Iteration { dir, cause: c2 } }),
        } && dir@ == e.at@ && c2@ == cause@)),
{
}

} // verus!
