//! The hook executor: one optional shell snippet around a stage's work.
//!
//! A present snippet is handed to a shell interpreter resolved through the
//! generic PATH lookup and run with `-c <snippet>` in the stage's working
//! directory. An absent snippet is a no-op, and the interpreter is never
//! resolved. A failing hook fails the stage through the same error path as
//! a failing main step.

use vstd::prelude::*;
use crate::os::exe_suffix;
use crate::protocol::Action;
use crate::protocol::BatchExecutionError;
use crate::protocol::Event;
use crate::protocol::FindError;
use crate::protocol::RunOutcome;
use crate::protocol::Step;
use crate::protocol::classified;
use crate::resolve::PathResolve;
use crate::resolve::find_file_in_path;
use crate::resolve::generic_path_var;
use crate::resolve::path_expects;
use crate::resolve::path_step_rel;
use crate::resolve::path_wf;
use crate::shared::shell_args;
use crate::shared::shell_args_spec;
use crate::strutil::seq_views;
use crate::strutil::with_suffix;

verus! {

/// One hook snippet being run in `at`.
#[derive(Debug, PartialEq, Eq)]
pub struct HookRun {
    pub at: String,
    pub snippet: String,
    pub state: HookState,
}

#[derive(Debug, PartialEq, Eq)]
pub enum HookState {
    /// The shell interpreter is being resolved.
    Resolving { resolver: PathResolve },
    /// The interpreter was invoked on the snippet.
    AwaitRun { executable: String },
}

/// Structural soundness of a hook run.
pub open spec fn hook_wf(m: HookRun) -> bool {
    match m.state {
        HookState::Resolving { resolver } => path_wf(resolver),
        HookState::AwaitRun { .. } => true,
    }
}

/// Which events a hook run in this state accepts.
pub open spec fn hook_expects(m: HookRun, ev: Event) -> bool {
    match m.state {
        HookState::Resolving { resolver } => path_expects(resolver, ev),
        HookState::AwaitRun { .. } => ev is Ran,
    }
}

/// The transition relation of [`HookRun::step`]: resolver steps are
/// lifted, a resolved interpreter is invoked on the snippet, and the run's
/// outcome decides the hook.
pub open spec fn hook_step_rel(pre: HookRun, ev: Event, r: Step<HookRun, (), BatchExecutionError>) -> bool {
    match pre.state {
        HookState::Resolving { resolver } => exists|s: Step<PathResolve, String, FindError>|
            path_step_rel(resolver, ev, s) && hook_lift_rel(pre, s, r),
        HookState::AwaitRun { executable } => match ev {
            Event::Ran { outcome } => match outcome {
                RunOutcome::Success => r matches Step::Done { .. },
                _ => r matches Step::Failed { err: BatchExecutionError::Execution { err } }
                    && classified(
                    outcome,
                    executable@,
                    pre.at@,
                    shell_args_spec(pre.snippet@),
                    Err(err),
                ),
            },
            _ => false,
        },
    }
}

/// How one resolver step becomes one hook step.
pub open spec fn hook_lift_rel(
    pre: HookRun,
    s: Step<PathResolve, String, FindError>,
    r: Step<HookRun, (), BatchExecutionError>,
) -> bool {
    match s {
        Step::Continue { next, action } => r matches Step::Continue { next: n2, action: a2 }
            && n2.at@ == pre.at@ && n2.snippet@ == pre.snippet@ && (
        n2.state matches HookState::Resolving { resolver } && resolver == next) && a2 == action,
        Step::Done { value } => r matches Step::Continue { next: n2, action: a2 } && n2.at@
            == pre.at@ && n2.snippet@ == pre.snippet@ && (
        n2.state matches HookState::AwaitRun { executable } && executable@ == value@) && (
        a2 matches Action::Run { dir, executable, args } && dir@ == pre.at@ && executable@
            == value@ && seq_views(args@) == shell_args_spec(pre.snippet@)),
        Step::Failed { err } => r matches Step::Failed {
            err: BatchExecutionError::Program { err: e2 },
        } && e2 == err,
    }
}

/// Starts running the shell snippet `script` in `at_dir`: the shell
/// interpreter is resolved through the generic PATH lookup first.
pub fn execute_shell_script_verbosely(at_dir: &str, script: &str) -> (r: (HookRun, Action))
    ensures
        r.0.at@ == at_dir@,
        r.0.snippet@ == script@,
        r.0.state matches HookState::Resolving { resolver } && resolver.name@ == with_suffix(
            "sh"@,
            exe_suffix(),
        ) && resolver.state is AwaitEnv,
        hook_wf(r.0),
        r.1 matches Action::ReadEnv { name } && name@ == generic_path_var(),
{
    let (resolver, action) = find_file_in_path("sh");
    let machine = HookRun {
        at: String::from_str(at_dir),
        snippet: String::from_str(script),
        state: HookState::Resolving { resolver },
    };
    (machine, action)
}

/// Starts an optional hook: no snippet means no work at all — no
/// interpreter lookup, no process — and `None` is returned.
pub fn execute_script(script: Option<&String>, at: &str) -> (r: Option<(HookRun, Action)>)
    ensures
        script is None <==> r is None,
        script matches Some(s) ==> r matches Some((m, a)) && m.at@ == at@ && m.snippet@ == s@ && (
        m.state matches HookState::Resolving { resolver } && resolver.name@ == with_suffix(
            "sh"@,
            exe_suffix(),
        ) && resolver.state is AwaitEnv) && hook_wf(m) && (a matches Action::ReadEnv { name }
            && name@ == generic_path_var()),
{
    match script {
        None => None,
        Some(s) => Some(execute_shell_script_verbosely(at, s.as_str())),
    }
}

impl HookRun {
    /// Feeds the answer to the last emitted action into the hook run.
    pub fn step(self, ev: Event) -> (r: Step<HookRun, (), BatchExecutionError>)
        requires
            hook_wf(self),
            hook_expects(self, ev),
        ensures
            hook_step_rel(self, ev, r),
            r matches Step::Continue { next, .. } ==> hook_wf(next),
    {
        let ghost pre = self;
        let ghost ev_ghost = ev;
        let HookRun { at, snippet, state } = self;
        match state {
            HookState::Resolving { resolver } => {
                let s = resolver.step(ev);
                let ghost s_ghost = s;
                let r = match s {
                    Step::Continue { next, action } => Step::Continue {
                        next: HookRun { at, snippet, state: HookState::Resolving { resolver: next } },
                        action,
                    },
                    Step::Done { value } => {
                        let args = shell_args(&snippet);
                        let run_dir = at.clone();
                        let run_exe = value.clone();
                        Step::Continue {
                            next: HookRun {
                                at,
                                snippet,
                                state: HookState::AwaitRun { executable: value },
                            },
                            action: Action::Run { dir: run_dir, executable: run_exe, args },
                        }
                    },
                    Step::Failed { err } => Step::Failed {
                        err: BatchExecutionError::Program { err },
                    },
                };
                proof {
                    assert(hook_lift_rel(pre, s_ghost, r));
                }
                r
            },
            HookState::AwaitRun { executable } => match ev {
                Event::Ran { outcome } => match outcome {
                    RunOutcome::Success => Step::Done { value: () },
                    outcome => {
                        let args = shell_args(&snippet);
                        let err = match crate::protocol::classify_outcome(
                            outcome,
                            &executable,
                            &at,
                            &args,
                        ) {
                            Ok(_) => unreached(),
                            Err(e) => e,
                        };
                        Step::Failed { err: BatchExecutionError::Execution { err } }
                    },
                },
                _ => unreached(),
            },
        }
    }
}

} // verus!
