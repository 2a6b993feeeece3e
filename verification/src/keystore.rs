//! Lazy provisioning of the debug signing keystore.
//!
//! The keystore lives at a fixed path under the home directory. When the
//! file already exists it is used as it stands — provisioning is
//! idempotent and never overwrites. Only when it is absent is a key
//! generator resolved through the generic PATH lookup and invoked once
//! with the fixed debug credentials. Every failure keeps its real cause:
//! a failed lookup is reported as that lookup's own error, and a failed
//! generation run as an execution error with executable, working
//! directory, argument list and exit code.

use vstd::prelude::*;
use crate::protocol::Action;
use crate::protocol::BatchExecutionError;
use crate::protocol::Event;
use crate::protocol::FindError;
use crate::protocol::RunOutcome;
use crate::protocol::Step;
use crate::protocol::classified;
use crate::protocol::classify_outcome;
use crate::resolve::PathResolve;
use crate::resolve::find_file_in_path;
use crate::resolve::generic_path_var;
use crate::resolve::path_expects;
use crate::resolve::path_step_rel;
use crate::resolve::path_wf;
use crate::os::exe_suffix;
use crate::shared::keytool_args;
use crate::shared::keytool_args_spec;
use crate::strutil::seq_views;
use crate::strutil::with_suffix;

verus! {

/// The environment variable naming the home directory.
pub open spec fn home_var() -> Seq<char> {
    "HOME"@
}

/// The directory the keystore lives in, under the home directory.
pub open spec fn keystore_dir(home: Seq<char>) -> Seq<char> {
    home + "/.android"@
}

/// The fixed keystore path under the home directory.
pub open spec fn keystore_path(home: Seq<char>) -> Seq<char> {
    keystore_dir(home) + "/debug.keystore"@
}

/// Provisioning of the debug keystore, as a machine over the driver
/// protocol.
#[derive(Debug, PartialEq, Eq)]
pub struct KeystoreProvision {
    pub state: KeystoreState,
}

#[derive(Debug, PartialEq, Eq)]
pub enum KeystoreState {
    /// The home directory variable was requested.
    AwaitHome,
    /// The keystore file's existence is being checked.
    AwaitStat { keystore: String },
    /// The key generator is being resolved, because the file is absent.
    Resolving { keystore: String, resolver: PathResolve },
    /// The key generator was invoked.
    AwaitGen { keystore: String, executable: String },
}

/// Structural soundness of a provisioning run.
pub open spec fn keystore_wf(m: KeystoreProvision) -> bool {
    match m.state {
        KeystoreState::Resolving { resolver, .. } => path_wf(resolver),
        _ => true,
    }
}

/// Which events a provisioning run in this state accepts.
pub open spec fn keystore_expects(m: KeystoreProvision, ev: Event) -> bool {
    match m.state {
        KeystoreState::AwaitHome => ev is Env,
        KeystoreState::AwaitStat { .. } => ev is FileStatus,
        KeystoreState::Resolving { resolver, .. } => path_expects(resolver, ev),
        KeystoreState::AwaitGen { .. } => ev is Ran,
    }
}

/// The transition relation of [`KeystoreProvision::step`]. An existing
/// file ends the run at once with its path; every failure carries its
/// real cause.
pub open spec fn keystore_step_rel(
    pre: KeystoreProvision,
    ev: Event,
    r: Step<KeystoreProvision, String, BatchExecutionError>,
) -> bool {
    match pre.state {
        KeystoreState::AwaitHome => match ev {
            Event::Env { value } => match value {
                None => r matches Step::Failed {
                    err: BatchExecutionError::Program { err: FindError::Variable { name } },
                } && name@ == home_var(),
                Some(home) => r matches Step::Continue { next, action } && (
                next.state matches KeystoreState::AwaitStat { keystore } && keystore@
                    == keystore_path(home@)) && (action matches Action::CheckFile { path }
                    && path@ == keystore_path(home@)),
            },
            _ => false,
        },
        KeystoreState::AwaitStat { keystore } => match ev {
            Event::FileStatus { exists } => if exists {
                r matches Step::Done { value } && value@ == keystore@
            } else {
                r matches Step::Continue { next, action } && (
                next.state matches KeystoreState::Resolving { keystore: k2, resolver } && k2@
                    == keystore@ && resolver.name@ == with_suffix("keytool"@, exe_suffix())
                    && resolver.state is AwaitEnv) && (action matches Action::ReadEnv { name }
                    && name@ == generic_path_var())
            },
            _ => false,
        },
        KeystoreState::Resolving { keystore, resolver } => exists|
            s: Step<PathResolve, String, FindError>,
        | path_step_rel(resolver, ev, s) && keystore_lift_rel(keystore@, s, r),
        KeystoreState::AwaitGen { keystore, executable } => match ev {
            Event::Ran { outcome } => match outcome {
                RunOutcome::Success => r matches Step::Done { value } && value@ == keystore@,
                _ => r matches Step::Failed { err: BatchExecutionError::Execution { err } }
                    && classified(
                    outcome,
                    executable@,
                    "."@,
                    keytool_args_spec(keystore@),
                    Err(err),
                ),
            },
            _ => false,
        },
    }
}

/// How one resolver step becomes one provisioning step: a resolved key
/// generator is invoked in the current directory on the fixed argument
/// list; a failed lookup passes that lookup's own error through.
pub open spec fn keystore_lift_rel(
    keystore: Seq<char>,
    s: Step<PathResolve, String, FindError>,
    r: Step<KeystoreProvision, String, BatchExecutionError>,
) -> bool {
    match s {
        Step::Continue { next, action } => r matches Step::Continue { next: n2, action: a2 } && (
        n2.state matches KeystoreState::Resolving { keystore: k2, resolver } && k2@ == keystore
            && resolver == next) && a2 == action,
        Step::Done { value } => r matches Step::Continue { next: n2, action: a2 } && (
        n2.state matches KeystoreState::AwaitGen { keystore: k2, executable } && k2@ == keystore
            && executable@ == value@) && (a2 matches Action::Run { dir, executable: e2, args }
            && dir@ == "."@ && e2@ == value@ && seq_views(args@) == keytool_args_spec(keystore)),
        Step::Failed { err } => r matches Step::Failed {
            err: BatchExecutionError::Program { err: e2 },
        } && e2 == err,
    }
}

/// Starts fetching the debug keystore, creating it only if it does not
/// exist yet. The first action reads the home directory variable.
pub fn fetch_or_create_android_keystore() -> (r: (KeystoreProvision, Action))
    ensures
        r.0.state is AwaitHome,
        keystore_wf(r.0),
        r.1 matches Action::ReadEnv { name } && name@ == home_var(),
{
    let machine = KeystoreProvision { state: KeystoreState::AwaitHome };
    let action = Action::ReadEnv { name: String::from_str("HOME") };
    (machine, action)
}

impl KeystoreProvision {
    /// Feeds the answer to the last emitted action into the provisioning.
    pub fn step(self, ev: Event) -> (r: Step<KeystoreProvision, String, BatchExecutionError>)
        requires
            keystore_wf(self),
            keystore_expects(self, ev),
        ensures
            keystore_step_rel(self, ev, r),
            r matches Step::Continue { next, .. } ==> keystore_wf(next),
    {
        let ghost pre = self;
        let KeystoreProvision { state } = self;
        match state {
            KeystoreState::AwaitHome => match ev {
                Event::Env { value } => match value {
                    None => Step::Failed {
                        err: BatchExecutionError::Program {
                            err: FindError::Variable { name: String::from_str("HOME") },
                        },
                    },
                    Some(home) => {
                        let keystore = String::from_str(home.as_str()).concat("/.android").concat(
                            "/debug.keystore",
                        );
                        let checked = keystore.clone();
                        Step::Continue {
                            next: KeystoreProvision {
                                state: KeystoreState::AwaitStat { keystore },
                            },
                            action: Action::CheckFile { path: checked },
                        }
                    },
                },
                _ => unreached(),
            },
            KeystoreState::AwaitStat { keystore } => match ev {
                Event::FileStatus { exists } => if exists {
                    Step::Done { value: keystore }
                } else {
                    let (resolver, action) = find_file_in_path("keytool");
                    Step::Continue {
                        next: KeystoreProvision {
                            state: KeystoreState::Resolving { keystore, resolver },
                        },
                        action,
                    }
                },
                _ => unreached(),
            },
            KeystoreState::Resolving { keystore, resolver } => {
                let s = resolver.step(ev);
                let ghost s_ghost = s;
                let r = match s {
                    Step::Continue { next, action } => Step::Continue {
                        next: KeystoreProvision {
                            state: KeystoreState::Resolving { keystore, resolver: next },
                        },
                        action,
                    },
                    Step::Done { value } => {
                        let args = keytool_args(&keystore);
                        let run_exe = value.clone();
                        Step::Continue {
                            next: KeystoreProvision {
                                state: KeystoreState::AwaitGen { keystore, executable: value },
                            },
                            action: Action::Run {
                                dir: String::from_str("."),
                                executable: run_exe,
                                args,
                            },
                        }
                    },
                    Step::Failed { err } => Step::Failed {
                        err: BatchExecutionError::Program { err },
                    },
                };
                proof {
                    assert(pre.state matches KeystoreState::Resolving { keystore: k, .. }
                        && keystore_lift_rel(k@, s_ghost, r));
                }
                r
            },
            KeystoreState::AwaitGen { keystore, executable } => match ev {
                Event::Ran { outcome } => match outcome {
                    RunOutcome::Success => Step::Done { value: keystore },
                    outcome => {
                        let args = keytool_args(&keystore);
                        let dot = String::from_str(".");
                        let err = match classify_outcome(outcome, &executable, &dot, &args) {
                            Ok(_) => unreached(),
                            Err(e) => e,
                        };
                        Step::Failed { err: BatchExecutionError::Execution { err } }
                    },
                },
                _ => unreached(),
            },
        }
    }
}

/// An existing keystore is reused as it stands: the check coming back
/// positive ends provisioning at once with the fixed path — no key
/// generator is resolved, nothing is run, nothing overwritten.
pub proof fn lemma_keystore_present_skips_generation(
    pre: KeystoreProvision,
    r: Step<KeystoreProvision, String, BatchExecutionError>,
)
    requires
        pre.state is AwaitStat,
        keystore_step_rel(pre, Event::FileStatus { exists: true }, r),
    ensures
        pre.state matches KeystoreState::AwaitStat { keystore } ==> (r matches Step::Done {
            value,
        } && value@ == keystore@),
{
}

/// One provisioning run invokes the key generator at most once, whatever
/// the driver answers: the only transition that emits a `Run` action is
/// the one that enters `AwaitGen`, and from `AwaitGen` every step is
/// terminal — no further action of any kind follows. A second
/// provisioning against a fixture whose file the first run created then
/// generates nothing at all, by the law above.
pub proof fn lemma_keystore_generates_at_most_once(
    pre: KeystoreProvision,
    ev: Event,
    r: Step<KeystoreProvision, String, BatchExecutionError>,
)
    requires
        keystore_step_rel(pre, ev, r),
    ensures
        r matches Step::Continue { next, action } ==> (action is Run ==> pre.state is Resolving
            && next.state is AwaitGen),
        pre.state is AwaitGen ==> !(r is Continue),
{
    if pre.state is Resolving {
        match pre.state {
            KeystoreState::Resolving { keystore, resolver } => {
                let s = choose|s: Step<PathResolve, String, FindError>|
                    path_step_rel(resolver, ev, s) && keystore_lift_rel(keystore@, s, r);
                assert(path_step_rel(resolver, ev, s) && keystore_lift_rel(keystore@, s, r));
            },
            _ => {},
        }
    }
}

} // verus!
