//! The interface between the verified engine and its unverified driver.
//!
//! The engine never touches the environment, the filesystem or the process
//! table itself. It emits an [`Action`]; the driver performs it and answers
//! with the matching [`Event`]. Each machine's `expects` function says
//! which answers it takes in which state.

use vstd::prelude::*;

verus! {

/// One piece of outside work the driver is asked to perform.
#[derive(Debug, PartialEq, Eq)]
pub enum Action {
    /// Read an environment variable. Answered by [`Event::Env`].
    ReadEnv { name: String },
    /// List a directory tree recursively, depth-first with lexicographic
    /// order among siblings, the root itself excluded. Unreadable entries
    /// below the root are skipped; only an unreadable root is an error.
    /// Answered by [`Event::Entries`].
    Traverse { root: String },
    /// Ask whether a regular file exists. Answered by [`Event::FileStatus`].
    CheckFile { path: String },
    /// Change the process-wide current directory, reporting the previous
    /// one. Answered by [`Event::DirChanged`].
    EnterDir { dir: String },
    /// Change the process-wide current directory back; a failure is
    /// swallowed. Answered by [`Event::DirRestored`].
    RestoreDir { dir: String },
    /// List the files matching `pattern` relative to the current
    /// directory. Answered by [`Event::SourceList`].
    ListSources { pattern: String },
    /// Print the diagnostic line, then spawn `executable` with `args` in
    /// `dir` and wait. Answered by [`Event::Ran`].
    Run { dir: String, executable: String, args: Vec<String> },
}

/// How a spawned process ended.
#[derive(Debug, PartialEq, Eq)]
pub enum RunOutcome {
    /// Exit code zero.
    Success,
    /// A numeric exit code other than zero.
    NonZeroExit { code: i32 },
    /// The process could not be started at all.
    SpawnFailed { cause: String },
    /// The process ended without a numeric exit code (e.g. a signal).
    AbnormalTermination,
}

/// The driver's answer to one [`Action`].
#[derive(Debug, PartialEq, Eq)]
pub enum Event {
    Env { value: Option<String> },
    Entries { listing: Result<Vec<String>, String> },
    FileStatus { exists: bool },
    DirChanged { changed: Result<String, String> },
    DirRestored,
    SourceList { listing: Result<Vec<String>, String> },
    Ran { outcome: RunOutcome },
}

/// Why a tool could not be resolved.
#[derive(Debug, PartialEq, Eq)]
pub enum FindError {
    /// The environment variable is missing or not usable.
    Variable { name: String },
    /// A search root could not be traversed.
    Iteration { dir: String, cause: String },
    /// Exhaustive search under `dir` found no file called `name`.
    NotFound { dir: String, name: String },
}

/// Why one external invocation failed.
#[derive(Debug, PartialEq, Eq)]
pub enum ExecutionError {
    /// The program could not be spawned.
    Spawn { executable: String, at: String, cause: String },
    /// The program ran and exited with a nonzero code.
    Exit { executable: String, at: String, args: Vec<String>, code: i32 },
    /// The program ended without an exit code.
    Abnormal { executable: String, at: String, args: Vec<String> },
}

/// Everything a stage can fail with.
#[derive(Debug, PartialEq, Eq)]
pub enum BatchExecutionError {
    ChangeCurrentWorkingDir { path: String, cause: String },
    Program { err: FindError },
    Execution { err: ExecutionError },
}

/// The result of feeding one event to a state machine: either the machine
/// goes on and asks for the next action, or it is finished, or it failed.
#[derive(Debug, PartialEq, Eq)]
pub enum Step<M, T, E> {
    Continue { next: M, action: Action },
    Done { value: T },
    Failed { err: E },
}

/// How `classify_outcome` reads an outcome, as a relation usable in
/// contracts further up.
pub open spec fn classified(
    outcome: RunOutcome,
    executable: Seq<char>,
    at: Seq<char>,
    args: Seq<Seq<char>>,
    r: Result<(), ExecutionError>,
) -> bool {
    match outcome {
        RunOutcome::Success => r is Ok,
        RunOutcome::NonZeroExit { code } => r matches Err(
            ExecutionError::Exit { executable: e, at: a, args: ar, code: c },
        ) && e@ == executable && a@ == at && crate::strutil::seq_views(ar@) == args && c == code,
        RunOutcome::SpawnFailed { cause } => r matches Err(
            ExecutionError::Spawn { executable: e, at: a, cause: c },
        ) && e@ == executable && a@ == at && c@ == cause@,
        RunOutcome::AbnormalTermination => r matches Err(
            ExecutionError::Abnormal { executable: e, at: a, args: ar },
        ) && e@ == executable && a@ == at && crate::strutil::seq_views(ar@) == args,
    }
}

/// Classifies how one invocation ended: success for exit code zero, a
/// distinct error for a nonzero code, a failed spawn, and an abnormal end
/// without an exit code.
pub fn classify_outcome(
    outcome: RunOutcome,
    executable: &String,
    at: &String,
    args: &Vec<String>,
) -> (r: Result<(), ExecutionError>)
    ensures
        classified(outcome, executable@, at@, crate::strutil::seq_views(args@), r),
{
    match outcome {
        RunOutcome::Success => Ok(()),
        RunOutcome::NonZeroExit { code } => Err(
            ExecutionError::Exit {
                executable: executable.clone(),
                at: at.clone(),
                args: clone_strings(args),
                code,
            },
        ),
        RunOutcome::SpawnFailed { cause } => Err(
            ExecutionError::Spawn { executable: executable.clone(), at: at.clone(), cause },
        ),
        RunOutcome::AbnormalTermination => Err(
            ExecutionError::Abnormal {
                executable: executable.clone(),
                at: at.clone(),
                args: clone_strings(args),
            },
        ),
    }
}

/// A copy of a list of strings, with the same views.
pub fn clone_strings(v: &Vec<String>) -> (r: Vec<String>)
    ensures
        crate::strutil::seq_views(r@) == crate::strutil::seq_views(v@),
{
    let mut r: Vec<String> = Vec::new();
    let len: usize = v.len();
    let mut i: usize = 0;
    while i < len
        invariant
            i <= len,
            len == v@.len(),
            r@.len() == i,
            forall|j: int| 0 <= j < i ==> r@[j]@ == v@[j]@,
        decreases len - i,
    {
        r.push(v[i].clone());
        i = i + 1;
    }
    proof {
        assert(crate::strutil::seq_views(r@) =~= crate::strutil::seq_views(v@));
    }
    r
}

/// The one diagnostic line printed before each spawn: working directory,
/// executable and space-joined arguments, unescaped.
pub fn diagnostic_line(at: &String, executable: &String, args: &Vec<String>) -> (r: String)
    ensures
        r@ == at@ + " >>> "@ + executable@ + " "@ + crate::strutil::joined(
            crate::strutil::seq_views(args@),
            " "@,
        ) + "\n"@,
{
    let joined_args = crate::strutil::join_spaced(args);
    String::from_str(at.as_str()).concat(" >>> ").concat(executable.as_str()).concat(" ").concat(
        joined_args.as_str(),
    ).concat("\n")
}

} // verus!
