//! The configuration a pipeline invocation works from.

use vstd::prelude::*;

verus! {

/// An optional pair of shell snippets bracketing one stage.
#[derive(Debug, Default, PartialEq, Eq)]
pub struct Task {
    pub before: Option<String>,
    pub after: Option<String>,
}

/// A parsed project configuration: project identifier, dotted package
/// path, target platform identifier, and per-stage hook pairs.
///
/// The hook mapping is held as an association list; only the first entry
/// for a stage name counts.
#[derive(Debug, Default, PartialEq, Eq)]
pub struct Context {
    pub project: String,
    pub package: String,
    pub target: String,
    pub tasks: Vec<(String, Task)>,
}

/// Why a configuration was rejected.
#[derive(Debug, PartialEq, Eq)]
pub enum ContextVerificationError {
    InvalidTargetName { name: String },
    InvalidProjectName { name: String },
}

/// Characters a project identifier may consist of.
pub open spec fn is_project_char(c: char) -> bool {
    ('0' <= c && c <= '9') || ('a' <= c && c <= 'z') || ('A' <= c && c <= 'Z')
}

/// Characters a target identifier may consist of.
pub open spec fn is_target_char(c: char) -> bool {
    is_project_char(c) || c == '-' || c == '_'
}

/// A valid project identifier: nonempty, restricted alphanumeric.
pub open spec fn valid_project_name(s: Seq<char>) -> bool {
    s.len() > 0 && forall|i: int| 0 <= i < s.len() ==> is_project_char(s[i])
}

/// A valid target identifier: nonempty, alphanumeric plus dash and underscore.
pub open spec fn valid_target_name(s: Seq<char>) -> bool {
    s.len() > 0 && forall|i: int| 0 <= i < s.len() ==> is_target_char(s[i])
}

/// Whether the configuration may enter a pipeline at all.
pub open spec fn valid_context(ctx: Context) -> bool {
    valid_project_name(ctx.project@) && valid_target_name(ctx.target@)
}

fn check_project_name(s: &str) -> (r: bool)
    ensures
        r == valid_project_name(s@),
{
    let len: usize = s.unicode_len();
    if len == 0 {
        return false;
    }
    let mut i: usize = 0;
    while i < len
        invariant
            i <= len,
            len == s@.len(),
            forall|j: int| 0 <= j < i ==> is_project_char(s@[j]),
        decreases len - i,
    {
        let c = s.get_char(i);
        if !(('0' <= c && c <= '9') || ('a' <= c && c <= 'z') || ('A' <= c && c <= 'Z')) {
            return false;
        }
        i = i + 1;
    }
    true
}

fn check_target_name(s: &str) -> (r: bool)
    ensures
        r == valid_target_name(s@),
{
    let len: usize = s.unicode_len();
    if len == 0 {
        return false;
    }
    let mut i: usize = 0;
    while i < len
        invariant
            i <= len,
            len == s@.len(),
            forall|j: int| 0 <= j < i ==> is_target_char(s@[j]),
        decreases len - i,
    {
        let c = s.get_char(i);
        if !(('0' <= c && c <= '9') || ('a' <= c && c <= 'z') || ('A' <= c && c <= 'Z') || c == '-'
            || c == '_') {
            return false;
        }
        i = i + 1;
    }
    true
}

impl Context {
    /// Checks the identifier patterns, project first: a pipeline runs only
    /// on configurations this accepts.
    pub fn verify(&self) -> (r: Result<(), ContextVerificationError>)
        ensures
            r is Ok <==> valid_context(*self),
            !valid_project_name(self.project@) ==> (r matches Err(
                ContextVerificationError::InvalidProjectName { name },
            ) && name@ == self.project@),
            valid_project_name(self.project@) && !valid_target_name(self.target@) ==> (r matches Err(
                ContextVerificationError::InvalidTargetName { name },
            ) && name@ == self.target@),
    {
        if !check_project_name(self.project.as_str()) {
            return Err(
                ContextVerificationError::InvalidProjectName { name: self.project.clone() },
            );
        }
        if !check_target_name(self.target.as_str()) {
            return Err(ContextVerificationError::InvalidTargetName { name: self.target.clone() });
        }
        Ok(())
    }
}

/// The first hook pair registered for `command`, when there is one.
pub open spec fn tasks_for(tasks: Seq<(String, Task)>, command: Seq<char>) -> Option<Task>
    decreases tasks.len(),
{
    if tasks.len() == 0 {
        None
    } else if tasks[0].0@ == command {
        Some(tasks[0].1)
    } else {
        tasks_for(tasks.drop_first(), command)
    }
}

/// The before/after snippets configured for a stage; a stage without an
/// entry has neither.
pub open spec fn hooks_for(ctx: Context, command: Seq<char>) -> (Option<Seq<char>>, Option<
    Seq<char>,
>) {
    match tasks_for(ctx.tasks@, command) {
        None => (None, None),
        Some(t) => (
            match t.before {
                None => None,
                Some(s) => Some(s@),
            },
            match t.after {
                None => None,
                Some(s) => Some(s@),
            },
        ),
    }
}

} // verus!
