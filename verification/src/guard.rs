//! The scoped working-directory guard.
//!
//! The process-wide current directory is the one piece of shared mutable
//! state the pipeline touches. A scope that needs a relative pattern to
//! resolve against the project root asks the driver to change directory,
//! keeps the reported previous directory in a [`ChangeCWD`] value, and
//! gives that directory back on every exit path — restoration is
//! unconditional, and a restoration failure is swallowed by the driver so
//! that it never masks the error that ended the scope.

use vstd::prelude::*;
use crate::protocol::Action;

verus! {

/// The guard of one working-directory scope: the directory that was
/// current before the scope was entered.
#[derive(Debug, PartialEq, Eq)]
pub struct ChangeCWD {
    pub previous_cwd: String,
}

impl ChangeCWD {
    /// The action asking the driver to change into `dir`. The driver
    /// answers with the previous directory, from which
    /// [`ChangeCWD::from_previous`] builds the guard.
    pub fn into(dir: &str) -> (a: Action)
        ensures
            a matches Action::EnterDir { dir: d } && d@ == dir@,
    {
        Action::EnterDir { dir: String::from_str(dir) }
    }

    /// Builds the guard once the driver has reported the directory that
    /// was current before the change.
    pub fn from_previous(previous: String) -> (g: ChangeCWD)
        ensures
            g.previous_cwd@ == previous@,
    {
        ChangeCWD { previous_cwd: previous }
    }

    /// Leaves the scope: the returned action restores the remembered
    /// directory, and the guard is consumed — it cannot be used to leave
    /// a scope twice.
    pub fn restore(self) -> (a: Action)
        ensures
            a matches Action::RestoreDir { dir } && dir@ == self.previous_cwd@,
    {
        Action::RestoreDir { dir: self.previous_cwd }
    }
}

} // verus!
