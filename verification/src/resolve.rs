//! Executable resolution: turning a logical tool name into a path.
//!
//! Two strategies exist, each as a small state machine driven by the
//! protocol of [`crate::protocol`]:
//! - [`SdkResolve`] reads the SDK root from its environment variable and
//!   searches the fixed `build-tools` subdirectory first, then the root;
//! - [`PathResolve`] reads a PATH-like variable, splits it on the OS path
//!   delimiter and searches each segment in listed order, first hit wins.
//!
//! The OS executable suffix is appended to the logical name exactly once,
//! before any search. Nothing is cached: every lookup starts fresh.

use vstd::prelude::*;
use crate::os::exe_suffix;
use crate::os::executable_suffix;
use crate::protocol::Action;
use crate::protocol::Event;
use crate::protocol::FindError;
use crate::protocol::Step;
use crate::strutil::basename;
use crate::strutil::basename_of;
use crate::strutil::ensure_suffix;
use crate::strutil::seq_views;
use crate::strutil::split_on;
use crate::strutil::split_str_on;
use crate::strutil::str_eq;
use crate::strutil::with_suffix;

verus! {

/// An SDK tool, resolved: the executable path and the SDK root it was
/// found under, kept because later arguments are built from that root.
#[derive(Debug, PartialEq, Eq)]
pub struct Resolution {
    pub executable: String,
    pub root: String,
}

/// The environment variable holding the SDK root.
pub open spec fn sdk_root_var() -> Seq<char> {
    "ANDROID_HOME"@
}

/// The PATH-like environment variable of the generic lookup.
pub open spec fn generic_path_var() -> Seq<char> {
    "PATH"@
}

/// The index of the first entry whose basename is `target`.
pub open spec fn first_match(entries: Seq<Seq<char>>, target: Seq<char>) -> Option<int>
    decreases entries.len(),
{
    if entries.len() == 0 {
        None
    } else if basename(entries[0]) == target {
        Some(0int)
    } else {
        match first_match(entries.drop_first(), target) {
            None => None,
            Some(i) => Some(i + 1),
        }
    }
}

pub proof fn lemma_first_match_found(entries: Seq<Seq<char>>, target: Seq<char>, k: int)
    requires
        0 <= k < entries.len(),
        basename(entries[k]) == target,
        forall|j: int| 0 <= j < k ==> basename(entries[j]) != target,
    ensures
        first_match(entries, target) == Some(k),
    decreases entries.len(),
{
    if k > 0 {
        lemma_first_match_found(entries.drop_first(), target, k - 1);
    }
}

pub proof fn lemma_first_match_none(entries: Seq<Seq<char>>, target: Seq<char>)
    requires
        forall|j: int| 0 <= j < entries.len() ==> basename(entries[j]) != target,
    ensures
        first_match(entries, target) is None,
    decreases entries.len(),
{
    if entries.len() > 0 {
        lemma_first_match_none(entries.drop_first(), target);
    }
}

pub proof fn lemma_first_match_in_range(entries: Seq<Seq<char>>, target: Seq<char>)
    ensures
        match first_match(entries, target) {
            Some(i) => 0 <= i < entries.len() && basename(entries[i]) == target,
            None => true,
        },
    decreases entries.len(),
{
    if entries.len() > 0 {
        lemma_first_match_in_range(entries.drop_first(), target);
    }
}

/// The first entry of the listing whose file name is `target`, by index.
pub fn match_in_entries(entries: &Vec<String>, target: &String) -> (r: Option<usize>)
    ensures
        match r {
            Some(i) => i < entries@.len() && first_match(seq_views(entries@), target@) == Some(
                i as int,
            ),
            None => first_match(seq_views(entries@), target@) is None,
        },
{
    let len: usize = entries.len();
    let mut i: usize = 0;
    while i < len
        invariant
            i <= len,
            len == entries@.len(),
            forall|j: int| 0 <= j < i ==> basename(seq_views(entries@)[j]) != target@,
        decreases len - i,
    {
        let base = basename_of(entries[i].as_str());
        if str_eq(base.as_str(), target.as_str()) {
            proof {
                lemma_first_match_found(seq_views(entries@), target@, i as int);
            }
            return Some(i);
        }
        i = i + 1;
    }
    proof {
        lemma_first_match_none(seq_views(entries@), target@);
    }
    None
}

/// Resolution of an SDK tool: SDK root variable, then `build-tools`,
/// then the root itself.
#[derive(Debug, PartialEq, Eq)]
pub struct SdkResolve {
    /// The file name searched for: the logical name with the executable
    /// suffix already applied.
    pub name: String,
    pub state: SdkState,
}

#[derive(Debug, PartialEq, Eq)]
pub enum SdkState {
    /// The SDK root variable was requested.
    AwaitEnv,
    /// The `build-tools` subdirectory of `root` is being searched.
    AwaitBuildTools { root: String },
    /// The SDK root itself is being searched, after a miss or an
    /// unreadable `build-tools` tree.
    AwaitRoot { root: String },
}

/// Which events an SDK resolution in this state accepts.
pub open spec fn sdk_expects(m: SdkResolve, ev: Event) -> bool {
    match m.state {
        SdkState::AwaitEnv => ev is Env,
        SdkState::AwaitBuildTools { .. } => ev is Entries,
        SdkState::AwaitRoot { .. } => ev is Entries,
    }
}

/// The transition relation of [`SdkResolve::step`]. It pins every field
/// of the successor state, the emitted action and the outcome.
pub open spec fn sdk_step_rel(
    pre: SdkResolve,
    ev: Event,
    r: Step<SdkResolve, Resolution, FindError>,
) -> bool {
    match (pre.state, ev) {
        (SdkState::AwaitEnv, Event::Env { value }) => match value {
            None => r matches Step::Failed { err: FindError::Variable { name } } && name@
                == sdk_root_var(),
            Some(root) => r matches Step::Continue { next, action } && next.name@ == pre.name@
                && (next.state matches SdkState::AwaitBuildTools { root: r2 } && r2@ == root@) && (
            action matches Action::Traverse { root: t } && t@ == root@ + "/build-tools"@),
        },
        (SdkState::AwaitBuildTools { root }, Event::Entries { listing }) => {
            let fallback = r matches Step::Continue { next, action } && next.name@ == pre.name@
                && (next.state matches SdkState::AwaitRoot { root: r2 } && r2@ == root@) && (
            action matches Action::Traverse { root: t } && t@ == root@);
            match listing {
                Ok(entries) => match first_match(seq_views(entries@), pre.name@) {
                    Some(i) => r matches Step::Done { value } && value.executable@ == seq_views(
                        entries@,
                    )[i] && value.root@ == root@,
                    None => fallback,
                },
                Err(_) => fallback,
            }
        },
        (SdkState::AwaitRoot { root }, Event::Entries { listing }) => match listing {
            Ok(entries) => match first_match(seq_views(entries@), pre.name@) {
                Some(i) => r matches Step::Done { value } && value.executable@ == seq_views(
                    entries@,
                )[i] && value.root@ == root@,
                None => r matches Step::Failed { err: FindError::NotFound { dir, name } } && dir@
                    == root@ && name@ == pre.name@,
            },
            Err(cause) => r matches Step::Failed { err: FindError::Iteration { dir, cause: c } }
                && dir@ == root@ && c@ == cause@,
        },
        _ => false,
    }
}

/// Starts resolving an SDK tool called `name`. The suffix is applied
/// here, once; the first action reads the SDK root variable.
pub fn find_android_executable(name: &str) -> (r: (SdkResolve, Action))
    ensures
        r.0.name@ == with_suffix(name@, exe_suffix()),
        r.0.state is AwaitEnv,
        r.1 matches Action::ReadEnv { name: n } && n@ == sdk_root_var(),
{
    let machine = SdkResolve { name: ensure_suffix(name, executable_suffix()), state: SdkState::AwaitEnv };
    let action = Action::ReadEnv { name: String::from_str("ANDROID_HOME") };
    (machine, action)
}

impl SdkResolve {
    /// Feeds the answer to the last emitted action into the resolution.
    pub fn step(self, ev: Event) -> (r: Step<SdkResolve, Resolution, FindError>)
        requires
            sdk_expects(self, ev),
        ensures
            sdk_step_rel(self, ev, r),
    {
        let SdkResolve { name, state } = self;
        match (state, ev) {
            (SdkState::AwaitEnv, Event::Env { value }) => match value {
                None => Step::Failed {
                    err: FindError::Variable { name: String::from_str("ANDROID_HOME") },
                },
                Some(root) => {
                    let target = String::from_str(root.as_str()).concat("/build-tools");
                    Step::Continue {
                        next: SdkResolve { name, state: SdkState::AwaitBuildTools { root } },
                        action: Action::Traverse { root: target },
                    }
                },
            },
            (SdkState::AwaitBuildTools { root }, Event::Entries { listing }) => {
                let hit = match &listing {
                    Ok(entries) => match_in_entries(entries, &name),
                    Err(_) => None,
                };
                match (listing, hit) {
                    (Ok(entries), Some(i)) => Step::Done {
                        value: Resolution { executable: entries[i].clone(), root },
                    },
                    _ => {
                        let target = root.clone();
                        Step::Continue {
                            next: SdkResolve { name, state: SdkState::AwaitRoot { root } },
                            action: Action::Traverse { root: target },
                        }
                    },
                }
            },
            (SdkState::AwaitRoot { root }, Event::Entries { listing }) => {
                let hit = match &listing {
                    Ok(entries) => match_in_entries(entries, &name),
                    Err(_) => None,
                };
                match (listing, hit) {
                    (Ok(entries), Some(i)) => Step::Done {
                        value: Resolution { executable: entries[i].clone(), root },
                    },
                    (Ok(_), None) => Step::Failed {
                        err: FindError::NotFound { dir: root, name },
                    },
                    (Err(cause), _) => Step::Failed {
                        err: FindError::Iteration { dir: root, cause },
                    },
                }
            },
            _ => unreached(),
        }
    }
}

/// Resolution through a PATH-like variable: its segments are searched in
/// listed order; misses and unreadable segments are skipped alike.
#[derive(Debug, PartialEq, Eq)]
pub struct PathResolve {
    /// The file name searched for, suffix already applied.
    pub name: String,
    pub state: PathState,
}

#[derive(Debug, PartialEq, Eq)]
pub enum PathState {
    /// The PATH-like variable was requested.
    AwaitEnv,
    /// Segment `idx` of the split variable value is being searched.
    Searching { path_value: String, segments: Vec<String>, idx: usize },
}

/// Structural soundness of a PATH resolution: the stored segments are the
/// split of the stored variable value, and the index points at one.
pub open spec fn path_wf(m: PathResolve) -> bool {
    match m.state {
        PathState::AwaitEnv => true,
        PathState::Searching { path_value, segments, idx } => seq_views(segments@) == split_on(
            path_value@,
            ':',
        ) && idx < segments@.len(),
    }
}

/// Which events a PATH resolution in this state accepts.
pub open spec fn path_expects(m: PathResolve, ev: Event) -> bool {
    match m.state {
        PathState::AwaitEnv => ev is Env,
        PathState::Searching { .. } => ev is Entries,
    }
}

/// The transition relation of [`PathResolve::step`].
pub open spec fn path_step_rel(
    pre: PathResolve,
    ev: Event,
    r: Step<PathResolve, String, FindError>,
) -> bool {
    match (pre.state, ev) {
        (PathState::AwaitEnv, Event::Env { value }) => match value {
            None => r matches Step::Failed { err: FindError::Variable { name } } && name@
                == generic_path_var(),
            Some(v) => r matches Step::Continue { next, action } && next.name@ == pre.name@ && (
            next.state matches PathState::Searching { path_value, segments, idx } && path_value@
                == v@ && seq_views(segments@) == split_on(v@, ':') && idx == 0) && (
            action matches Action::Traverse { root } && root@ == split_on(v@, ':')[0]),
        },
        (PathState::Searching { path_value, segments, idx }, Event::Entries { listing }) => {
            let hit = match listing {
                Ok(entries) => first_match(seq_views(entries@), pre.name@),
                Err(_) => None,
            };
            match hit {
                Some(i) => (listing matches Ok(entries) && r matches Step::Done { value } && value@
                    == seq_views(entries@)[i]),
                None => if idx + 1 < segments@.len() {
                    r matches Step::Continue { next, action } && next.name@ == pre.name@ && (
                    next.state matches PathState::Searching {
                        path_value: p2,
                        segments: s2,
                        idx: i2,
                    } && p2@ == path_value@ && seq_views(s2@) == seq_views(segments@) && i2 == idx
                        + 1) && (action matches Action::Traverse { root } && root@ == seq_views(
                        segments@,
                    )[idx + 1])
                } else {
                    r matches Step::Failed { err: FindError::NotFound { dir, name } } && dir@
                        == path_value@ && name@ == pre.name@
                },
            }
        },
        _ => false,
    }
}

/// Starts resolving `name` through the generic PATH lookup. The suffix is
/// applied here, once; the first action reads the PATH-like variable.
pub fn find_file_in_path(name: &str) -> (r: (PathResolve, Action))
    ensures
        r.0.name@ == with_suffix(name@, exe_suffix()),
        r.0.state is AwaitEnv,
        path_wf(r.0),
        r.1 matches Action::ReadEnv { name: n } && n@ == generic_path_var(),
{
    let machine = PathResolve { name: ensure_suffix(name, executable_suffix()), state: PathState::AwaitEnv };
    let action = Action::ReadEnv { name: String::from_str("PATH") };
    (machine, action)
}

impl PathResolve {
    /// Feeds the answer to the last emitted action into the resolution.
    pub fn step(self, ev: Event) -> (r: Step<PathResolve, String, FindError>)
        requires
            path_wf(self),
            path_expects(self, ev),
        ensures
            path_step_rel(self, ev, r),
            r matches Step::Continue { next, .. } ==> path_wf(next),
    {
        let PathResolve { name, state } = self;
        match (state, ev) {
            (PathState::AwaitEnv, Event::Env { value }) => match value {
                None => Step::Failed {
                    err: FindError::Variable { name: String::from_str("PATH") },
                },
                Some(v) => {
                    let segments = split_str_on(v.as_str(), ':');
                    let head = segments[0].clone();
                    Step::Continue {
                        next: PathResolve {
                            name,
                            state: PathState::Searching { path_value: v, segments, idx: 0 },
                        },
                        action: Action::Traverse { root: head },
                    }
                },
            },
            (PathState::Searching { path_value, segments, idx }, Event::Entries { listing }) => {
                let hit = match &listing {
                    Ok(entries) => match_in_entries(entries, &name),
                    Err(_) => None,
                };
                match (listing, hit) {
                    (Ok(entries), Some(i)) => Step::Done { value: entries[i].clone() },
                    _ => {
                        let n: usize = segments.len();
                        if idx + 1 < n {
                            let head = segments[idx + 1].clone();
                            Step::Continue {
                                next: PathResolve {
                                    name,
                                    state: PathState::Searching {
                                        path_value,
                                        segments,
                                        idx: idx + 1,
                                    },
                                },
                                action: Action::Traverse { root: head },
                            }
                        } else {
                            Step::Failed {
                                err: FindError::NotFound { dir: path_value, name },
                            }
                        }
                    },
                }
            },
            _ => unreached(),
        }
    }
}

/// An SDK lookup never consults the PATH-like variable: the only variable
/// it ever asks for is the SDK root variable, on its first action, and
/// every later action is a directory traversal.
pub proof fn lemma_sdk_lookup_reads_no_path(
    pre: SdkResolve,
    ev: Event,
    r: Step<SdkResolve, Resolution, FindError>,
)
    requires
        sdk_step_rel(pre, ev, r),
    ensures
        r matches Step::Continue { action, .. } ==> action is Traverse,
{
}

/// A tool present under `build-tools` is resolved right there: the
/// listing of the `build-tools` tree holding a first match at `i` ends
/// the lookup with that entry and the SDK root, successfully.
pub proof fn lemma_sdk_build_tools_hit(
    pre: SdkResolve,
    root: String,
    entries: Vec<String>,
    i: int,
    r: Step<SdkResolve, Resolution, FindError>,
)
    requires
        pre.state matches SdkState::AwaitBuildTools { root: r2 } && r2 == root,
        first_match(seq_views(entries@), pre.name@) == Some(i),
        sdk_step_rel(pre, Event::Entries { listing: Ok(entries) }, r),
    ensures
        r matches Step::Done { value } && value.executable@ == seq_views(entries@)[i]
            && value.root@ == root@,
        basename(seq_views(entries@)[i]) == pre.name@,
{
    lemma_first_match_in_range(seq_views(entries@), pre.name@);
}

/// A tool absent from every searched root fails with `NotFound` naming
/// the root that was actually searched — never a traversal error: here
/// for the last SDK search root, the SDK root directory itself.
pub proof fn lemma_sdk_miss_names_searched_root(
    pre: SdkResolve,
    root: String,
    entries: Vec<String>,
    r: Step<SdkResolve, Resolution, FindError>,
)
    requires
        pre.state matches SdkState::AwaitRoot { root: r2 } && r2 == root,
        first_match(seq_views(entries@), pre.name@) is None,
        sdk_step_rel(pre, Event::Entries { listing: Ok(entries) }, r),
    ensures
        r matches Step::Failed { err: FindError::NotFound { dir, name } } && dir@ == root@
            && name@ == pre.name@,
{
}

/// The same, for the generic lookup: when the last segment of the
/// PATH-like value has been searched without a hit, the failure is
/// `NotFound` naming the searched value, never a traversal error.
pub proof fn lemma_path_miss_names_searched_value(
    pre: PathResolve,
    path_value: String,
    entries: Vec<String>,
    r: Step<PathResolve, String, FindError>,
)
    requires
        pre.state matches PathState::Searching { path_value: p2, segments, idx } && p2 == path_value
            && idx + 1 >= segments@.len(),
        first_match(seq_views(entries@), pre.name@) is None,
        path_step_rel(pre, Event::Entries { listing: Ok(entries) }, r),
    ensures
        r matches Step::Failed { err: FindError::NotFound { dir, name } } && dir@ == path_value@
            && name@ == pre.name@,
{
}

} // verus!
