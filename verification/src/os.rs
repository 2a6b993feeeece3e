//! Operating-system constants of the target platform.

use vstd::prelude::*;

verus! {

/// The delimiter between segments of a PATH-like environment variable.
pub fn path_delimiter() -> (r: &'static str)
    ensures
        r@ == path_delim(),
{
    ":"
}

/// The view of the PATH delimiter, for use in contracts.
pub open spec fn path_delim() -> Seq<char> {
    ":"@
}

/// The suffix executable files carry on this platform (none).
pub fn executable_suffix() -> (r: &'static str)
    ensures
        r@ == exe_suffix(),
{
    ""
}

/// The view of the executable suffix, for use in contracts.
pub open spec fn exe_suffix() -> Seq<char> {
    ""@
}

} // verus!
