//! The build information the program reports at start.
use vstd::prelude::*;

verus! {

/// The version of the package.
pub fn get_build_version() -> (r: &'static str)
    ensures
        r@ == "0.1.0"@,
{
    "0.1.0"
}

/// When the program was built, as the build recorded it in `recorded`.
pub fn get_build_time(recorded: &'static str) -> (r: &'static str)
    ensures
        r == recorded,
{
    recorded
}

/// The commit the program was built from, as the build recorded it in
/// `recorded`.
pub fn get_git_sha(recorded: &'static str) -> (r: &'static str)
    ensures
        r == recorded,
{
    recorded
}

} // verus!
