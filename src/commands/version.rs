//! `sdk version`: the versions of the tool.
use vstd::prelude::*;

verus! {

/// Arguments of `sdk version`.
pub struct Args {
    /// Print only the version of this binary.
    pub native_only: bool,
}

} // verus!
