//! `sdk uninstall`: removing an installed version.
use vstd::prelude::*;

verus! {

/// Arguments of `sdk uninstall`.
pub struct Args {
    /// Remove the version even if it is the current one.
    pub force: bool,
    pub candidate: String,
    pub version: String,
}

} // verus!
