//! `sdk default`: making a version current.
use vstd::prelude::*;

verus! {

/// Arguments of `sdk default`: the candidate and the version to make current.
pub struct Args {
    pub candidate: String,
    pub version: String,
}

} // verus!
