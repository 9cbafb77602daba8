use vstd::prelude::*;

verus! {

/// A request to trace a program line by line.
#[derive(Clone, Debug)]
pub struct DebugRequest {
    pub code: String,
    pub language: String,
    pub input: String,
}

} // verus!
