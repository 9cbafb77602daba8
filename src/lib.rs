use vstd::prelude::*;

pub mod text;
pub mod job;
pub mod metadata;
pub mod classify;
pub mod sandbox;
pub mod executor;
pub mod worker;
pub mod facade;
pub mod debugger;
pub mod sqlizer;

verus! {

} // verus!
