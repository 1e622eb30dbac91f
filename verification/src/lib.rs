use vstd::prelude::*;

pub mod digest;
pub mod parser;
pub mod planner;
pub mod protocol;
pub mod repo_store;
pub mod scheduler;
pub mod semantic;
pub mod text;

verus! {
} // verus!
