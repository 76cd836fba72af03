//! The mutational stage of a coverage-guided fuzzer: given one testcase of
//! the corpus, derive candidates from it by mutation, have the state evaluate
//! each of them, tell the mutator what came of it, and announce every
//! testcase that the state admitted.
//!
//! The stage knows its collaborators only through the traits of this crate.
//! Each of their methods is described by a relation between what it was
//! handed and what it left behind; the stage's own contract is the
//! composition of these relations, one mutation cycle after the other.

pub mod corpus;
pub mod engines;
pub mod error;
pub mod events;
pub mod executors;
pub mod inputs;
pub mod mutators;
pub mod stages;
pub mod utils;

pub use crate::error::AflError;
