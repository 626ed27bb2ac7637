//! Mutation testing by structural expression matching: find a pattern inside
//! a named function, rewrite exactly one occurrence, drive the test command
//! through check, write, test and restore, and score the outcomes.
//!
//! Parsing source text into the expression model and printing it back belong
//! to the caller; this library works on the model.
use vstd::prelude::*;

pub mod codegen;
pub mod config;
pub mod error;
pub mod expr;
pub mod matcher;
pub mod mutator;
pub mod report;
pub mod runner;
pub mod text;

pub use config::{Config, MutationConfig, Settings};
pub use error::MutationError;
pub use report::MutationReport;
pub use runner::{validate_mutations, MutationResult, MutationStatus};

verus! {

} // verus!
