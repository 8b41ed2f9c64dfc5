//! A harness for driving smart contracts from Rust tests: remapping resolution, the
//! deterministic environment profile, the registry of compiled contracts, deployment
//! decisions, function resolution, call outcome classification and the diagnostic
//! stream. The compiler and the virtual machine are driven by the caller, which hands
//! their results to these functions.
use vstd::prelude::*;

pub mod call;
pub mod error;
pub mod profile;
pub mod registry;
pub mod remapping;
pub mod runner;
pub mod text;

verus! {

} // verus!
