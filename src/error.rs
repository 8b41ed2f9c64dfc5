use vstd::prelude::*;

use crate::call::LogEntry;
use crate::remapping::ConfigError;

verus! {

/// Every way in which a session, a deployment or a call can fail.
#[derive(Clone, Debug, PartialEq, Eq)]
pub enum HarnessError {
    /// The alias file or a remapped path is unusable.
    Config(ConfigError),
    /// The compiler reported errors; every diagnostic it gave.
    Compile { diagnostics: Vec<String> },
    /// Two compiled contracts share a name.
    DuplicateContract { name: String },
    /// No compiled contract has the requested name.
    ContractNotFound { name: String },
    /// The deployment transaction or the setup routine failed.
    Deployment { reason: String },
    /// The bound contract has no function of the requested name.
    FunctionNotFound { name: String },
    /// The arguments do not fit the function's parameter types.
    ArgumentEncoding { reason: String },
    /// The returned bytes do not fit the function's return types.
    ResultDecoding { reason: String },
    /// The contract rejected the call.
    ExecutionRevert { reason: Option<String>, gas_used: u64, logs: Vec<LogEntry> },
    /// The machine failed for a reason outside the contract's logic.
    Execution { reason: String },
}

} // verus!
