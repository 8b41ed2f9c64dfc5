use vstd::prelude::*;

use crate::error::HarnessError;
use crate::profile::{Address, EnvironmentProfile, Word};
use crate::registry::{has_name, is_first_match, Registry};

verus! {

/// A session: the compiled contracts, the environment profile that every execution
/// shares, and the remote state to fork from, which the first deployment takes.
pub struct Runner {
    pub registry: Registry,
    pub profile: EnvironmentProfile,
    /// Where to fork state from; `None` for a fresh, empty state.
    pub fork: Option<String>,
    /// Whether executors collect coverage.
    pub coverage: bool,
}

/// What the executor of one deployment is to be built with.
pub struct Deployment {
    /// Position of the contract in the registry.
    pub contract: usize,
    /// The fork source this deployment took, if any.
    pub fork: Option<String>,
    pub sender: Address,
    pub initial_balance: Word,
    pub gas_limit: u64,
    pub tracing: bool,
    pub coverage: bool,
}

impl Runner {
    /// A session over `registry` with the deterministic environment profile, without
    /// coverage collection.
    pub fn new(registry: Registry, fork: Option<String>) -> (r: Runner)
        ensures
            r.registry == registry,
            r.profile.is_deterministic(),
            r.fork == fork,
            !r.coverage,
    {
        Runner { registry, profile: EnvironmentProfile::deterministic(), fork, coverage: false }
    }

    /// Decides how the contract `contract_name` is deployed: finds it in the registry and
    /// takes the fork source, which later deployments then lack. The executor is to run
    /// with the profile's sender, balance and gas ceiling, with tracing on.
    /// Where no contract has that name the session stays as it was.
    pub fn deploy(&mut self, contract_name: &str) -> (r: Result<Deployment, HarnessError>)
        ensures
            r is Ok <==> has_name(old(self).registry.names(), contract_name@),
            match r {
                Ok(d) => {
                    &&& is_first_match(old(self).registry.names(), contract_name@, d.contract as int)
                    &&& d.contract < old(self).registry.contracts().len()
                    &&& old(self).registry.contracts()[d.contract as int].name@ == contract_name@
                    &&& d.fork == old(self).fork
                    &&& d.sender == old(self).profile.sender
                    &&& d.initial_balance == old(self).profile.initial_balance
                    &&& d.gas_limit == old(self).profile.gas_limit
                    &&& d.tracing
                    &&& d.coverage == old(self).coverage
                    &&& final(self).fork is None
                    &&& final(self).registry == old(self).registry
                    &&& final(self).profile == old(self).profile
                    &&& final(self).coverage == old(self).coverage
                },
                Err(HarnessError::ContractNotFound { name }) => {
                    &&& name@ == contract_name@
                    &&& *final(self) == *old(self)
                },
                Err(_) => false,
            },
    {
        match self.registry.find(contract_name) {
            None => Err(HarnessError::ContractNotFound { name: contract_name.to_owned() }),
            Some(i) => {
                let fork = self.fork.take();
                Ok(
                    Deployment {
                        contract: i,
                        fork,
                        sender: self.profile.sender,
                        initial_balance: self.profile.initial_balance,
                        gas_limit: self.profile.gas_limit,
                        tracing: true,
                        coverage: self.coverage,
                    },
                )
            },
        }
    }
}

} // verus!
