//! Classifies dispatchable calls: only calls that invoke the bytecode
//! sandbox consume metered gas and go through the two-phase gas protocol.

use vstd::prelude::*;

use crate::{Balance, Gas};

verus! {

/// A dispatchable call of the contracts pallet.
#[derive(Debug)]
pub enum ContractsCall {
    /// Invoke an existing contract's bytecode.
    Call { dest: u64, value: Balance, gas_limit: Gas, data: Vec<u8> },
    /// Deploy a new contract from previously uploaded code.
    Instantiate { endowment: Balance, gas_limit: Gas, code_hash: Vec<u8>, data: Vec<u8> },
    /// Upload contract code to the chain.
    PutCode { gas_limit: Gas, code: Vec<u8> },
    /// Administrative: replace the fee schedule. Runs no bytecode.
    UpdateSchedule,
    /// Administrative: evict a contract behind on rent. Runs no bytecode.
    ClaimSurcharge { dest: u64 },
}

/// A dispatchable call of the runtime, reduced to the distinction the gas
/// metering decision needs.
#[derive(Debug)]
pub enum Call {
    /// A contracts-pallet call.
    Contracts(ContractsCall),
    /// An asset transfer or other generic-asset operation.
    GenericAsset,
    /// A privileged administrative call.
    Sudo,
    /// Any other non-execution call.
    Other,
}

/// True exactly for the calls that invoke the bytecode sandbox: contract
/// invocation, instantiation, and code upload.
pub open spec fn spec_is_gas_metered(call: Call) -> bool {
    match call {
        Call::Contracts(contracts_call) => match contracts_call {
            ContractsCall::Call { .. } => true,
            ContractsCall::Instantiate { .. } => true,
            ContractsCall::PutCode { .. } => true,
            ContractsCall::UpdateSchedule => false,
            ContractsCall::ClaimSurcharge { .. } => false,
        },
        Call::GenericAsset => false,
        Call::Sudo => false,
        Call::Other => false,
    }
}

/// Pure, total classifier deciding whether a dispatchable call consumes
/// metered gas.
pub struct GasMeteredCallResolver;

impl GasMeteredCallResolver {
    /// Returns whether the given `call` is gas metered: true only for calls
    /// that run the bytecode sandbox, false for everything else, including
    /// administrative and non-execution calls.
    pub fn is_gas_metered(call: &Call) -> (r: bool)
        ensures
            r == spec_is_gas_metered(*call),
    {
        match call {
            Call::Contracts(ContractsCall::Call { .. }) => true,
            Call::Contracts(ContractsCall::Instantiate { .. }) => true,
            Call::Contracts(ContractsCall::PutCode { .. }) => true,
            _ => false,
        }
    }
}

} // verus!
