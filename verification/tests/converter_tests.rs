//! Tests for the weight-to-fee and balance-to-vote converters and the call
//! classifier.

use fee_engine::calls::{Call, ContractsCall, GasMeteredCallResolver};
use fee_engine::converters::{CurrencyToVoteHandler, LinearWeightToFee};

const U64_MAX: u128 = u64::MAX as u128;

#[test]
fn vote_factor_is_at_least_one() {
    assert_eq!(CurrencyToVoteHandler::factor(0), 1);
    assert_eq!(CurrencyToVoteHandler::factor(U64_MAX - 1), 1);
    assert_eq!(CurrencyToVoteHandler::factor(U64_MAX), 1);
    assert_eq!(CurrencyToVoteHandler::factor(4 * U64_MAX), 4);
}

#[test]
fn balance_to_vote_scales_by_issuance() {
    // Small issuance: the factor is one and the conversion is the identity.
    assert_eq!(CurrencyToVoteHandler::balance_to_vote(1_234, 1_000_000), 1_234);
    // Large issuance: balances are scaled down into the voting range.
    assert_eq!(CurrencyToVoteHandler::balance_to_vote(8, 4 * U64_MAX), 2);
    assert_eq!(
        CurrencyToVoteHandler::balance_to_vote(4 * U64_MAX, 4 * U64_MAX),
        u64::MAX
    );
}

#[test]
fn vote_to_balance_uses_the_same_factor() {
    assert_eq!(CurrencyToVoteHandler::vote_to_balance(2, 4 * U64_MAX), 8);
    // Round trip through both directions with one issuance snapshot.
    let issuance = 10 * U64_MAX;
    let balance: u128 = 70;
    let vote = CurrencyToVoteHandler::balance_to_vote(balance, issuance);
    assert_eq!(
        CurrencyToVoteHandler::vote_to_balance(vote as u128, issuance),
        70
    );
}

#[test]
fn weight_to_fee_is_linear() {
    let converter = LinearWeightToFee::new(1_000);
    assert_eq!(converter.convert(0), 0);
    assert_eq!(converter.convert(10_000), 10_000_000);
}

#[test]
fn weight_to_fee_saturates_instead_of_overflowing() {
    let converter = LinearWeightToFee::new(u128::MAX);
    assert_eq!(converter.convert(0), 0);
    assert_eq!(converter.convert(1), u128::MAX);
    assert_eq!(converter.convert(2), u128::MAX);
    assert_eq!(converter.convert(u32::MAX), u128::MAX);
}

#[test]
fn sandbox_calls_are_gas_metered() {
    let call = Call::Contracts(ContractsCall::Call {
        dest: 1,
        value: 0,
        gas_limit: 100_000,
        data: vec![1, 2, 3],
    });
    assert!(GasMeteredCallResolver::is_gas_metered(&call));

    let instantiate = Call::Contracts(ContractsCall::Instantiate {
        endowment: 5,
        gas_limit: 100_000,
        code_hash: vec![0; 32],
        data: vec![],
    });
    assert!(GasMeteredCallResolver::is_gas_metered(&instantiate));

    let put_code = Call::Contracts(ContractsCall::PutCode {
        gas_limit: 100_000,
        code: vec![0, 1],
    });
    assert!(GasMeteredCallResolver::is_gas_metered(&put_code));
}

#[test]
fn administrative_calls_are_not_gas_metered() {
    assert!(!GasMeteredCallResolver::is_gas_metered(&Call::Contracts(
        ContractsCall::UpdateSchedule
    )));
    assert!(!GasMeteredCallResolver::is_gas_metered(&Call::Contracts(
        ContractsCall::ClaimSurcharge { dest: 9 }
    )));
    assert!(!GasMeteredCallResolver::is_gas_metered(&Call::GenericAsset));
    assert!(!GasMeteredCallResolver::is_gas_metered(&Call::Sudo));
    assert!(!GasMeteredCallResolver::is_gas_metered(&Call::Other));
}
