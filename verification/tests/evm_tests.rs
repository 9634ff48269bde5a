//! The execution-primitive value types and the fee-payer hook.

use storage_override::evm::{
    CallOrCreateInfo, ExecutionInfo, ExitReason, TransactionValidityHack, Vicinity, WithdrawReason,
};
use storage_override::types::{Address, U256};

fn origin() -> Address {
    Address { bytes: vec![0x12u8; 20] }
}

struct AlwaysAlice;

impl TransactionValidityHack<&'static str> for AlwaysAlice {
    fn who_pays_fee(_origin: &Address, _reason: &WithdrawReason) -> Option<&'static str> {
        Some("alice")
    }
}

struct NeverPays;

impl TransactionValidityHack<&'static str> for NeverPays {
    fn who_pays_fee(_origin: &Address, _reason: &WithdrawReason) -> Option<&'static str> {
        None
    }
}

#[test]
fn unit_hook_decides_nothing() {
    let got: Option<&'static str> =
        <() as TransactionValidityHack<&'static str>>::who_pays_fee(&origin(), &WithdrawReason::Create);
    assert_eq!(got, None);
}

#[test]
fn tuple_hook_takes_first_decision() {
    let got = <(NeverPays, AlwaysAlice) as TransactionValidityHack<&'static str>>::who_pays_fee(
        &origin(),
        &WithdrawReason::Create2,
    );
    assert_eq!(got, Some("alice"));
    let none = <(NeverPays, NeverPays) as TransactionValidityHack<&'static str>>::who_pays_fee(
        &origin(),
        &WithdrawReason::Create,
    );
    assert_eq!(none, None);
    let single = <(AlwaysAlice,) as TransactionValidityHack<&'static str>>::who_pays_fee(
        &origin(),
        &WithdrawReason::Call { target: origin(), input: vec![] },
    );
    assert_eq!(single, Some("alice"));
}

#[test]
fn default_vicinity_is_all_zero() {
    let v = Vicinity::default();
    assert_eq!(v.gas_price.bytes, vec![0u8; 32]);
    assert_eq!(v.origin.bytes, vec![0u8; 20]);
}

#[test]
fn execution_info_specializes_to_call_and_create() {
    let call = ExecutionInfo {
        exit_reason: ExitReason::Succeed,
        value: vec![0x01u8, 0x02],
        used_gas: U256 { bytes: vec![0u8; 32] },
        logs: vec![],
    };
    let create = ExecutionInfo {
        exit_reason: ExitReason::Revert,
        value: origin(),
        used_gas: U256 { bytes: vec![0u8; 32] },
        logs: vec![],
    };
    let wrapped = vec![CallOrCreateInfo::Call(call), CallOrCreateInfo::Create(create)];
    match &wrapped[0] {
        CallOrCreateInfo::Call(info) => assert_eq!(info.value, vec![0x01, 0x02]),
        CallOrCreateInfo::Create(_) => panic!("expected the call variant"),
    }
    match &wrapped[1] {
        CallOrCreateInfo::Create(info) => {
            assert_eq!(info.exit_reason, ExitReason::Revert);
            assert_eq!(info.value.bytes, vec![0x12u8; 20]);
        },
        CallOrCreateInfo::Call(_) => panic!("expected the create variant"),
    }
}
