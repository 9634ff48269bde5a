//! Execution-engine facing value types of the canonical data model: the
//! generic execution result wrapper and its call/create specializations,
//! transaction vicinity, and the fee-payer hook.

use vstd::prelude::*;

use crate::types::{Address, Log, U256, address_wf, glogs_wf, logs_view, word_wf};

verus! {

/// External input from the transaction: gas price and origin.
#[derive(Clone, Debug, PartialEq, Eq)]
pub struct Vicinity {
    /// Current transaction gas price.
    pub gas_price: U256,
    /// Origin of the transaction.
    pub origin: Address,
}

impl Vicinity {
    pub open spec fn wf(&self) -> bool {
        word_wf(self.gas_price@) && address_wf(self.origin@)
    }
}

impl Default for Vicinity {
    /// The zero vicinity: gas price zero, origin the zero address.
    fn default() -> (r: Vicinity)
        ensures
            r.gas_price@ == Seq::new(32, |i: int| 0u8),
            r.origin@ == Seq::new(20, |i: int| 0u8),
            r.wf(),
    {
        let gas_price = U256 { bytes: zero_bytes(32) };
        let origin = Address { bytes: zero_bytes(20) };
        proof {
            assert(gas_price@ =~= Seq::new(32, |i: int| 0u8));
            assert(origin@ =~= Seq::new(20, |i: int| 0u8));
        }
        Vicinity { gas_price: gas_price, origin: origin }
    }
}

/// A vector of `n` zero bytes.
pub fn zero_bytes(n: usize) -> (r: Vec<u8>)
    ensures
        r@.len() == n,
        forall|i: int| 0 <= i < n ==> r@[i] == 0u8,
{
    let mut out: Vec<u8> = Vec::new();
    let mut i: usize = 0;
    while i < n
        invariant
            i <= n,
            out@.len() == i,
            forall|j: int| 0 <= j < i ==> out@[j] == 0u8,
        decreases n - i,
    {
        out.push(0u8);
        i = i + 1;
    }
    out
}

/// The coarse outcome of one execution: the four top-level exit classes the
/// engine distinguishes.
#[derive(Clone, Copy, Debug, PartialEq, Eq, Structural)]
pub enum ExitReason {
    Succeed,
    Error,
    Revert,
    Fatal,
}

/// The generic execution result wrapper: exit reason, a result value whose
/// shape depends on the call kind, gas used, and the logs emitted.
#[derive(Clone, Debug, PartialEq, Eq)]
pub struct ExecutionInfo<T> {
    pub exit_reason: ExitReason,
    pub value: T,
    pub used_gas: U256,
    pub logs: Vec<Log>,
}

impl<T> ExecutionInfo<T> {
    pub open spec fn wf(&self) -> bool {
        word_wf(self.used_gas@) && glogs_wf(logs_view(self.logs@))
    }
}

/// The result of a call: raw returned bytes.
pub type CallInfo = ExecutionInfo<Vec<u8>>;

/// The result of a creation: the created contract's address.
pub type CreateInfo = ExecutionInfo<Address>;

/// Either result, tagged by the call kind.
#[derive(Clone, Debug, PartialEq, Eq)]
pub enum CallOrCreateInfo {
    Call(CallInfo),
    Create(CreateInfo),
}

/// Why the engine asks who pays a fee: a call with its target and input, or
/// one of the two creation kinds.
#[derive(Clone, Debug, PartialEq, Eq)]
pub enum WithdrawReason {
    Call { target: Address, input: Vec<u8> },
    Create,
    Create2,
}

/// A hook deciding which cross-chain account pays the fee for a withdrawal;
/// implementors are consulted in order and the first decision wins.
pub trait TransactionValidityHack<CrossAccountId> {
    fn who_pays_fee(origin: &Address, reason: &WithdrawReason) -> Option<CrossAccountId>;
}

impl<CrossAccountId> TransactionValidityHack<CrossAccountId> for () {
    /// The empty hook decides nothing.
    fn who_pays_fee(_origin: &Address, _reason: &WithdrawReason) -> Option<CrossAccountId> {
        None
    }
}

impl<CrossAccountId, A: TransactionValidityHack<CrossAccountId>> TransactionValidityHack<
    CrossAccountId,
> for (A,) {
    fn who_pays_fee(origin: &Address, reason: &WithdrawReason) -> Option<CrossAccountId> {
        match A::who_pays_fee(origin, reason) {
            Some(who) => Some(who),
            None => None,
        }
    }
}

impl<
    CrossAccountId,
    A: TransactionValidityHack<CrossAccountId>,
    B: TransactionValidityHack<CrossAccountId>,
> TransactionValidityHack<CrossAccountId> for (A, B) {
    fn who_pays_fee(origin: &Address, reason: &WithdrawReason) -> Option<CrossAccountId> {
        match A::who_pays_fee(origin, reason) {
            Some(who) => Some(who),
            None => match B::who_pays_fee(origin, reason) {
                Some(who) => Some(who),
                None => None,
            },
        }
    }
}

impl<
    CrossAccountId,
    A: TransactionValidityHack<CrossAccountId>,
    B: TransactionValidityHack<CrossAccountId>,
    C: TransactionValidityHack<CrossAccountId>,
> TransactionValidityHack<CrossAccountId> for (A, B, C) {
    fn who_pays_fee(origin: &Address, reason: &WithdrawReason) -> Option<CrossAccountId> {
        match A::who_pays_fee(origin, reason) {
            Some(who) => Some(who),
            None => match B::who_pays_fee(origin, reason) {
                Some(who) => Some(who),
                None => match C::who_pays_fee(origin, reason) {
                    Some(who) => Some(who),
                    None => None,
                },
            },
        }
    }
}

} // verus!
