use vstd::prelude::*;

use crate::events::{VFTManagerErrors, VFTManagerEvents};
use crate::types::{ActorId, ONE_TVARA, U256};

verus! {

/// A request to the token ledger contract `ledger`.
#[derive(Clone, Copy, Debug, PartialEq, Eq, Structural)]
pub enum LedgerCall {
    BalanceOf { ledger: ActorId, owner: ActorId },
    Transfer { ledger: ActorId, to: ActorId, amount: U256 },
    Burn { ledger: ActorId, from: ActorId, amount: U256 },
    Mint { ledger: ActorId, to: ActorId, amount: U256 },
}

/// What came back from a ledger call.
#[derive(Clone, Copy, Debug, PartialEq, Eq, Structural)]
pub enum LedgerReply {
    /// The answer to `BalanceOf`.
    Balance(U256),
    /// The success flag of `Transfer`, `Burn` or `Mint`.
    Status(bool),
    /// The call could not be completed.
    Failed,
}

/// A direct transfer of native currency (in its smallest subunit).
#[derive(Clone, Copy, Debug, PartialEq, Eq, Structural)]
pub struct Payment {
    pub to: ActorId,
    pub value: u128,
}

/// What a workflow waits for while a ledger call is under way.
#[derive(Clone, Copy, Debug, PartialEq, Eq, Structural)]
pub enum Pending {
    /// Currency to tokens: the contract's own token balance.
    ContractSupply { caller: ActorId, value: u128, ledger: ActorId, varas: u128, tokens: u128 },
    /// Currency to tokens: the transfer of `tokens` to the caller.
    TransferToCaller { varas: u128, tokens: u128 },
    /// Tokens to currency: the caller's token balance.
    CallerBalance { caller: ActorId, program: ActorId, ledger: ActorId, varas: u128, tokens: u128 },
    /// Tokens to currency: the burn of `tokens` from the caller.
    BurnFromCaller { caller: ActorId, program: ActorId, ledger: ActorId, varas: u128, tokens: u128 },
    /// Tokens to currency: the mint of the burned tokens to the contract.
    MintAfterBurn { caller: ActorId, varas: u128, tokens: u128 },
    /// Treasury funding: the mint to the contract.
    MintToContract,
}

impl Pending {
    /// Every currency payout that the workflow may still make fits in `u128`.
    pub open spec fn wf(self) -> bool {
        match self {
            Pending::ContractSupply { varas, .. } => varas * ONE_TVARA <= u128::MAX,
            Pending::CallerBalance { varas, .. } => varas * ONE_TVARA <= u128::MAX,
            Pending::BurnFromCaller { varas, .. } => varas * ONE_TVARA <= u128::MAX,
            Pending::MintAfterBurn { varas, .. } => varas * ONE_TVARA <= u128::MAX,
            _ => true,
        }
    }
}

/// The next thing a workflow does.
#[derive(Clone, Copy, Debug, PartialEq, Eq, Structural)]
pub enum Step {
    /// Perform `call` and resume with its reply.
    Call { call: LedgerCall, next: Pending },
    /// Make `payment`, if any, and return `event`.
    Done { event: VFTManagerEvents, payment: Option<Payment> },
}

/// The final step that returns `e` and pays nothing.
pub open spec fn finish(e: VFTManagerEvents) -> Step {
    Step::Done { event: e, payment: None }
}

/// The final step that reports error `e`.
pub open spec fn fail(e: VFTManagerErrors) -> Step {
    finish(VFTManagerEvents::Error(e))
}

/// How the reply to a `Transfer`, `Burn` or `Mint` is read: a success flag
/// of `true` is success, `false` is `OperationWasNotPerformed`, and a call
/// that did not complete is `ErrorInVFTContract`.
pub open spec fn spec_status_outcome(reply: LedgerReply) -> Result<(), VFTManagerErrors> {
    match reply {
        LedgerReply::Status(true) => Ok(()),
        LedgerReply::Status(false) => Err(VFTManagerErrors::OperationWasNotPerformed),
        _ => Err(VFTManagerErrors::ErrorInVFTContract),
    }
}

/// Reads the reply to a `Transfer`, `Burn` or `Mint`.
pub fn status_outcome(reply: LedgerReply) -> (r: Result<(), VFTManagerErrors>)
    ensures
        r == spec_status_outcome(reply),
        reply == LedgerReply::Status(false) ==> r == Err::<(), _>(VFTManagerErrors::OperationWasNotPerformed),
        reply == LedgerReply::Failed ==> r == Err::<(), _>(VFTManagerErrors::ErrorInVFTContract),
{
    match reply {
        LedgerReply::Status(true) => Ok(()),
        LedgerReply::Status(false) => Err(VFTManagerErrors::OperationWasNotPerformed),
        _ => Err(VFTManagerErrors::ErrorInVFTContract),
    }
}

} // verus!
