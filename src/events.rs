use vstd::prelude::*;

use crate::types::{ActorId, U256};

verus! {

/// Why an invocation failed.
#[derive(Clone, Copy, Debug, PartialEq, Eq, Structural)]
pub enum VFTManagerErrors {
    /// The amount to add is below the configured floor (carried).
    MinTokensToAdd(u128),
    CantSwapTokens { tokens_in_vft_contract: U256 },
    /// The caller holds fewer tokens than the swap would burn.
    CantSwapUserTokens { user_tokens: U256, tokens_to_swap: U256 },
    ContractCantMint,
    /// The amount offered for a swap is below the smallest accepted one.
    CantSwapTokensWithAmount { min_amount: u128, actual_amount: u128 },
    /// The caller is not in the admin set.
    OnlyAdminsCanDoThatAction,
    /// No token ledger is configured.
    VftContractIdNotSet,
    /// A ledger call could not be completed.
    ErrorInVFTContract,
    /// The exchange rate is zero, so no number of currency units follows.
    ErrorInGetNumOfVarasToSwap,
    /// A ledger call completed but reported failure.
    OperationWasNotPerformed,
}

/// Outcomes of commands.
#[derive(Clone, Copy, Debug, PartialEq, Eq, Structural)]
pub enum VFTManagerEvents {
    NewAdminAdded(ActorId),
    /// The swap was declined and the attached currency sent back; carries
    /// the whole units that were attached.
    RefundOfVaras(u128),
    VFTContractIdSet,
    MinTokensToAddSet,
    TokensAdded,
    SetTokensPerVaras,
    TotalSwapInVaras(u128),
    TokensSwapSuccessfully { total_tokens: u128, total_varas: u128 },
    Error(VFTManagerErrors),
}

/// Outcomes of read-only queries.
#[derive(Clone, Copy, Debug, PartialEq, Eq, Structural)]
pub enum VFTManagerQueryEvents {
    ContractBalanceInVaras(u128),
    UserTotalTokensAsU128(u128),
    UserTotalTokens(U256),
    TotalTokensToSwap(U256),
    TotalTokensToSwapAsU128(u128),
    TokensToSwapOneVara(u128),
    NumOfTokensForOneVara(u128),
    Error(VFTManagerErrors),
}

} // verus!
