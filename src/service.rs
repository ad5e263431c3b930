use vstd::prelude::*;

use crate::events::{VFTManagerErrors, VFTManagerEvents, VFTManagerQueryEvents};
use crate::ledger::{
    fail, finish, spec_status_outcome, status_outcome, LedgerCall, LedgerReply, Payment, Pending, Step,
};
use crate::state::VFTManagerState;
use crate::types::{ActorId, ONE_TVARA, U256};

verus! {

/// The exchange service of one contract instance, which owns its state.
///
/// Callers are passed in explicitly: `caller` is always the identity that
/// sent the invocation, and `program_id` the contract's own identity.
pub struct VFTManagerService {
    pub state: VFTManagerState,
}

impl VFTManagerService {
    /// A service whose only admin is `admin`, with no ledger configured and
    /// zero thresholds and rate.
    pub fn new(admin: ActorId) -> (r: VFTManagerService)
        ensures
            r.state.admins@ == seq![admin],
            r.state.vft_contract_id.is_none(),
            r.state.min_tokens_to_add == 0,
            r.state.max_tokens_to_burn == 0,
            r.state.tokens_per_vara == 0,
    {
        VFTManagerService { state: VFTManagerState::new(admin) }
    }

    /// A service whose only admin is `admin`, with the given configuration.
    pub fn seed(
        admin: ActorId,
        vft_contract_id: Option<ActorId>,
        min_tokens_to_add: u128,
        max_tokens_to_burn: u128,
        tokens_per_vara: u128,
    ) -> (r: VFTManagerService)
        ensures
            r.state.admins@ == seq![admin],
            r.state.vft_contract_id == vft_contract_id,
            r.state.min_tokens_to_add == min_tokens_to_add,
            r.state.max_tokens_to_burn == max_tokens_to_burn,
            r.state.tokens_per_vara == tokens_per_vara,
    {
        let mut state = VFTManagerState::new(admin);
        state.vft_contract_id = vft_contract_id;
        state.min_tokens_to_add = min_tokens_to_add;
        state.max_tokens_to_burn = max_tokens_to_burn;
        state.tokens_per_vara = tokens_per_vara;
        VFTManagerService { state }
    }

    /// Appends `new_admin_address` to the admin set; admins only.
    pub fn add_admin(&mut self, caller: ActorId, new_admin_address: ActorId) -> (r: VFTManagerEvents)
        ensures
            old(self).state.spec_is_admin(caller) ==> {
                &&& r == VFTManagerEvents::NewAdminAdded(new_admin_address)
                &&& final(self).state.admins@ == old(self).state.admins@.push(new_admin_address)
                &&& final(self).state.same_config(&old(self).state)
            },
            !old(self).state.spec_is_admin(caller) ==> {
                &&& r == VFTManagerEvents::Error(VFTManagerErrors::OnlyAdminsCanDoThatAction)
                &&& *final(self) == *old(self)
            },
    {
        if !self.state.is_admin(&caller) {
            return VFTManagerEvents::Error(VFTManagerErrors::OnlyAdminsCanDoThatAction);
        }
        self.state.admins.push(new_admin_address);
        VFTManagerEvents::NewAdminAdded(new_admin_address)
    }

    /// Sets the token ledger contract; admins only.
    pub fn set_vft_contract_id(&mut self, caller: ActorId, vft_contract_id: ActorId) -> (r: VFTManagerEvents)
        ensures
            old(self).state.spec_is_admin(caller) ==> {
                &&& r == VFTManagerEvents::VFTContractIdSet
                &&& final(self).state == (VFTManagerState {
                    vft_contract_id: Some(vft_contract_id),
                    ..old(self).state
                })
            },
            !old(self).state.spec_is_admin(caller) ==> {
                &&& r == VFTManagerEvents::Error(VFTManagerErrors::OnlyAdminsCanDoThatAction)
                &&& *final(self) == *old(self)
            },
    {
        if !self.state.is_admin(&caller) {
            return VFTManagerEvents::Error(VFTManagerErrors::OnlyAdminsCanDoThatAction);
        }
        self.state.vft_contract_id = Some(vft_contract_id);
        VFTManagerEvents::VFTContractIdSet
    }

    /// Sets the floor for treasury funding; admins only.
    pub fn set_min_tokens_to_add(&mut self, caller: ActorId, min_tokens_to_add: u128) -> (r: VFTManagerEvents)
        ensures
            old(self).state.spec_is_admin(caller) ==> {
                &&& r == VFTManagerEvents::MinTokensToAddSet
                &&& final(self).state == (VFTManagerState {
                    min_tokens_to_add,
                    ..old(self).state
                })
            },
            !old(self).state.spec_is_admin(caller) ==> {
                &&& r == VFTManagerEvents::Error(VFTManagerErrors::OnlyAdminsCanDoThatAction)
                &&& *final(self) == *old(self)
            },
    {
        if !self.state.is_admin(&caller) {
            return VFTManagerEvents::Error(VFTManagerErrors::OnlyAdminsCanDoThatAction);
        }
        self.state.min_tokens_to_add = min_tokens_to_add;
        VFTManagerEvents::MinTokensToAddSet
    }

    /// Sets the exchange rate in tokens per whole currency unit; admins only.
    pub fn set_tokens_per_vara(&mut self, caller: ActorId, tokens_per_vara: u128) -> (r: VFTManagerEvents)
        ensures
            old(self).state.spec_is_admin(caller) ==> {
                &&& r == VFTManagerEvents::SetTokensPerVaras
                &&& final(self).state == (VFTManagerState {
                    tokens_per_vara,
                    ..old(self).state
                })
            },
            !old(self).state.spec_is_admin(caller) ==> {
                &&& r == VFTManagerEvents::Error(VFTManagerErrors::OnlyAdminsCanDoThatAction)
                &&& *final(self) == *old(self)
            },
    {
        if !self.state.is_admin(&caller) {
            return VFTManagerEvents::Error(VFTManagerErrors::OnlyAdminsCanDoThatAction);
        }
        self.state.tokens_per_vara = tokens_per_vara;
        VFTManagerEvents::SetTokensPerVaras
    }

    /// The ledger call that mints `tokens_to_add` to the contract's own
    /// balance, without the admin and floor checks of the public command.
    fn add_num_of_tokens_to_contract(tokens_to_add: u128, vft_contract_id: ActorId, program_id: ActorId) -> (r: LedgerCall)
        ensures
            r == (LedgerCall::Mint {
                ledger: vft_contract_id,
                to: program_id,
                amount: U256 { hi: 0, lo: tokens_to_add },
            }),
    {
        LedgerCall::Mint { ledger: vft_contract_id, to: program_id, amount: U256::from_u128(tokens_to_add) }
    }

    /// Treasury funding: admins mint at least `min_tokens_to_add` tokens to
    /// the contract's own ledger balance. The checks run in order: admin,
    /// ledger configured, floor.
    pub fn add_tokens_to_contract(&self, caller: ActorId, program_id: ActorId, tokens_to_add: u128) -> (r: Step)
        ensures
            !self.state.spec_is_admin(caller) ==> r == fail(VFTManagerErrors::OnlyAdminsCanDoThatAction),
            self.state.spec_is_admin(caller) && self.state.vft_contract_id.is_none()
                ==> r == fail(VFTManagerErrors::VftContractIdNotSet),
            self.state.spec_is_admin(caller) && self.state.vft_contract_id.is_some()
                && tokens_to_add < self.state.min_tokens_to_add
                ==> r == fail(VFTManagerErrors::MinTokensToAdd(self.state.min_tokens_to_add)),
            self.state.spec_is_admin(caller) && self.state.vft_contract_id.is_some()
                && tokens_to_add >= self.state.min_tokens_to_add ==> r == (Step::Call {
                    call: LedgerCall::Mint {
                        ledger: self.state.vft_contract_id.unwrap(),
                        to: program_id,
                        amount: U256 { hi: 0, lo: tokens_to_add },
                    },
                    next: Pending::MintToContract,
                }),
    {
        if !self.state.is_admin(&caller) {
            return Step::Done {
                event: VFTManagerEvents::Error(VFTManagerErrors::OnlyAdminsCanDoThatAction),
                payment: None,
            };
        }
        let ledger = match self.state.vft_contract_id {
            Some(id) => id,
            None => {
                return Step::Done {
                    event: VFTManagerEvents::Error(VFTManagerErrors::VftContractIdNotSet),
                    payment: None,
                };
            },
        };
        if tokens_to_add < self.state.min_tokens_to_add {
            return Step::Done {
                event: VFTManagerEvents::Error(VFTManagerErrors::MinTokensToAdd(self.state.min_tokens_to_add)),
                payment: None,
            };
        }
        Step::Call {
            call: Self::add_num_of_tokens_to_contract(tokens_to_add, ledger, program_id),
            next: Pending::MintToContract,
        }
    }

    /// Currency to tokens: `value` is the attached currency in its smallest
    /// subunit. Only whole units count; the remainder is kept by the
    /// contract. The contract's own token balance is asked for first.
    pub fn swap_tokens_by_num_of_varas(&self, caller: ActorId, program_id: ActorId, value: u128) -> (r: Step)
        requires
            (value / ONE_TVARA) * self.state.tokens_per_vara <= u128::MAX,
        ensures
            value == 0 ==> r == fail(
                VFTManagerErrors::CantSwapTokensWithAmount { min_amount: 1, actual_amount: 0 },
            ),
            value > 0 && self.state.vft_contract_id.is_none() ==> r == fail(VFTManagerErrors::VftContractIdNotSet),
            value > 0 && self.state.vft_contract_id.is_some() ==> r == (Step::Call {
                call: LedgerCall::BalanceOf { ledger: self.state.vft_contract_id.unwrap(), owner: program_id },
                next: Pending::ContractSupply {
                    caller,
                    value,
                    ledger: self.state.vft_contract_id.unwrap(),
                    varas: value / ONE_TVARA,
                    tokens: ((value / ONE_TVARA) * self.state.tokens_per_vara) as u128,
                },
            }),
            r is Call ==> {
                &&& r->next.wf()
                &&& r->next->ContractSupply_varas * ONE_TVARA == value - value % ONE_TVARA
                &&& r->next->ContractSupply_tokens
                    == ((value - value % ONE_TVARA) as int / ONE_TVARA as int) * self.state.tokens_per_vara
            },
    {
        if value == 0 {
            return Step::Done {
                event: VFTManagerEvents::Error(
                    VFTManagerErrors::CantSwapTokensWithAmount { min_amount: 1, actual_amount: 0 },
                ),
                payment: None,
            };
        }
        let ledger = match self.state.vft_contract_id {
            Some(id) => id,
            None => {
                return Step::Done {
                    event: VFTManagerEvents::Error(VFTManagerErrors::VftContractIdNotSet),
                    payment: None,
                };
            },
        };
        let varas = value / ONE_TVARA;
        let tokens: u128 = varas * self.state.tokens_per_vara;
        proof {
            vstd::arithmetic::div_mod::lemma_fundamental_div_mod(value as int, ONE_TVARA as int);
            vstd::arithmetic::div_mod::lemma_fundamental_div_mod_converse(
                (value - value % ONE_TVARA) as int, ONE_TVARA as int, varas as int, 0);
        }
        Step::Call {
            call: LedgerCall::BalanceOf { ledger, owner: program_id },
            next: Pending::ContractSupply { caller, value, ledger, varas, tokens },
        }
    }

    /// Tokens to currency: only whole multiples of the rate are swapped, the
    /// rest of `amount_of_tokens` stays with the caller. The caller's token
    /// balance is asked for first.
    pub fn swap_tokens_to_varas(&self, caller: ActorId, program_id: ActorId, amount_of_tokens: u128) -> (r: Step)
        requires
            self.state.tokens_per_vara > 0
                ==> (amount_of_tokens / self.state.tokens_per_vara) * ONE_TVARA <= u128::MAX,
        ensures
            amount_of_tokens < self.state.tokens_per_vara ==> r == fail(
                VFTManagerErrors::CantSwapTokensWithAmount {
                    min_amount: self.state.tokens_per_vara,
                    actual_amount: amount_of_tokens,
                },
            ),
            self.state.tokens_per_vara == 0 ==> r == fail(VFTManagerErrors::ErrorInGetNumOfVarasToSwap),
            0 < self.state.tokens_per_vara <= amount_of_tokens && self.state.vft_contract_id.is_none()
                ==> r == fail(VFTManagerErrors::VftContractIdNotSet),
            0 < self.state.tokens_per_vara <= amount_of_tokens && self.state.vft_contract_id.is_some()
                ==> r == (Step::Call {
                    call: LedgerCall::BalanceOf { ledger: self.state.vft_contract_id.unwrap(), owner: caller },
                    next: Pending::CallerBalance {
                        caller,
                        program: program_id,
                        ledger: self.state.vft_contract_id.unwrap(),
                        varas: amount_of_tokens / self.state.tokens_per_vara,
                        tokens: ((amount_of_tokens / self.state.tokens_per_vara)
                            * self.state.tokens_per_vara) as u128,
                    },
                }),
            r is Call ==> {
                &&& r->next.wf()
                &&& r->next->CallerBalance_tokens <= amount_of_tokens
                &&& r->next->CallerBalance_tokens % self.state.tokens_per_vara == 0
                &&& r->next->CallerBalance_tokens == r->next->CallerBalance_varas * self.state.tokens_per_vara
            },
    {
        let rate = self.state.tokens_per_vara;
        if amount_of_tokens < rate {
            return Step::Done {
                event: VFTManagerEvents::Error(
                    VFTManagerErrors::CantSwapTokensWithAmount { min_amount: rate, actual_amount: amount_of_tokens },
                ),
                payment: None,
            };
        }
        if rate == 0 {
            return Step::Done {
                event: VFTManagerEvents::Error(VFTManagerErrors::ErrorInGetNumOfVarasToSwap),
                payment: None,
            };
        }
        let varas = amount_of_tokens / rate;
        proof {
            assert(varas * rate <= amount_of_tokens) by (nonlinear_arith)
                requires varas == amount_of_tokens / rate, rate > 0;
            assert((varas * rate) % (rate as int) == 0) by (nonlinear_arith)
                requires rate > 0;
        }
        let tokens: u128 = varas * rate;
        let ledger = match self.state.vft_contract_id {
            Some(id) => id,
            None => {
                return Step::Done {
                    event: VFTManagerEvents::Error(VFTManagerErrors::VftContractIdNotSet),
                    payment: None,
                };
            },
        };
        Step::Call {
            call: LedgerCall::BalanceOf { ledger, owner: caller },
            next: Pending::CallerBalance { caller, program: program_id, ledger, varas, tokens },
        }
    }

    /// Continues a workflow that waited for `pending` with the ledger's
    /// `reply`. Steps run in a fixed order and nothing done earlier is
    /// undone: burn before mint, mint before the currency payout.
    pub fn resume(pending: Pending, reply: LedgerReply) -> (r: Step)
        requires
            pending.wf(),
        ensures
            r is Call ==> r->next.wf(),
            // currency to tokens: the contract's token balance
            pending is ContractSupply ==> match reply {
                LedgerReply::Balance(supply) => if supply.value() < pending->ContractSupply_tokens {
                    r == (Step::Done {
                        event: VFTManagerEvents::RefundOfVaras(pending->ContractSupply_varas),
                        payment: Some(Payment {
                            to: pending->ContractSupply_caller,
                            value: (pending->ContractSupply_varas * ONE_TVARA) as u128,
                        }),
                    })
                } else {
                    r == (Step::Call {
                        call: LedgerCall::Transfer {
                            ledger: pending->ContractSupply_ledger,
                            to: pending->ContractSupply_caller,
                            amount: U256 { hi: 0, lo: pending->ContractSupply_tokens },
                        },
                        next: Pending::TransferToCaller {
                            varas: pending->ContractSupply_varas,
                            tokens: pending->ContractSupply_tokens,
                        },
                    })
                },
                _ => r == fail(VFTManagerErrors::ErrorInVFTContract),
            },
            // currency to tokens: the transfer to the caller
            pending is TransferToCaller ==> match spec_status_outcome(reply) {
                Ok(_) => r == finish(VFTManagerEvents::TokensSwapSuccessfully {
                    total_tokens: pending->TransferToCaller_tokens,
                    total_varas: pending->TransferToCaller_varas,
                }),
                Err(e) => r == fail(e),
            },
            // tokens to currency: the caller's token balance
            pending is CallerBalance ==> match reply {
                LedgerReply::Balance(held) => if held.value() < pending->CallerBalance_tokens {
                    r == fail(VFTManagerErrors::CantSwapUserTokens {
                        user_tokens: held,
                        tokens_to_swap: U256 { hi: 0, lo: pending->CallerBalance_tokens },
                    })
                } else {
                    r == (Step::Call {
                        call: LedgerCall::Burn {
                            ledger: pending->CallerBalance_ledger,
                            from: pending->CallerBalance_caller,
                            amount: U256 { hi: 0, lo: pending->CallerBalance_tokens },
                        },
                        next: Pending::BurnFromCaller {
                            caller: pending->CallerBalance_caller,
                            program: pending->CallerBalance_program,
                            ledger: pending->CallerBalance_ledger,
                            varas: pending->CallerBalance_varas,
                            tokens: pending->CallerBalance_tokens,
                        },
                    })
                },
                _ => r == fail(VFTManagerErrors::ErrorInVFTContract),
            },
            // tokens to currency: the burn from the caller
            pending is BurnFromCaller ==> match spec_status_outcome(reply) {
                Ok(_) => r == (Step::Call {
                    call: LedgerCall::Mint {
                        ledger: pending->BurnFromCaller_ledger,
                        to: pending->BurnFromCaller_program,
                        amount: U256 { hi: 0, lo: pending->BurnFromCaller_tokens },
                    },
                    next: Pending::MintAfterBurn {
                        caller: pending->BurnFromCaller_caller,
                        varas: pending->BurnFromCaller_varas,
                        tokens: pending->BurnFromCaller_tokens,
                    },
                }),
                Err(e) => r == fail(e),
            },
            // tokens to currency: the mint to the contract, then the payout
            pending is MintAfterBurn ==> match spec_status_outcome(reply) {
                Ok(_) => r == (Step::Done {
                    event: VFTManagerEvents::TokensSwapSuccessfully {
                        total_tokens: pending->MintAfterBurn_tokens,
                        total_varas: pending->MintAfterBurn_varas,
                    },
                    payment: Some(Payment {
                        to: pending->MintAfterBurn_caller,
                        value: (pending->MintAfterBurn_varas * ONE_TVARA) as u128,
                    }),
                }),
                Err(e) => r == fail(e),
            },
            // treasury funding: the mint to the contract
            pending is MintToContract ==> match spec_status_outcome(reply) {
                Ok(_) => r == finish(VFTManagerEvents::TokensAdded),
                Err(e) => r == fail(e),
            },
    {
        match pending {
            Pending::ContractSupply { caller, value: _, ledger, varas, tokens } => {
                let supply = match reply {
                    LedgerReply::Balance(b) => b,
                    _ => {
                        return Step::Done {
                            event: VFTManagerEvents::Error(VFTManagerErrors::ErrorInVFTContract),
                            payment: None,
                        };
                    },
                };
                if supply.lt_u128(tokens) {
                    return Step::Done {
                        event: VFTManagerEvents::RefundOfVaras(varas),
                        payment: Some(Payment { to: caller, value: varas * ONE_TVARA }),
                    };
                }
                Step::Call {
                    call: LedgerCall::Transfer { ledger, to: caller, amount: U256::from_u128(tokens) },
                    next: Pending::TransferToCaller { varas, tokens },
                }
            },
            Pending::TransferToCaller { varas, tokens } => match status_outcome(reply) {
                Ok(()) => Step::Done {
                    event: VFTManagerEvents::TokensSwapSuccessfully { total_tokens: tokens, total_varas: varas },
                    payment: None,
                },
                Err(e) => Step::Done { event: VFTManagerEvents::Error(e), payment: None },
            },
            Pending::CallerBalance { caller, program, ledger, varas, tokens } => {
                let held = match reply {
                    LedgerReply::Balance(b) => b,
                    _ => {
                        return Step::Done {
                            event: VFTManagerEvents::Error(VFTManagerErrors::ErrorInVFTContract),
                            payment: None,
                        };
                    },
                };
                let to_swap = U256::from_u128(tokens);
                if held.lt_u128(tokens) {
                    return Step::Done {
                        event: VFTManagerEvents::Error(
                            VFTManagerErrors::CantSwapUserTokens { user_tokens: held, tokens_to_swap: to_swap },
                        ),
                        payment: None,
                    };
                }
                Step::Call {
                    call: LedgerCall::Burn { ledger, from: caller, amount: to_swap },
                    next: Pending::BurnFromCaller { caller, program, ledger, varas, tokens },
                }
            },
            Pending::BurnFromCaller { caller, program, ledger, varas, tokens } => match status_outcome(reply) {
                Ok(()) => Step::Call {
                    call: Self::add_num_of_tokens_to_contract(tokens, ledger, program),
                    next: Pending::MintAfterBurn { caller, varas, tokens },
                },
                Err(e) => Step::Done { event: VFTManagerEvents::Error(e), payment: None },
            },
            Pending::MintAfterBurn { caller, varas, tokens } => match status_outcome(reply) {
                Ok(()) => Step::Done {
                    event: VFTManagerEvents::TokensSwapSuccessfully { total_tokens: tokens, total_varas: varas },
                    payment: Some(Payment { to: caller, value: varas * ONE_TVARA }),
                },
                Err(e) => Step::Done { event: VFTManagerEvents::Error(e), payment: None },
            },
            Pending::MintToContract => match status_outcome(reply) {
                Ok(()) => Step::Done { event: VFTManagerEvents::TokensAdded, payment: None },
                Err(e) => Step::Done { event: VFTManagerEvents::Error(e), payment: None },
            },
        }
    }

    /// Whole currency units held by the contract, given the subunits it holds.
    pub fn contract_total_varas_stored(&self, value_available: u128) -> (r: VFTManagerQueryEvents)
        ensures
            r == VFTManagerQueryEvents::ContractBalanceInVaras(value_available / ONE_TVARA),
    {
        VFTManagerQueryEvents::ContractBalanceInVaras(value_available / ONE_TVARA)
    }

    /// The ledger call that asks for the contract's own token balance, or
    /// the error when no ledger is configured. Its reply is read by
    /// `total_tokens_to_swap_reply` or `total_tokens_to_swap_as_u128_reply`.
    pub fn total_tokens_to_swap(&self, program_id: ActorId) -> (r: Result<LedgerCall, VFTManagerQueryEvents>)
        ensures
            self.state.vft_contract_id.is_none() ==> r == Err::<LedgerCall, _>(
                VFTManagerQueryEvents::Error(VFTManagerErrors::VftContractIdNotSet),
            ),
            self.state.vft_contract_id.is_some() ==> r == Ok::<_, VFTManagerQueryEvents>(
                LedgerCall::BalanceOf { ledger: self.state.vft_contract_id.unwrap(), owner: program_id },
            ),
    {
        match self.state.vft_contract_id {
            Some(ledger) => Ok(LedgerCall::BalanceOf { ledger, owner: program_id }),
            None => Err(VFTManagerQueryEvents::Error(VFTManagerErrors::VftContractIdNotSet)),
        }
    }

    /// The same ledger call as `total_tokens_to_swap`.
    pub fn total_tokens_to_swap_as_u128(&self, program_id: ActorId) -> (r: Result<LedgerCall, VFTManagerQueryEvents>)
        ensures
            r == self.total_tokens_to_swap_spec(program_id),
    {
        self.total_tokens_to_swap(program_id)
    }

    pub open spec fn total_tokens_to_swap_spec(&self, program_id: ActorId) -> Result<LedgerCall, VFTManagerQueryEvents> {
        match self.state.vft_contract_id {
            Some(ledger) => Ok(LedgerCall::BalanceOf { ledger, owner: program_id }),
            None => Err(VFTManagerQueryEvents::Error(VFTManagerErrors::VftContractIdNotSet)),
        }
    }

    /// The contract's token balance, from the reply to its balance query.
    pub fn total_tokens_to_swap_reply(reply: LedgerReply) -> (r: VFTManagerQueryEvents)
        ensures
            reply is Balance ==> r == VFTManagerQueryEvents::TotalTokensToSwap(reply->Balance_0),
            !(reply is Balance) ==> r == VFTManagerQueryEvents::Error(VFTManagerErrors::ErrorInVFTContract),
    {
        match reply {
            LedgerReply::Balance(b) => VFTManagerQueryEvents::TotalTokensToSwap(b),
            _ => VFTManagerQueryEvents::Error(VFTManagerErrors::ErrorInVFTContract),
        }
    }

    /// The contract's token balance as `u128`, from the reply to its balance
    /// query: exact where it fits, its low 128 bits where it does not.
    pub fn total_tokens_to_swap_as_u128_reply(reply: LedgerReply) -> (r: VFTManagerQueryEvents)
        ensures
            reply is Balance ==> r == VFTManagerQueryEvents::TotalTokensToSwapAsU128(
                (reply->Balance_0.value() % crate::types::pow128()) as u128,
            ),
            reply is Balance && reply->Balance_0.value() <= u128::MAX ==> r
                == VFTManagerQueryEvents::TotalTokensToSwapAsU128(reply->Balance_0.value() as u128),
            !(reply is Balance) ==> r == VFTManagerQueryEvents::Error(VFTManagerErrors::ErrorInVFTContract),
    {
        match reply {
            LedgerReply::Balance(b) => VFTManagerQueryEvents::TotalTokensToSwapAsU128(b.as_u128()),
            _ => VFTManagerQueryEvents::Error(VFTManagerErrors::ErrorInVFTContract),
        }
    }

    /// The configured exchange rate.
    pub fn tokens_to_swap_one_vara(&self) -> (r: VFTManagerQueryEvents)
        ensures
            r == VFTManagerQueryEvents::TokensToSwapOneVara(self.state.tokens_per_vara),
    {
        VFTManagerQueryEvents::TokensToSwapOneVara(self.state.tokens_per_vara)
    }
}

} // verus!
