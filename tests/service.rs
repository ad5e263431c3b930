use vft_manager::events::{VFTManagerErrors, VFTManagerEvents, VFTManagerQueryEvents};
use vft_manager::ledger::{status_outcome, LedgerCall, LedgerReply, Payment, Pending, Step};
use vft_manager::service::VFTManagerService;
use vft_manager::state::VFTManagerState;
use vft_manager::types::{ActorId, ONE_TVARA, U256};

fn id(n: u128) -> ActorId {
    ActorId::new(0, n)
}

const ADMIN: u128 = 1;
const USER: u128 = 2;
const LEDGER: u128 = 3;
const PROGRAM: u128 = 4;

fn configured(rate: u128) -> VFTManagerService {
    VFTManagerService::seed(id(ADMIN), Some(id(LEDGER)), 10, 0, rate)
}

fn expect_call(step: Step) -> (LedgerCall, Pending) {
    match step {
        Step::Call { call, next } => (call, next),
        other => panic!("expected a ledger call, got {:?}", other),
    }
}

fn err(e: VFTManagerErrors) -> Step {
    Step::Done { event: VFTManagerEvents::Error(e), payment: None }
}

#[test]
fn varas_to_tokens_succeeds_with_enough_supply() {
    let svc = configured(100);
    let (call, next) = expect_call(svc.swap_tokens_by_num_of_varas(id(USER), id(PROGRAM), 3 * ONE_TVARA));
    assert_eq!(call, LedgerCall::BalanceOf { ledger: id(LEDGER), owner: id(PROGRAM) });
    let (call, next) = expect_call(VFTManagerService::resume(next, LedgerReply::Balance(U256::from_u128(300))));
    assert_eq!(call, LedgerCall::Transfer { ledger: id(LEDGER), to: id(USER), amount: U256::from_u128(300) });
    let done = VFTManagerService::resume(next, LedgerReply::Status(true));
    assert_eq!(
        done,
        Step::Done {
            event: VFTManagerEvents::TokensSwapSuccessfully { total_tokens: 300, total_varas: 3 },
            payment: None,
        }
    );
}

#[test]
fn varas_to_tokens_refunds_on_short_supply() {
    let svc = configured(100);
    let (_, next) = expect_call(svc.swap_tokens_by_num_of_varas(id(USER), id(PROGRAM), 3 * ONE_TVARA));
    let done = VFTManagerService::resume(next, LedgerReply::Balance(U256::from_u128(250)));
    // no further ledger call: the contract's balance is left as it was
    assert_eq!(
        done,
        Step::Done {
            event: VFTManagerEvents::RefundOfVaras(3),
            payment: Some(Payment { to: id(USER), value: 3 * ONE_TVARA }),
        }
    );
}

#[test]
fn varas_to_tokens_keeps_remainder() {
    let svc = configured(100);
    let value = 3 * ONE_TVARA + 999;
    let (_, next) = expect_call(svc.swap_tokens_by_num_of_varas(id(USER), id(PROGRAM), value));
    assert_eq!(
        next,
        Pending::ContractSupply { caller: id(USER), value, ledger: id(LEDGER), varas: 3, tokens: 300 }
    );
    let refund = VFTManagerService::resume(next, LedgerReply::Balance(U256::from_u128(0)));
    assert_eq!(
        refund,
        Step::Done {
            event: VFTManagerEvents::RefundOfVaras(3),
            payment: Some(Payment { to: id(USER), value: 3 * ONE_TVARA }),
        }
    );
}

#[test]
fn varas_to_tokens_large_supply_is_enough() {
    let svc = configured(100);
    let (_, next) = expect_call(svc.swap_tokens_by_num_of_varas(id(USER), id(PROGRAM), 3 * ONE_TVARA));
    let (call, _) = expect_call(VFTManagerService::resume(next, LedgerReply::Balance(U256 { hi: 1, lo: 0 })));
    assert!(matches!(call, LedgerCall::Transfer { .. }));
}

#[test]
fn varas_to_tokens_rejects_zero_value() {
    let svc = configured(100);
    assert_eq!(
        svc.swap_tokens_by_num_of_varas(id(USER), id(PROGRAM), 0),
        err(VFTManagerErrors::CantSwapTokensWithAmount { min_amount: 1, actual_amount: 0 })
    );
}

#[test]
fn varas_to_tokens_needs_ledger() {
    let svc = VFTManagerService::new(id(ADMIN));
    assert_eq!(
        svc.swap_tokens_by_num_of_varas(id(USER), id(PROGRAM), ONE_TVARA),
        err(VFTManagerErrors::VftContractIdNotSet)
    );
}

#[test]
fn varas_to_tokens_transfer_failures() {
    let svc = configured(100);
    let (_, next) = expect_call(svc.swap_tokens_by_num_of_varas(id(USER), id(PROGRAM), ONE_TVARA));
    let (_, next) = expect_call(VFTManagerService::resume(next, LedgerReply::Balance(U256::from_u128(1000))));
    assert_eq!(
        VFTManagerService::resume(next, LedgerReply::Status(false)),
        err(VFTManagerErrors::OperationWasNotPerformed)
    );
    assert_eq!(VFTManagerService::resume(next, LedgerReply::Failed), err(VFTManagerErrors::ErrorInVFTContract));
}

#[test]
fn varas_to_tokens_balance_query_failure() {
    let svc = configured(100);
    let (_, next) = expect_call(svc.swap_tokens_by_num_of_varas(id(USER), id(PROGRAM), ONE_TVARA));
    assert_eq!(VFTManagerService::resume(next, LedgerReply::Failed), err(VFTManagerErrors::ErrorInVFTContract));
}

#[test]
fn tokens_to_varas_truncates_extra_tokens() {
    let svc = configured(100);
    let (call, next) = expect_call(svc.swap_tokens_to_varas(id(USER), id(PROGRAM), 250));
    assert_eq!(call, LedgerCall::BalanceOf { ledger: id(LEDGER), owner: id(USER) });
    let (call, next) = expect_call(VFTManagerService::resume(next, LedgerReply::Balance(U256::from_u128(250))));
    assert_eq!(call, LedgerCall::Burn { ledger: id(LEDGER), from: id(USER), amount: U256::from_u128(200) });
    let (call, next) = expect_call(VFTManagerService::resume(next, LedgerReply::Status(true)));
    assert_eq!(call, LedgerCall::Mint { ledger: id(LEDGER), to: id(PROGRAM), amount: U256::from_u128(200) });
    assert_eq!(
        VFTManagerService::resume(next, LedgerReply::Status(true)),
        Step::Done {
            event: VFTManagerEvents::TokensSwapSuccessfully { total_tokens: 200, total_varas: 2 },
            payment: Some(Payment { to: id(USER), value: 2 * ONE_TVARA }),
        }
    );
}

#[test]
fn tokens_to_varas_rejects_below_rate() {
    let svc = configured(100);
    assert_eq!(
        svc.swap_tokens_to_varas(id(USER), id(PROGRAM), 99),
        err(VFTManagerErrors::CantSwapTokensWithAmount { min_amount: 100, actual_amount: 99 })
    );
}

#[test]
fn tokens_to_varas_zero_rate_is_configuration_error() {
    let svc = configured(0);
    assert_eq!(
        svc.swap_tokens_to_varas(id(USER), id(PROGRAM), 5),
        err(VFTManagerErrors::ErrorInGetNumOfVarasToSwap)
    );
}

#[test]
fn tokens_to_varas_needs_ledger() {
    let svc = VFTManagerService::seed(id(ADMIN), None, 0, 0, 100);
    assert_eq!(svc.swap_tokens_to_varas(id(USER), id(PROGRAM), 100), err(VFTManagerErrors::VftContractIdNotSet));
}

#[test]
fn tokens_to_varas_caller_balance_too_low() {
    let svc = configured(100);
    let (_, next) = expect_call(svc.swap_tokens_to_varas(id(USER), id(PROGRAM), 250));
    assert_eq!(
        VFTManagerService::resume(next, LedgerReply::Balance(U256::from_u128(150))),
        err(VFTManagerErrors::CantSwapUserTokens {
            user_tokens: U256::from_u128(150),
            tokens_to_swap: U256::from_u128(200),
        })
    );
}

#[test]
fn tokens_to_varas_burn_and_mint_failures() {
    let svc = configured(100);
    let (_, next) = expect_call(svc.swap_tokens_to_varas(id(USER), id(PROGRAM), 100));
    let (_, burn) = expect_call(VFTManagerService::resume(next, LedgerReply::Balance(U256::from_u128(100))));
    assert_eq!(VFTManagerService::resume(burn, LedgerReply::Status(false)), err(VFTManagerErrors::OperationWasNotPerformed));
    assert_eq!(VFTManagerService::resume(burn, LedgerReply::Failed), err(VFTManagerErrors::ErrorInVFTContract));
    let (_, mint) = expect_call(VFTManagerService::resume(burn, LedgerReply::Status(true)));
    assert_eq!(VFTManagerService::resume(mint, LedgerReply::Status(false)), err(VFTManagerErrors::OperationWasNotPerformed));
    assert_eq!(VFTManagerService::resume(mint, LedgerReply::Failed), err(VFTManagerErrors::ErrorInVFTContract));
}

#[test]
fn status_replies_map_to_outcomes() {
    assert_eq!(status_outcome(LedgerReply::Status(true)), Ok(()));
    assert_eq!(status_outcome(LedgerReply::Status(false)), Err(VFTManagerErrors::OperationWasNotPerformed));
    assert_eq!(status_outcome(LedgerReply::Failed), Err(VFTManagerErrors::ErrorInVFTContract));
}

#[test]
fn add_tokens_checks_in_order() {
    let mut svc = VFTManagerService::new(id(ADMIN));
    assert_eq!(svc.add_tokens_to_contract(id(USER), id(PROGRAM), 50), err(VFTManagerErrors::OnlyAdminsCanDoThatAction));
    assert_eq!(svc.add_tokens_to_contract(id(ADMIN), id(PROGRAM), 50), err(VFTManagerErrors::VftContractIdNotSet));
    svc.set_vft_contract_id(id(ADMIN), id(LEDGER));
    svc.set_min_tokens_to_add(id(ADMIN), 60);
    assert_eq!(svc.add_tokens_to_contract(id(ADMIN), id(PROGRAM), 50), err(VFTManagerErrors::MinTokensToAdd(60)));
    let (call, next) = expect_call(svc.add_tokens_to_contract(id(ADMIN), id(PROGRAM), 60));
    assert_eq!(call, LedgerCall::Mint { ledger: id(LEDGER), to: id(PROGRAM), amount: U256::from_u128(60) });
    assert_eq!(
        VFTManagerService::resume(next, LedgerReply::Status(true)),
        Step::Done { event: VFTManagerEvents::TokensAdded, payment: None }
    );
    assert_eq!(VFTManagerService::resume(next, LedgerReply::Status(false)), err(VFTManagerErrors::OperationWasNotPerformed));
    assert_eq!(VFTManagerService::resume(next, LedgerReply::Failed), err(VFTManagerErrors::ErrorInVFTContract));
}

fn same_state(a: &VFTManagerState, b: &VFTManagerState) -> bool {
    a.admins == b.admins
        && a.vft_contract_id == b.vft_contract_id
        && a.min_tokens_to_add == b.min_tokens_to_add
        && a.max_tokens_to_burn == b.max_tokens_to_burn
        && a.tokens_per_vara == b.tokens_per_vara
}

#[test]
fn non_admin_changes_nothing() {
    let mut svc = configured(100);
    let before = configured(100);
    let denied = VFTManagerEvents::Error(VFTManagerErrors::OnlyAdminsCanDoThatAction);
    assert_eq!(svc.add_admin(id(USER), id(USER)), denied);
    assert_eq!(svc.set_vft_contract_id(id(USER), id(9)), denied);
    assert_eq!(svc.set_min_tokens_to_add(id(USER), 1), denied);
    assert_eq!(svc.set_tokens_per_vara(id(USER), 1), denied);
    assert_eq!(svc.add_tokens_to_contract(id(USER), id(PROGRAM), 1000), err(VFTManagerErrors::OnlyAdminsCanDoThatAction));
    assert!(same_state(&svc.state, &before.state));
}

#[test]
fn admin_sets_configuration() {
    let mut svc = VFTManagerService::new(id(ADMIN));
    assert_eq!(svc.set_vft_contract_id(id(ADMIN), id(LEDGER)), VFTManagerEvents::VFTContractIdSet);
    assert_eq!(svc.set_min_tokens_to_add(id(ADMIN), 7), VFTManagerEvents::MinTokensToAddSet);
    assert_eq!(svc.set_tokens_per_vara(id(ADMIN), 100), VFTManagerEvents::SetTokensPerVaras);
    assert_eq!(svc.state.vft_contract_id, Some(id(LEDGER)));
    assert_eq!(svc.state.min_tokens_to_add, 7);
    assert_eq!(svc.state.tokens_per_vara, 100);
    assert_eq!(svc.tokens_to_swap_one_vara(), VFTManagerQueryEvents::TokensToSwapOneVara(100));
}

#[test]
fn added_admin_can_act_and_first_admin_keeps_rights() {
    let mut svc = VFTManagerService::new(id(ADMIN));
    assert_eq!(svc.add_admin(id(ADMIN), id(USER)), VFTManagerEvents::NewAdminAdded(id(USER)));
    assert!(svc.state.is_admin(&id(USER)));
    assert!(svc.state.is_admin(&id(ADMIN)));
    assert_eq!(svc.set_tokens_per_vara(id(USER), 5), VFTManagerEvents::SetTokensPerVaras);
    assert_eq!(svc.set_tokens_per_vara(id(ADMIN), 6), VFTManagerEvents::SetTokensPerVaras);
    assert_eq!(svc.state.admins, vec![id(ADMIN), id(USER)]);
}

#[test]
fn duplicate_admins_are_kept() {
    let mut state = VFTManagerState::new(id(ADMIN));
    state.admins.push(id(ADMIN));
    assert_eq!(state.admins.len(), 2);
    assert!(state.is_admin(&id(ADMIN)));
    assert!(!state.is_admin(&id(USER)));
}

#[test]
fn queries() {
    let svc = configured(100);
    assert_eq!(
        svc.contract_total_varas_stored(5 * ONE_TVARA + 1),
        VFTManagerQueryEvents::ContractBalanceInVaras(5)
    );
    let call = LedgerCall::BalanceOf { ledger: id(LEDGER), owner: id(PROGRAM) };
    assert_eq!(svc.total_tokens_to_swap(id(PROGRAM)), Ok(call));
    assert_eq!(svc.total_tokens_to_swap_as_u128(id(PROGRAM)), Ok(call));
    let unset = VFTManagerService::new(id(ADMIN));
    let not_set = VFTManagerQueryEvents::Error(VFTManagerErrors::VftContractIdNotSet);
    assert_eq!(unset.total_tokens_to_swap(id(PROGRAM)), Err(not_set));
    assert_eq!(unset.total_tokens_to_swap_as_u128(id(PROGRAM)), Err(not_set));
    let big = U256 { hi: 1, lo: 42 };
    assert_eq!(
        VFTManagerService::total_tokens_to_swap_reply(LedgerReply::Balance(big)),
        VFTManagerQueryEvents::TotalTokensToSwap(big)
    );
    assert_eq!(
        VFTManagerService::total_tokens_to_swap_as_u128_reply(LedgerReply::Balance(U256::from_u128(77))),
        VFTManagerQueryEvents::TotalTokensToSwapAsU128(77)
    );
    assert_eq!(
        VFTManagerService::total_tokens_to_swap_as_u128_reply(LedgerReply::Balance(big)),
        VFTManagerQueryEvents::TotalTokensToSwapAsU128(42)
    );
    assert_eq!(
        VFTManagerService::total_tokens_to_swap_reply(LedgerReply::Failed),
        VFTManagerQueryEvents::Error(VFTManagerErrors::ErrorInVFTContract)
    );
}

#[test]
fn u256_compares_as_numbers() {
    assert!(U256::from_u128(5).lt_u128(6));
    assert!(!U256::from_u128(6).lt_u128(6));
    assert!(!U256 { hi: 1, lo: 0 }.lt_u128(u128::MAX));
    assert_eq!(U256 { hi: 3, lo: 9 }.as_u128(), 9);
}
