use qtum_faucet::contract::claim;
use qtum_faucet::contract::claim_inj;
use qtum_faucet::contract::claim_qtum;
use qtum_faucet::contract::execute;
use qtum_faucet::contract::instantiate;
use qtum_faucet::contract::query;
use qtum_faucet::contract::query_config;
use qtum_faucet::contract::query_staker_info;
use qtum_faucet::contract::query_state;
use qtum_faucet::contract::update_config;
use qtum_faucet::error::ContractError;
use qtum_faucet::msg::ExecuteMsg;
use qtum_faucet::msg::InstantiateMsg;
use qtum_faucet::msg::QueryMsg;
use qtum_faucet::msg::QueryResponse;
use qtum_faucet::msg::TesterInfoResponse;
use qtum_faucet::msg::TransferInstruction;
use qtum_faucet::state::remove_test_user;
use qtum_faucet::state::store_test_user;
use qtum_faucet::state::tester_info;
use qtum_faucet::state::AssetKind;
use qtum_faucet::state::Config;
use qtum_faucet::state::Ledger;
use qtum_faucet::state::State;
use qtum_faucet::state::TesterInfo;

const DAY: u64 = 86400;

fn setup(max_qtum: u128, max_inj: u128) -> (Config, State, Ledger) {
    let owner = String::from("owner");
    let msg = InstantiateMsg {
        qtum_addr: String::from("qtum_token"),
        max_withdraw_qtum: max_qtum,
        max_withdraw_inj: max_inj,
    };
    let (config, state) = instantiate(&owner, msg);
    (config, state, Ledger::new())
}

#[test]
fn instantiate_sets_owner_and_zero_counters() {
    let (config, state, _) = setup(100, 50);
    assert_eq!(config.owner, "owner");
    assert_eq!(config.qtum_addr, "qtum_token");
    assert_eq!(config.max_withdraw_qtum, 100);
    assert_eq!(config.max_withdraw_inj, 50);
    assert_eq!(state.total_testers, 0);
    assert_eq!(state.total_qtum_claimed, 0);
    assert_eq!(state.total_inj_claimed, 0);
}

#[test]
fn unknown_identity_reads_all_zero() {
    let (_, _, ledger) = setup(100, 50);
    let nobody = String::from("nobody");
    let info = tester_info(&ledger, &nobody);
    assert_eq!(info.claimed_qutm_amount, 0);
    assert_eq!(info.claimed_inj_amount, 0);
    assert_eq!(info.last_qtum_claimed, 0);
    assert_eq!(info.last_inj_claimed, 0);
    let resp = query_staker_info(&ledger, &nobody);
    assert_eq!(
        resp,
        TesterInfoResponse {
            claimed_qutm_amount: 0,
            claimed_inj_amount: 0,
            last_qtum_claimed: 0,
            last_inj_claimed: 0,
        }
    );
}

#[test]
fn claim_scenario_at_the_cooldown_boundary() {
    let (config, mut state, mut ledger) = setup(100, 50);
    let x = String::from("caller_x");

    // The earliest time a never-seen identity passes the cooldown check is
    // one full window after the zero timestamp its fresh record carries.
    let r = claim_qtum(&config, &mut ledger, &mut state, &x, 100, DAY);
    assert!(r.is_ok());
    let info = tester_info(&ledger, &x);
    assert_eq!(info.last_qtum_claimed, DAY);
    assert_eq!(info.claimed_qutm_amount, 100);

    // 86399 seconds after the last successful claim: still cooling down.
    let r = claim_qtum(&config, &mut ledger, &mut state, &x, 1, DAY + 86399);
    assert_eq!(r.unwrap_err(), ContractError::CooldownActive);

    // Exactly 86400 seconds after: allowed again.
    let r = claim_qtum(&config, &mut ledger, &mut state, &x, 1, DAY + 86400);
    assert!(r.is_ok());
    let info = tester_info(&ledger, &x);
    assert_eq!(info.last_qtum_claimed, DAY + 86400);
    assert_eq!(info.claimed_qutm_amount, 101);
}

#[test]
fn fresh_identity_fails_before_one_window() {
    let (config, mut state, mut ledger) = setup(100, 50);
    let x = String::from("caller_x");
    let r = claim_qtum(&config, &mut ledger, &mut state, &x, 10, DAY - 1);
    assert_eq!(r.unwrap_err(), ContractError::CooldownActive);
    let info = tester_info(&ledger, &x);
    assert_eq!(info.claimed_qutm_amount, 0);
    assert_eq!(info.last_qtum_claimed, 0);
    assert_eq!(state.total_qtum_claimed, 0);
}

#[test]
fn failed_claim_changes_nothing() {
    let (config, mut state, mut ledger) = setup(100, 50);
    let x = String::from("caller_x");
    claim_qtum(&config, &mut ledger, &mut state, &x, 40, DAY).unwrap();

    let before_info = query_staker_info(&ledger, &x);
    let before_state = query_state(&state);

    // Cooldown failure.
    let r = claim_qtum(&config, &mut ledger, &mut state, &x, 1, DAY + 10);
    assert_eq!(r.unwrap_err(), ContractError::CooldownActive);
    assert_eq!(query_staker_info(&ledger, &x), before_info);
    assert_eq!(query_state(&state), before_state);

    // Amount failure.
    let r = claim_qtum(&config, &mut ledger, &mut state, &x, 101, 2 * DAY);
    assert_eq!(r.unwrap_err(), ContractError::AmountExceedsMax);
    assert_eq!(query_staker_info(&ledger, &x), before_info);
    assert_eq!(query_state(&state), before_state);
}

#[test]
fn successful_claim_updates_only_its_kind() {
    let (config, mut state, mut ledger) = setup(100, 50);
    let x = String::from("caller_x");

    claim_qtum(&config, &mut ledger, &mut state, &x, 70, DAY).unwrap();
    let info = tester_info(&ledger, &x);
    assert_eq!(info.claimed_qutm_amount, 70);
    assert_eq!(info.last_qtum_claimed, DAY);
    assert_eq!(info.claimed_inj_amount, 0);
    assert_eq!(info.last_inj_claimed, 0);
    assert_eq!(state.total_qtum_claimed, 70);
    assert_eq!(state.total_inj_claimed, 0);

    claim_inj(&config, &mut ledger, &mut state, &x, 30, DAY + 5).unwrap();
    let info = tester_info(&ledger, &x);
    assert_eq!(info.claimed_qutm_amount, 70);
    assert_eq!(info.last_qtum_claimed, DAY);
    assert_eq!(info.claimed_inj_amount, 30);
    assert_eq!(info.last_inj_claimed, DAY + 5);
    assert_eq!(state.total_qtum_claimed, 70);
    assert_eq!(state.total_inj_claimed, 30);
}

#[test]
fn amount_above_max_is_refused() {
    let (config, mut state, mut ledger) = setup(100, 50);
    let x = String::from("caller_x");
    let r = claim_qtum(&config, &mut ledger, &mut state, &x, 101, DAY);
    assert_eq!(r.unwrap_err(), ContractError::AmountExceedsMax);
    let r = claim_inj(&config, &mut ledger, &mut state, &x, 51, DAY);
    assert_eq!(r.unwrap_err(), ContractError::AmountExceedsMax);
    // The cooldown check runs first: during the cooldown an oversized claim
    // is also refused, with the cooldown error.
    let r = claim_qtum(&config, &mut ledger, &mut state, &x, 101, DAY - 1);
    assert_eq!(r.unwrap_err(), ContractError::CooldownActive);
}

#[test]
fn accounting_overflow_fails_closed() {
    let (config, mut state, mut ledger) = setup(u128::MAX, 50);
    let x = String::from("caller_x");
    claim_qtum(&config, &mut ledger, &mut state, &x, u128::MAX, DAY).unwrap();
    assert_eq!(state.total_qtum_claimed, u128::MAX);

    let before_info = query_staker_info(&ledger, &x);
    let r = claim_qtum(&config, &mut ledger, &mut state, &x, 1, 2 * DAY);
    assert_eq!(r.unwrap_err(), ContractError::Overflow);
    assert_eq!(query_staker_info(&ledger, &x), before_info);
    assert_eq!(state.total_qtum_claimed, u128::MAX);
}

#[test]
fn claim_emits_the_transfer_for_the_host() {
    let (config, mut state, mut ledger) = setup(100, 50);
    let x = String::from("caller_x");

    let r = claim_qtum(&config, &mut ledger, &mut state, &x, 25, DAY).unwrap();
    assert_eq!(
        r,
        TransferInstruction::TokenTransfer {
            contract_addr: String::from("qtum_token"),
            recipient: String::from("caller_x"),
            amount: 25,
        }
    );

    let r = claim_inj(&config, &mut ledger, &mut state, &x, 10, DAY).unwrap();
    assert_eq!(
        r,
        TransferInstruction::NativeSend { recipient: String::from("caller_x"), amount: 10 }
    );
}

#[test]
fn execute_dispatches_by_kind() {
    let (config, mut state, mut ledger) = setup(100, 50);
    let x = String::from("caller_x");

    let r = execute(&config, &mut ledger, &mut state, &x, ExecuteMsg::ClaimQtum { amount: 5 }, DAY);
    assert!(matches!(r, Ok(TransferInstruction::TokenTransfer { .. })));
    let r = execute(&config, &mut ledger, &mut state, &x, ExecuteMsg::ClaimINJ { amount: 5 }, DAY);
    assert!(matches!(r, Ok(TransferInstruction::NativeSend { .. })));
    let info = tester_info(&ledger, &x);
    assert_eq!(info.claimed_qutm_amount, 5);
    assert_eq!(info.claimed_inj_amount, 5);
}

#[test]
fn generic_claim_matches_kind_handlers() {
    let (config, mut state, mut ledger) = setup(100, 50);
    let x = String::from("caller_x");
    let r = claim(&config, &mut ledger, &mut state, &x, AssetKind::Qtum, 7, DAY);
    assert!(matches!(r, Ok(TransferInstruction::TokenTransfer { .. })));
    let r = claim(&config, &mut ledger, &mut state, &x, AssetKind::Inj, 7, DAY);
    assert!(matches!(r, Ok(TransferInstruction::NativeSend { .. })));
}

#[test]
fn update_config_by_stranger_is_refused() {
    let (mut config, _, _) = setup(100, 50);
    let stranger = String::from("stranger");
    let r = update_config(
        &mut config,
        &stranger,
        Config {
            owner: String::from("stranger"),
            qtum_addr: String::from("other_token"),
            max_withdraw_qtum: 1,
            max_withdraw_inj: 1,
        },
    );
    assert_eq!(r.unwrap_err(), ContractError::Unauthorized);
    assert_eq!(config.owner, "owner");
    assert_eq!(config.qtum_addr, "qtum_token");
    assert_eq!(config.max_withdraw_qtum, 100);
    assert_eq!(config.max_withdraw_inj, 50);
}

#[test]
fn update_config_by_owner_replaces_everything() {
    let (mut config, _, _) = setup(100, 50);
    let owner = String::from("owner");
    let r = update_config(
        &mut config,
        &owner,
        Config {
            owner: String::from("new_owner"),
            qtum_addr: String::from("other_token"),
            max_withdraw_qtum: 7,
            max_withdraw_inj: 8,
        },
    );
    assert!(r.is_ok());
    assert_eq!(config.owner, "new_owner");
    assert_eq!(config.qtum_addr, "other_token");
    assert_eq!(config.max_withdraw_qtum, 7);
    assert_eq!(config.max_withdraw_inj, 8);

    // The old owner handed over control and is now refused.
    let r = update_config(
        &mut config,
        &owner,
        Config {
            owner: String::from("owner"),
            qtum_addr: String::from("qtum_token"),
            max_withdraw_qtum: 100,
            max_withdraw_inj: 50,
        },
    );
    assert_eq!(r.unwrap_err(), ContractError::Unauthorized);
}

#[test]
fn queries_report_the_committed_state() {
    let (config, mut state, mut ledger) = setup(100, 50);
    let x = String::from("caller_x");
    claim_qtum(&config, &mut ledger, &mut state, &x, 60, DAY).unwrap();

    let resp = query_config(&config);
    assert_eq!(resp.qtum_addr, "qtum_token");
    assert_eq!(resp.max_withdraw_qtum, 100);
    assert_eq!(resp.max_withdraw_inj, 50);

    match query(&config, &state, &ledger, QueryMsg::Config {}) {
        QueryResponse::Config(c) => assert_eq!(c, resp),
        other => panic!("wrong answer variant: {:?}", other),
    }
    match query(&config, &state, &ledger, QueryMsg::State {}) {
        QueryResponse::State(s) => {
            assert_eq!(s.total_testers, 0);
            assert_eq!(s.total_qtum_claimed, 60);
            assert_eq!(s.total_inj_claimed, 0);
        }
        other => panic!("wrong answer variant: {:?}", other),
    }
    match query(&config, &state, &ledger, QueryMsg::TesterInfo { tester: String::from("caller_x") }) {
        QueryResponse::TesterInfo(t) => {
            assert_eq!(t.claimed_qutm_amount, 60);
            assert_eq!(t.last_qtum_claimed, DAY);
            assert_eq!(t.claimed_inj_amount, 0);
            assert_eq!(t.last_inj_claimed, 0);
        }
        other => panic!("wrong answer variant: {:?}", other),
    }
}

#[test]
fn store_and_remove_user_round_trip() {
    let (_, _, mut ledger) = setup(100, 50);
    let x = String::from("caller_x");
    let y = String::from("caller_y");

    let record = TesterInfo {
        claimed_qutm_amount: 11,
        claimed_inj_amount: 22,
        last_qtum_claimed: 33,
        last_inj_claimed: 44,
    };
    store_test_user(&mut ledger, &x, &record);
    assert_eq!(tester_info(&ledger, &x), record);
    // Other identities are untouched.
    assert_eq!(tester_info(&ledger, &y).claimed_qutm_amount, 0);

    // Storing again overwrites rather than duplicates.
    let record2 = TesterInfo { claimed_qutm_amount: 99, ..record };
    store_test_user(&mut ledger, &x, &record2);
    assert_eq!(tester_info(&ledger, &x), record2);

    remove_test_user(&mut ledger, &x);
    assert_eq!(tester_info(&ledger, &x), TesterInfo {
        claimed_qutm_amount: 0,
        claimed_inj_amount: 0,
        last_qtum_claimed: 0,
        last_inj_claimed: 0,
    });
    // Removing an absent identity is harmless.
    remove_test_user(&mut ledger, &y);
}

#[test]
fn claims_of_different_identities_are_independent() {
    let (config, mut state, mut ledger) = setup(100, 50);
    let x = String::from("caller_x");
    let y = String::from("caller_y");

    claim_qtum(&config, &mut ledger, &mut state, &x, 10, DAY).unwrap();
    // A different identity has its own cooldown and passes right away.
    claim_qtum(&config, &mut ledger, &mut state, &y, 20, DAY).unwrap();

    assert_eq!(tester_info(&ledger, &x).claimed_qutm_amount, 10);
    assert_eq!(tester_info(&ledger, &y).claimed_qutm_amount, 20);
    assert_eq!(state.total_qtum_claimed, 30);
}
