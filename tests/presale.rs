use token_governance::address::Address;
use token_governance::presale::{
    allow_payment_token, buy, buy_with_sol, buy_with_sol_at_round, chainlink_program_id, compute_tokens_for_sol,
    disallow_payment_token, initialize, migrate_presale_state, migrate_stored_record, pause_presale, set_governance,
    set_token_price_usd, set_token_program, set_treasury_address, start_presale, stop_presale,
    update_max_per_user, update_presale_cap, update_presale_limits, withdraw_sol_to_treasury,
    withdraw_to_treasury, withdraw_unsold_tokens, BuyAccounts, OracleRound, PresaleError,
    PresaleState, PresaleStatus, SolPurchaseInputs, UserPurchase,
};

fn addr(n: u8) -> Address {
    Address::new([n; 32])
}

const ADMIN: u8 = 1;
const MINT: u8 = 20;
const PAY_MINT: u8 = 21;
const PAY_VAULT_PDA: u8 = 22;
const TOKEN_VAULT_PDA: u8 = 23;

fn token_account(mint: u8, owner: u8, amount: u64) -> Vec<u8> {
    let mut d = vec![mint; 32];
    d.extend_from_slice(&[owner; 32]);
    d.extend_from_slice(&amount.to_le_bytes());
    d
}

fn active_sale() -> PresaleState {
    let mut st = initialize(addr(ADMIN), addr(MINT), addr(30), addr(31), 1000, 255).unwrap();
    start_presale(&mut st, &addr(ADMIN)).unwrap();
    st
}

fn buy_accounts() -> BuyAccounts {
    BuyAccounts {
        token_state: vec![0u8; 42],
        buyer_blacklist_key: Address::zero(),
        buyer_blacklist: vec![],
        payment_token_mint: addr(PAY_MINT),
        buyer_payment_token_account: token_account(PAY_MINT, 5, 1000),
        buyer_token_account: token_account(MINT, 5, 0),
        presale_payment_vault: token_account(PAY_MINT, PAY_VAULT_PDA, 0),
        presale_payment_vault_pda: addr(PAY_VAULT_PDA),
        presale_token_vault: token_account(MINT, TOKEN_VAULT_PDA, 1_000_000),
        presale_token_vault_pda: addr(TOKEN_VAULT_PDA),
    }
}

/// A feed account in the oracle store's layout: tag, header, one transmission.
fn feed_bytes(answer: i128, timestamp: u32, decimals: u8) -> Vec<u8> {
    let mut d = vec![0u8; 248];
    d[0..8].copy_from_slice(&[96, 179, 69, 66, 128, 129, 73, 117]);
    d[8] = 1;
    d[138] = decimals;
    d[143..147].copy_from_slice(&7u32.to_le_bytes());
    d[148..152].copy_from_slice(&1u32.to_le_bytes());
    d[200..208].copy_from_slice(&99u64.to_le_bytes());
    d[208..212].copy_from_slice(&timestamp.to_le_bytes());
    d[216..232].copy_from_slice(&answer.to_le_bytes());
    d
}

fn round(answer: i128, timestamp: u32) -> Option<OracleRound> {
    Some(OracleRound { answer, timestamp, decimals: 8 })
}

fn sol_inputs(answer: i128, timestamp: u32, now: i64) -> SolPurchaseInputs {
    SolPurchaseInputs {
        buyer_lamports: u64::MAX,
        token_state: vec![],
        buyer_blacklist_key: Address::zero(),
        buyer_blacklist: vec![],
        feed_data: feed_bytes(answer, timestamp, 8),
        feed_owner: chainlink_program_id(),
        now,
        presale_token_vault: token_account(MINT, TOKEN_VAULT_PDA, 0),
        presale_token_vault_pda: addr(TOKEN_VAULT_PDA),
    }
}

fn fresh_user() -> UserPurchase {
    UserPurchase { buyer: Address::zero(), total_purchased: 0 }
}

#[test]
fn initialize_checks_inputs() {
    assert!(matches!(initialize(Address::zero(), addr(MINT), addr(30), addr(31), 1000, 0), Err(PresaleError::InvalidAccount)));
    assert!(matches!(initialize(addr(ADMIN), addr(MINT), addr(30), addr(31), 0, 0), Err(PresaleError::InvalidAmount)));
    let st = initialize(addr(ADMIN), addr(MINT), addr(30), addr(31), 1000, 0).unwrap();
    assert_eq!(st.status, PresaleStatus::NotStarted);
    assert!(st.authority == addr(ADMIN));
}

#[test]
fn status_lifecycle() {
    let mut st = initialize(addr(ADMIN), addr(MINT), addr(30), addr(31), 1000, 0).unwrap();
    assert!(matches!(pause_presale(&mut st, &addr(ADMIN)), Err(PresaleError::InvalidStatus)));
    assert!(matches!(start_presale(&mut st, &addr(9)), Err(PresaleError::Unauthorized)));
    assert_eq!(start_presale(&mut st, &addr(ADMIN)).unwrap().previous_status, 0);
    pause_presale(&mut st, &addr(ADMIN)).unwrap();
    assert_eq!(st.status, PresaleStatus::Paused);
    assert_eq!(start_presale(&mut st, &addr(ADMIN)).unwrap().previous_status, 2);
    stop_presale(&mut st, &addr(ADMIN)).unwrap();
    assert_eq!(st.status, PresaleStatus::Stopped);
    assert!(matches!(start_presale(&mut st, &addr(ADMIN)), Err(PresaleError::InvalidStatus)));
    assert!(matches!(update_presale_cap(&mut st, &addr(ADMIN), 10), Err(PresaleError::InvalidStatus)));
}

#[test]
fn governance_hand_over_is_one_time() {
    let mut st = active_sale();
    assert!(matches!(set_governance(&mut st, &addr(9), addr(40)), Err(PresaleError::Unauthorized)));
    assert!(matches!(set_governance(&mut st, &addr(ADMIN), Address::zero()), Err(PresaleError::InvalidAccount)));
    set_governance(&mut st, &addr(ADMIN), addr(40)).unwrap();
    assert!(st.governance_set);
    assert!(st.authority == addr(40));
    assert!(matches!(set_governance(&mut st, &addr(40), addr(41)), Err(PresaleError::InvalidStatus)));
    set_treasury_address(&mut st, &addr(40), addr(60)).unwrap();
    assert!(st.treasury_address == addr(60));
    assert!(matches!(set_treasury_address(&mut st, &addr(ADMIN), addr(61)), Err(PresaleError::Unauthorized)));
    assert!(matches!(set_treasury_address(&mut st, &addr(40), Address::zero()), Err(PresaleError::InvalidTreasuryAddress)));
    set_token_price_usd(&mut st, &addr(40), 2000).unwrap();
    assert_eq!(st.token_price_usd_micro, 2000);
    assert!(matches!(set_token_price_usd(&mut st, &addr(40), 0), Err(PresaleError::InvalidAmount)));
    set_token_program(&mut st, &addr(40), addr(32), addr(33)).unwrap();
    assert!(st.token_program == addr(32));
}

#[test]
fn payment_token_allow_list() {
    let mut a = allow_payment_token(addr(70), addr(PAY_MINT));
    assert!(a.is_allowed);
    disallow_payment_token(&mut a);
    assert!(!a.is_allowed);
    let mut st = active_sale();
    let mut user = fresh_user();
    let r = buy(&mut st, &mut user, &a, &addr(5), 10, &buy_accounts());
    assert!(matches!(r, Err(PresaleError::PaymentTokenNotAllowed)));
}

#[test]
fn scenario_per_user_cap() {
    let mut st = active_sale();
    update_max_per_user(&mut st, &addr(ADMIN), 100).unwrap();
    let allowed = allow_payment_token(addr(70), addr(PAY_MINT));
    let mut user = fresh_user();
    let acc = buy_accounts();
    buy(&mut st, &mut user, &allowed, &addr(5), 60, &acc).unwrap();
    assert_eq!(user.total_purchased, 60);
    assert!(user.buyer == addr(5));
    let r = buy(&mut st, &mut user, &allowed, &addr(5), 50, &acc);
    assert!(matches!(r, Err(PresaleError::PerUserLimitExceeded)));
    assert_eq!(user.total_purchased, 60);
    assert_eq!(st.total_tokens_sold, 60);
    assert_eq!(st.total_raised, 60);
}

#[test]
fn buy_respects_global_cap_and_pause() {
    let mut st = active_sale();
    update_presale_cap(&mut st, &addr(ADMIN), 50).unwrap();
    let allowed = allow_payment_token(addr(70), addr(PAY_MINT));
    let mut user = fresh_user();
    let r = buy(&mut st, &mut user, &allowed, &addr(5), 51, &buy_accounts());
    assert!(matches!(r, Err(PresaleError::PresaleCapExceeded)));
    let mut paused = buy_accounts();
    paused.token_state[41] = 1;
    let r2 = buy(&mut st, &mut user, &allowed, &addr(5), 5, &paused);
    assert!(matches!(r2, Err(PresaleError::TokenEmergencyPaused)));
    let mut blacklisted = buy_accounts();
    blacklisted.buyer_blacklist_key = addr(80);
    blacklisted.buyer_blacklist = vec![0u8; 41];
    blacklisted.buyer_blacklist[40] = 1;
    let r3 = buy(&mut st, &mut user, &allowed, &addr(5), 5, &blacklisted);
    assert!(matches!(r3, Err(PresaleError::BuyerBlacklisted)));
    let mut wrong_vault = buy_accounts();
    wrong_vault.presale_payment_vault = token_account(PAY_MINT, 99, 0);
    let r4 = buy(&mut st, &mut user, &allowed, &addr(5), 5, &wrong_vault);
    assert!(matches!(r4, Err(PresaleError::PaymentTokenNotAllowed)));
    assert_eq!(st.total_tokens_sold, 0);
    buy(&mut st, &mut user, &allowed, &addr(5), 50, &buy_accounts()).unwrap();
    assert_eq!(st.total_tokens_sold, 50);
}

#[test]
fn buy_needs_active_sale() {
    let mut st = initialize(addr(ADMIN), addr(MINT), addr(30), addr(31), 1000, 0).unwrap();
    let allowed = allow_payment_token(addr(70), addr(PAY_MINT));
    let mut user = fresh_user();
    let r = buy(&mut st, &mut user, &allowed, &addr(5), 5, &buy_accounts());
    assert!(matches!(r, Err(PresaleError::PresaleNotActive)));
}

#[test]
fn token_amount_formula() {
    // 1 unit of native currency (10^9 lamports) at $140 (8 decimals), token at $0.001:
    // 140 / 0.001 = 140000 tokens = 140000 * 10^8 base units.
    assert_eq!(compute_tokens_for_sol(1_000_000_000, 140_0000_0000, 1000), Ok(14_000_000_000_000));
    // Rounded down: 1 lamport at $1 with a $1 token is 10^-9 tokens = 0.1 base unit.
    assert_eq!(compute_tokens_for_sol(1, 1_0000_0000, 1_000_000), Ok(0));
    assert_eq!(compute_tokens_for_sol(15, 1_0000_0000, 1_000_000), Ok(1));
}

#[test]
fn token_amount_is_monotonic() {
    let mut last = 0u64;
    for paid in [0u64, 1, 10, 1_000, 123_456_789, 5_000_000_000] {
        let t = compute_tokens_for_sol(paid, 99_0000_0000, 1234).unwrap();
        assert!(t >= last);
        last = t;
    }
    let mut last_p = 0u64;
    for price in [1u128, 10, 1_0000_0000, 500_0000_0000] {
        let t = compute_tokens_for_sol(1_000_000_000, price, 1234).unwrap();
        assert!(t >= last_p);
        last_p = t;
    }
}

#[test]
fn token_amount_rejects_overflow() {
    assert_eq!(compute_tokens_for_sol(u64::MAX, u128::MAX / 2, 1), Err(PresaleError::Overflow));
    assert_eq!(compute_tokens_for_sol(u64::MAX, 1u128 << 64, 1), Err(PresaleError::Overflow));
    assert_eq!(compute_tokens_for_sol(u64::MAX, 1_0000_0000_0000, 1), Err(PresaleError::Overflow));
}

#[test]
fn buy_with_sol_records_purchase() {
    let mut st = active_sale();
    let mut user = fresh_user();
    let inp = sol_inputs(140_0000_0000, 1000, 1500);
    let t = buy_with_sol(&mut st, &mut user, &addr(5), 1_000_000_000, &inp).unwrap();
    assert_eq!(t, 14_000_000_000_000);
    assert_eq!(st.total_tokens_sold, t);
    assert_eq!(st.total_raised, 1_000_000_000);
    assert_eq!(user.total_purchased, t);
}

#[test]
fn buy_with_sol_oracle_checks() {
    let mut st = active_sale();
    let mut user = fresh_user();
    let inp = sol_inputs(0, 0, 1000 + 3601);
    assert!(matches!(buy_with_sol_at_round(&mut st, &mut user, &addr(5), 1000, round(140_0000_0000, 1000), &inp), Err(PresaleError::StalePrice)));
    let edge = sol_inputs(0, 0, 1000 + 3600);
    assert!(buy_with_sol_at_round(&mut st, &mut user, &addr(5), 1_000_000, round(140_0000_0000, 1000), &edge).is_ok());
    let now = sol_inputs(0, 0, 1000);
    assert!(matches!(buy_with_sol_at_round(&mut st, &mut user, &addr(5), 1000, round(-5, 1000), &now), Err(PresaleError::InvalidPrice)));
    let six = Some(OracleRound { answer: 140, timestamp: 1000, decimals: 6 });
    assert!(matches!(buy_with_sol_at_round(&mut st, &mut user, &addr(5), 1000, six, &now), Err(PresaleError::InvalidPrice)));
    let mut wrong_owner = sol_inputs(0, 0, 1000);
    wrong_owner.feed_owner = addr(3);
    assert!(matches!(buy_with_sol_at_round(&mut st, &mut user, &addr(5), 1000, round(140_0000_0000, 1000), &wrong_owner), Err(PresaleError::InvalidPrice)));
    assert!(matches!(buy_with_sol_at_round(&mut st, &mut user, &addr(5), 1000, None, &now), Err(PresaleError::InvalidPrice)));
    assert!(matches!(buy_with_sol_at_round(&mut st, &mut user, &addr(5), 1, round(1, 1000), &now), Err(PresaleError::InvalidAmount)));
    assert!(matches!(buy_with_sol_at_round(&mut st, &mut user, &addr(5), 0, round(1, 1000), &now), Err(PresaleError::InvalidAmount)));
    assert!(matches!(buy_with_sol_at_round(&mut st, &mut user, &addr(5), u64::MAX, round(i128::MAX, 1000), &now), Err(PresaleError::Overflow)));
    let mut poor = sol_inputs(0, 0, 1000);
    poor.buyer_lamports = 999;
    assert!(matches!(buy_with_sol_at_round(&mut st, &mut user, &addr(5), 1000, round(140_0000_0000, 1000), &poor), Err(PresaleError::InvalidAmount)));
}

#[test]
fn buy_with_sol_reads_the_feed() {
    let mut st = active_sale();
    let mut user = fresh_user();
    let mut bad = sol_inputs(140_0000_0000, 1000, 1500);
    bad.feed_data[0] = 0;
    assert!(matches!(buy_with_sol(&mut st, &mut user, &addr(5), 1000, &bad), Err(PresaleError::InvalidPrice)));
    let mut foreign = sol_inputs(140_0000_0000, 1000, 1500);
    foreign.feed_owner = addr(3);
    assert!(matches!(buy_with_sol(&mut st, &mut user, &addr(5), 1000, &foreign), Err(PresaleError::InvalidPrice)));
    let stale = sol_inputs(140_0000_0000, 1000, 1000 + 3601);
    assert!(matches!(buy_with_sol(&mut st, &mut user, &addr(5), 1000, &stale), Err(PresaleError::StalePrice)));
    let half = sol_inputs(70_0000_0000, 1000, 1500);
    let t = buy_with_sol(&mut st, &mut user, &addr(5), 1_000_000_000, &half).unwrap();
    assert_eq!(t, 7_000_000_000_000);
    assert_eq!(st.total_tokens_sold, 7_000_000_000_000);
}

#[test]
fn cap_updates() {
    let mut st = active_sale();
    let allowed = allow_payment_token(addr(70), addr(PAY_MINT));
    let mut user = fresh_user();
    buy(&mut st, &mut user, &allowed, &addr(5), 100, &buy_accounts()).unwrap();
    assert!(matches!(update_presale_cap(&mut st, &addr(ADMIN), 99), Err(PresaleError::InvalidAmount)));
    update_presale_cap(&mut st, &addr(ADMIN), 1000).unwrap();
    assert!(matches!(update_max_per_user(&mut st, &addr(ADMIN), 1001), Err(PresaleError::InvalidAmount)));
    assert!(matches!(update_presale_limits(&mut st, &addr(ADMIN), Some(500), Some(600)), Err(PresaleError::InvalidAmount)));
    assert_eq!(st.max_presale_cap, 1000);
    update_presale_limits(&mut st, &addr(ADMIN), Some(500), Some(400)).unwrap();
    assert_eq!((st.max_presale_cap, st.max_per_user), (500, 400));
    update_presale_limits(&mut st, &addr(ADMIN), Some(0), None).unwrap();
    assert_eq!((st.max_presale_cap, st.max_per_user), (0, 400));
    assert!(matches!(update_presale_limits(&mut st, &addr(9), None, None), Err(PresaleError::Unauthorized)));
}

#[test]
fn treasury_withdrawals() {
    let mut st = active_sale();
    let vault = token_account(PAY_MINT, PAY_VAULT_PDA, 500);
    let treasury_acc = token_account(PAY_MINT, 60, 0);
    assert!(matches!(withdraw_to_treasury(&st, &addr(ADMIN), 10, &treasury_acc, &addr(PAY_MINT), &vault, &addr(PAY_VAULT_PDA)), Err(PresaleError::TreasuryNotSet)));
    set_treasury_address(&mut st, &addr(ADMIN), addr(60)).unwrap();
    let w = withdraw_to_treasury(&st, &addr(ADMIN), 500, &treasury_acc, &addr(PAY_MINT), &vault, &addr(PAY_VAULT_PDA)).unwrap();
    assert_eq!(w.amount, 500);
    assert!(w.treasury == addr(60));
    assert!(matches!(withdraw_to_treasury(&st, &addr(ADMIN), 501, &treasury_acc, &addr(PAY_MINT), &vault, &addr(PAY_VAULT_PDA)), Err(PresaleError::InvalidAmount)));
    let other = token_account(PAY_MINT, 61, 0);
    assert!(matches!(withdraw_to_treasury(&st, &addr(ADMIN), 5, &other, &addr(PAY_MINT), &vault, &addr(PAY_VAULT_PDA)), Err(PresaleError::InvalidTreasuryAccount)));
    assert!(matches!(withdraw_sol_to_treasury(&st, &addr(ADMIN), 10, 9), Err(PresaleError::InvalidAmount)));
    assert_eq!(withdraw_sol_to_treasury(&st, &addr(ADMIN), 10, 10).unwrap().amount, 10);
    let dest = token_account(MINT, 66, 0);
    let tvault = token_account(MINT, TOKEN_VAULT_PDA, 40);
    let u = withdraw_unsold_tokens(&st, &addr(ADMIN), 40, &dest, &addr(66), &tvault, &addr(TOKEN_VAULT_PDA)).unwrap();
    assert!(u.treasury == addr(66));
    assert!(matches!(withdraw_unsold_tokens(&st, &addr(ADMIN), 41, &dest, &addr(66), &tvault, &addr(TOKEN_VAULT_PDA)), Err(PresaleError::InvalidAmount)));
    assert!(matches!(withdraw_unsold_tokens(&st, &addr(9), 1, &dest, &addr(66), &tvault, &addr(TOKEN_VAULT_PDA)), Err(PresaleError::Unauthorized)));
}

#[test]
fn migration_writes_price_field() {
    let mut data = vec![0u8; 200];
    data[40..72].copy_from_slice(&[ADMIN; 32]);
    assert!(matches!(migrate_stored_record(&mut data.clone(), true, &addr(9), 5), Err(PresaleError::Unauthorized)));
    assert!(matches!(migrate_stored_record(&mut data.clone(), false, &addr(ADMIN), 5), Err(PresaleError::InvalidAccount)));
    assert!(matches!(migrate_stored_record(&mut data.clone(), true, &addr(ADMIN), 0), Err(PresaleError::InvalidAmount)));
    let prev = migrate_stored_record(&mut data, true, &addr(ADMIN), 0x0A0B).unwrap();
    assert_eq!(prev, 0);
    assert_eq!(data.len(), 275);
    assert_eq!(&data[265..273], &0x0A0Bu64.to_le_bytes());
    let again = migrate_stored_record(&mut data, true, &addr(ADMIN), 7).unwrap();
    assert_eq!(again, 0x0A0B);
    assert_eq!(data.len(), 275);
}

#[test]
fn migration_checks_derived_address() {
    let program = anchor_lang::prelude::Pubkey::new_from_array([42u8; 32]);
    let (pda, _) = anchor_lang::prelude::Pubkey::find_program_address(&[b"presale_state"], &program);
    let program_id = Address::new(program.to_bytes());
    let key = Address::new(pda.to_bytes());
    let mut data = vec![0u8; 275];
    data[40..72].copy_from_slice(&[ADMIN; 32]);
    let r = migrate_presale_state(&mut data, &addr(77), &program_id, &addr(ADMIN), 9);
    assert!(matches!(r, Err(PresaleError::InvalidAccount)));
    assert_eq!(migrate_presale_state(&mut data, &key, &program_id, &addr(ADMIN), 9), Ok(0));
    assert_eq!(&data[265..273], &9u64.to_le_bytes());
}

#[test]
fn cap_may_not_fall_below_per_user_cap() {
    let mut st = active_sale();
    update_max_per_user(&mut st, &addr(ADMIN), 100).unwrap();
    assert!(matches!(update_presale_cap(&mut st, &addr(ADMIN), 99), Err(PresaleError::InvalidAmount)));
    assert_eq!(st.max_presale_cap, 0);
    update_presale_cap(&mut st, &addr(ADMIN), 100).unwrap();
    assert_eq!(st.max_presale_cap, 100);
    update_presale_cap(&mut st, &addr(ADMIN), 0).unwrap();
    assert_eq!(st.max_presale_cap, 0);
}

#[test]
fn short_feed_data_is_an_invalid_price() {
    let mut st = active_sale();
    let mut user = fresh_user();
    for len in [0usize, 160, 199] {
        let mut inp = sol_inputs(140_0000_0000, 1000, 1500);
        inp.feed_data.truncate(len);
        let r = buy_with_sol(&mut st, &mut user, &addr(5), 1000, &inp);
        assert!(matches!(r, Err(PresaleError::InvalidPrice)));
    }
    assert_eq!(st.total_tokens_sold, 0);
}
