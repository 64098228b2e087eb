use token_governance::address::Address;
use token_governance::codec::{decode_address_flag, encode_address_flag};
use token_governance::governance::{
    approve_transaction, emergency_pause, execute_transaction, grant_role, initialize,
    queue_set_blacklist, queue_set_cooldown_period, queue_set_liquidity_pool,
    queue_set_no_sell_limit, queue_set_required_approvals, queue_set_restricted,
    queue_set_bridge_address, queue_set_treasury_address, queue_unpause,
    queue_withdraw_to_treasury, reject_transaction, revoke_role, set_cooldown_period,
    set_presale_program, set_required_approvals, set_token_program, Dispatch, GovernanceError,
    GovernanceState, TransactionStatus, TransactionType,
};

fn addr(n: u8) -> Address {
    Address::new([n; 32])
}

fn three_signers() -> GovernanceState {
    initialize(addr(1), 254, 2, 1800, vec![addr(1), addr(2), addr(3)]).unwrap()
}

fn with_programs() -> GovernanceState {
    let mut g = three_signers();
    set_token_program(&mut g, &addr(1), addr(50)).unwrap();
    set_presale_program(&mut g, &addr(1), addr(51)).unwrap();
    g
}

#[test]
fn initialize_accepts_valid_configuration() {
    let g = three_signers();
    assert_eq!(g.required_approvals, 2);
    assert_eq!(g.cooldown_period, 1800);
    assert_eq!(g.next_transaction_id, 1);
    assert_eq!(g.signers.len(), 3);
    assert!(!g.token_program_set);
    assert!(g.token_program.is_zero());
}

#[test]
fn initialize_rejects_low_quorum() {
    let r = initialize(addr(1), 0, 1, 1800, vec![addr(1), addr(2)]);
    assert!(matches!(r, Err(GovernanceError::RequiredApprovalsTooLow)));
}

#[test]
fn initialize_rejects_quorum_above_signer_count() {
    let r = initialize(addr(1), 0, 3, 1800, vec![addr(1), addr(2)]);
    assert!(matches!(r, Err(GovernanceError::RequiredApprovalsTooHigh)));
}

#[test]
fn initialize_rejects_short_cooldown() {
    let r = initialize(addr(1), 0, 2, 1799, vec![addr(1), addr(2)]);
    assert!(matches!(r, Err(GovernanceError::CooldownPeriodTooLow)));
}

#[test]
fn initialize_rejects_long_cooldown() {
    let r = initialize(addr(1), 0, 2, 2592001, vec![addr(1), addr(2)]);
    assert!(matches!(r, Err(GovernanceError::CooldownPeriodTooHigh)));
}

#[test]
fn initialize_rejects_eleven_signers() {
    let signers: Vec<Address> = (1..=11u8).map(addr).collect();
    let r = initialize(addr(1), 0, 2, 1800, signers);
    assert!(matches!(r, Err(GovernanceError::InvalidRequiredApprovals)));
}

#[test]
fn initialize_accepts_ten_signers() {
    let signers: Vec<Address> = (1..=10u8).map(addr).collect();
    let g = initialize(addr(1), 0, 10, 1800, signers).unwrap();
    assert_eq!(g.signers.len(), 10);
}

#[test]
fn initialize_rejects_duplicate_signers() {
    let r = initialize(addr(1), 0, 2, 1800, vec![addr(1), addr(2), addr(1)]);
    assert!(matches!(r, Err(GovernanceError::DuplicateSigners)));
}

#[test]
fn signer_membership() {
    let g = three_signers();
    assert!(g.is_authorized_signer(&addr(2)));
    assert!(!g.is_authorized_signer(&addr(9)));
}

#[test]
fn token_program_is_set_once() {
    let mut g = three_signers();
    assert!(matches!(set_token_program(&mut g, &addr(9), addr(50)), Err(GovernanceError::Unauthorized)));
    assert!(matches!(set_token_program(&mut g, &addr(2), addr(50)), Err(GovernanceError::Unauthorized)));
    assert!(matches!(set_token_program(&mut g, &addr(1), Address::zero()), Err(GovernanceError::InvalidAccount)));
    set_token_program(&mut g, &addr(1), addr(50)).unwrap();
    assert!(g.token_program_set);
    assert!(g.token_program == addr(50));
    assert!(matches!(set_token_program(&mut g, &addr(2), addr(60)), Err(GovernanceError::TokenProgramAlreadySet)));
    assert!(g.token_program == addr(50));
}

#[test]
fn presale_program_is_set_once() {
    let mut g = three_signers();
    assert!(matches!(set_presale_program(&mut g, &addr(2), addr(51)), Err(GovernanceError::Unauthorized)));
    assert!(!g.presale_program_set);
    set_presale_program(&mut g, &addr(1), addr(51)).unwrap();
    assert!(matches!(set_presale_program(&mut g, &addr(1), addr(52)), Err(GovernanceError::PresaleProgramAlreadySet)));
}

#[test]
fn token_kinds_need_token_program() {
    let mut g = three_signers();
    assert!(matches!(queue_unpause(&mut g, &addr(1), 0), Err(GovernanceError::TokenProgramNotSet)));
    assert!(matches!(queue_set_blacklist(&mut g, &addr(1), 0, addr(7), true), Err(GovernanceError::TokenProgramNotSet)));
    assert!(matches!(queue_withdraw_to_treasury(&mut g, &addr(1), 0, 5), Err(GovernanceError::PresaleProgramNotSet)));
    assert_eq!(g.next_transaction_id, 1);
}

#[test]
fn queue_rejects_non_signer_zero_account_and_zero_amount() {
    let mut g = with_programs();
    assert!(matches!(queue_set_restricted(&mut g, &addr(9), 0, addr(7), true), Err(GovernanceError::NotAuthorizedSigner)));
    assert!(matches!(queue_set_restricted(&mut g, &addr(1), 0, Address::zero(), true), Err(GovernanceError::InvalidAccount)));
    assert!(matches!(queue_withdraw_to_treasury(&mut g, &addr(1), 0, 0), Err(GovernanceError::InvalidAmount)));
    assert!(matches!(queue_set_required_approvals(&mut g, &addr(1), 0, 1), Err(GovernanceError::RequiredApprovalsTooLow)));
    assert!(matches!(queue_set_required_approvals(&mut g, &addr(1), 0, 4), Err(GovernanceError::RequiredApprovalsTooHigh)));
    assert!(matches!(queue_set_cooldown_period(&mut g, &addr(1), 0, 100), Err(GovernanceError::CooldownPeriodTooLow)));
    assert!(matches!(queue_set_cooldown_period(&mut g, &addr(1), 0, 2592001), Err(GovernanceError::CooldownPeriodTooHigh)));
    assert_eq!(g.next_transaction_id, 1);
}

#[test]
fn ids_increase_by_one_across_kinds() {
    let mut g = with_programs();
    let a = queue_unpause(&mut g, &addr(1), 10).unwrap();
    let b = queue_set_blacklist(&mut g, &addr(2), 11, addr(7), true).unwrap();
    let c = queue_withdraw_to_treasury(&mut g, &addr(3), 12, 500).unwrap();
    let d = queue_set_cooldown_period(&mut g, &addr(1), 13, 3600).unwrap();
    assert_eq!((a.id, b.id, c.id, d.id), (1, 2, 3, 4));
    assert_eq!(g.next_transaction_id, 5);
}

#[test]
fn queue_overflow_of_execute_after() {
    let mut g = with_programs();
    let r = queue_unpause(&mut g, &addr(1), i64::MAX - 10);
    assert!(matches!(r, Err(GovernanceError::Overflow)));
    assert_eq!(g.next_transaction_id, 1);
}

#[test]
fn execute_after_is_snapshotted_at_queue_time() {
    let mut g = with_programs();
    let pending = queue_unpause(&mut g, &addr(1), 100).unwrap();
    assert_eq!(pending.execute_after, 1900);
    assert_eq!(pending.timestamp, 100);
    let mut change = queue_set_cooldown_period(&mut g, &addr(1), 100, 7200).unwrap();
    approve_transaction(&g, &mut change, 2, &addr(1)).unwrap();
    approve_transaction(&g, &mut change, 2, &addr(2)).unwrap();
    execute_transaction(&mut g, &mut change, 2, 1900, &Address::zero()).unwrap();
    assert_eq!(g.cooldown_period, 7200);
    assert_eq!(pending.execute_after, 1900);
    let later = queue_unpause(&mut g, &addr(1), 100).unwrap();
    assert_eq!(later.execute_after, 7300);
}

#[test]
fn blacklist_payload_layout() {
    let mut g = with_programs();
    let tx = queue_set_blacklist(&mut g, &addr(1), 0, addr(7), true).unwrap();
    assert_eq!(tx.tx_type, TransactionType::Blacklist);
    assert_eq!(tx.data.len(), 33);
    assert_eq!(&tx.data[0..32], &[7u8; 32]);
    assert_eq!(tx.data[32], 1);
    assert!(tx.target == addr(7));
    let tx2 = queue_set_no_sell_limit(&mut g, &addr(1), 0, addr(8), false).unwrap();
    assert_eq!(tx2.data[32], 0);
}

#[test]
fn integer_payload_layouts() {
    let mut g = with_programs();
    let w = queue_withdraw_to_treasury(&mut g, &addr(1), 0, 0x0102030405060708).unwrap();
    assert_eq!(w.data, vec![8, 7, 6, 5, 4, 3, 2, 1]);
    let c = queue_set_cooldown_period(&mut g, &addr(1), 0, 3600).unwrap();
    assert_eq!(c.data, 3600i64.to_le_bytes().to_vec());
    let r = queue_set_required_approvals(&mut g, &addr(1), 0, 3).unwrap();
    assert_eq!(r.data, vec![3]);
    let t = queue_set_treasury_address(&mut g, &addr(1), 0, addr(9)).unwrap();
    assert_eq!(t.data, vec![9u8; 32]);
}

#[test]
fn address_flag_round_trip() {
    let mut bytes = [0u8; 32];
    for (i, b) in bytes.iter_mut().enumerate() {
        *b = (i as u8).wrapping_mul(37).wrapping_add(5);
    }
    let a = Address::new(bytes);
    for v in [true, false] {
        let data = encode_address_flag(&a, v);
        let (back, flag) = decode_address_flag(&data).unwrap();
        assert!(back == a);
        assert_eq!(flag, v);
    }
    assert!(decode_address_flag(&vec![1u8; 32]).is_none());
}

#[test]
fn approve_at_most_once_per_signer() {
    let mut g = with_programs();
    let mut tx = queue_unpause(&mut g, &addr(1), 0).unwrap();
    approve_transaction(&g, &mut tx, 1, &addr(1)).unwrap();
    let r = approve_transaction(&g, &mut tx, 1, &addr(1));
    assert!(matches!(r, Err(GovernanceError::AlreadyApproved)));
    assert_eq!(tx.approval_count, 1);
    assert_eq!(tx.approvals.len(), 1);
    approve_transaction(&g, &mut tx, 1, &addr(3)).unwrap();
    assert_eq!(tx.approval_count as usize, tx.approvals.len());
    assert!(tx.has_approved(addr(3)));
    assert!(!tx.has_approved(addr(2)));
}

#[test]
fn approve_rejects_wrong_id_and_outsider() {
    let mut g = with_programs();
    let mut tx = queue_unpause(&mut g, &addr(1), 0).unwrap();
    assert!(matches!(approve_transaction(&g, &mut tx, 2, &addr(1)), Err(GovernanceError::InvalidTransactionId)));
    assert!(matches!(approve_transaction(&g, &mut tx, 1, &addr(9)), Err(GovernanceError::NotAuthorizedSigner)));
    assert_eq!(tx.approval_count, 0);
}

#[test]
fn scenario_cooldown_change() {
    let mut g = initialize(addr(1), 254, 2, 1800, vec![addr(1), addr(2), addr(3)]).unwrap();
    let mut tx = queue_set_cooldown_period(&mut g, &addr(1), 0, 3600).unwrap();
    assert_eq!(tx.id, 1);
    assert_eq!(tx.execute_after, 1800);
    approve_transaction(&g, &mut tx, 1, &addr(1)).unwrap();
    approve_transaction(&g, &mut tx, 1, &addr(2)).unwrap();
    assert_eq!(tx.approval_count, 2);
    let early = execute_transaction(&mut g, &mut tx, 1, 1799, &Address::zero());
    assert!(matches!(early, Err(GovernanceError::CooldownNotExpired)));
    assert_eq!(tx.status, TransactionStatus::Pending);
    assert_eq!(g.cooldown_period, 1800);
    let done = execute_transaction(&mut g, &mut tx, 1, 1800, &Address::zero());
    assert!(matches!(done, Ok(Dispatch::CooldownPeriodChanged { period: 3600 })));
    assert_eq!(g.cooldown_period, 3600);
    assert_eq!(tx.status, TransactionStatus::Executed);
}

#[test]
fn scenario_blacklist_target_mismatch() {
    let mut g = with_programs();
    let target = addr(7);
    let mut tx = queue_set_blacklist(&mut g, &addr(1), 0, target, true).unwrap();
    approve_transaction(&g, &mut tx, 1, &addr(1)).unwrap();
    approve_transaction(&g, &mut tx, 1, &addr(2)).unwrap();
    let r = execute_transaction(&mut g, &mut tx, 1, 5000, &addr(8));
    assert!(matches!(r, Err(GovernanceError::InvalidAccount)));
    assert_eq!(tx.status, TransactionStatus::Pending);
    assert_eq!(g.next_transaction_id, 2);
    assert_eq!(g.required_approvals, 2);
    let ok = execute_transaction(&mut g, &mut tx, 1, 5000, &target);
    match ok {
        Ok(Dispatch::SetBlacklist { account, value }) => {
            assert!(account == target);
            assert!(value);
        }
        _ => panic!("expected a blacklist call"),
    }
}

#[test]
fn execute_needs_quorum() {
    let mut g = with_programs();
    let mut tx = queue_unpause(&mut g, &addr(1), 0).unwrap();
    approve_transaction(&g, &mut tx, 1, &addr(1)).unwrap();
    let r = execute_transaction(&mut g, &mut tx, 1, 1800, &Address::zero());
    assert!(matches!(r, Err(GovernanceError::InsufficientApprovals)));
    let r2 = execute_transaction(&mut g, &mut tx, 1, 10, &Address::zero());
    assert!(matches!(r2, Err(GovernanceError::CooldownNotExpired)));
    approve_transaction(&g, &mut tx, 1, &addr(2)).unwrap();
    let r3 = execute_transaction(&mut g, &mut tx, 1, 1800, &Address::zero());
    assert!(matches!(r3, Ok(Dispatch::SetEmergencyPause { paused: false })));
}

#[test]
fn terminal_states_are_final() {
    let mut g = with_programs();
    let mut done = queue_unpause(&mut g, &addr(1), 0).unwrap();
    approve_transaction(&g, &mut done, 1, &addr(1)).unwrap();
    approve_transaction(&g, &mut done, 1, &addr(2)).unwrap();
    execute_transaction(&mut g, &mut done, 1, 1800, &Address::zero()).unwrap();
    assert!(matches!(approve_transaction(&g, &mut done, 1, &addr(3)), Err(GovernanceError::TransactionNotPending)));
    assert!(matches!(reject_transaction(&g, &mut done, 1, &addr(3), "late".to_string()), Err(GovernanceError::TransactionNotPending)));
    assert!(matches!(execute_transaction(&mut g, &mut done, 1, 1800, &Address::zero()), Err(GovernanceError::TransactionNotPending)));

    let mut rejected = queue_unpause(&mut g, &addr(1), 0).unwrap();
    reject_transaction(&g, &mut rejected, 2, &addr(2), "not now".to_string()).unwrap();
    assert_eq!(rejected.status, TransactionStatus::Rejected);
    assert_eq!(rejected.rejection_reason, "not now");
    assert!(rejected.rejector == addr(2));
    assert!(matches!(approve_transaction(&g, &mut rejected, 2, &addr(1)), Err(GovernanceError::TransactionNotPending)));
    assert!(matches!(reject_transaction(&g, &mut rejected, 2, &addr(1), "again".to_string()), Err(GovernanceError::TransactionNotPending)));
    assert!(matches!(execute_transaction(&mut g, &mut rejected, 2, 9999, &Address::zero()), Err(GovernanceError::TransactionNotPending)));
}

#[test]
fn reject_reason_bounds() {
    let mut g = with_programs();
    let mut tx = queue_unpause(&mut g, &addr(1), 0).unwrap();
    assert!(matches!(reject_transaction(&g, &mut tx, 1, &addr(1), String::new()), Err(GovernanceError::EmptyRejectionReason)));
    assert!(matches!(reject_transaction(&g, &mut tx, 1, &addr(1), "x".repeat(257)), Err(GovernanceError::EmptyRejectionReason)));
    assert!(matches!(reject_transaction(&g, &mut tx, 1, &addr(9), "no".to_string()), Err(GovernanceError::NotAuthorizedSigner)));
    assert_eq!(tx.status, TransactionStatus::Pending);
    reject_transaction(&g, &mut tx, 1, &addr(1), "x".repeat(256)).unwrap();
    assert_eq!(tx.status, TransactionStatus::Rejected);
}

#[test]
fn executed_quorum_change_is_revalidated() {
    let mut g = with_programs();
    let mut tx = queue_set_required_approvals(&mut g, &addr(1), 0, 3).unwrap();
    approve_transaction(&g, &mut tx, 1, &addr(1)).unwrap();
    approve_transaction(&g, &mut tx, 1, &addr(2)).unwrap();
    let r = execute_transaction(&mut g, &mut tx, 1, 1800, &Address::zero());
    assert!(matches!(r, Ok(Dispatch::RequiredApprovalsChanged { required: 3 })));
    assert_eq!(g.required_approvals, 3);
}

#[test]
fn executed_payload_too_short_is_rejected() {
    let mut g = with_programs();
    let mut tx = queue_set_liquidity_pool(&mut g, &addr(1), 0, addr(7), true).unwrap();
    approve_transaction(&g, &mut tx, 1, &addr(1)).unwrap();
    approve_transaction(&g, &mut tx, 1, &addr(2)).unwrap();
    tx.data.truncate(20);
    let r = execute_transaction(&mut g, &mut tx, 1, 1800, &addr(7));
    assert!(matches!(r, Err(GovernanceError::InvalidAccount)));
    let mut c = queue_set_cooldown_period(&mut g, &addr(1), 0, 3600).unwrap();
    approve_transaction(&g, &mut c, 2, &addr(1)).unwrap();
    approve_transaction(&g, &mut c, 2, &addr(2)).unwrap();
    c.data.truncate(4);
    let r2 = execute_transaction(&mut g, &mut c, 2, 1800, &Address::zero());
    assert!(matches!(r2, Err(GovernanceError::InvalidCooldownPeriod)));
}

#[test]
fn dispatch_of_address_and_amount_kinds() {
    let mut g = with_programs();
    let mut b = queue_set_bridge_address(&mut g, &addr(1), 0, addr(11)).unwrap();
    let mut w = queue_withdraw_to_treasury(&mut g, &addr(1), 0, 777).unwrap();
    let mut r = queue_set_restricted(&mut g, &addr(1), 0, addr(12), false).unwrap();
    for tx in [&mut b, &mut w, &mut r] {
        let id = tx.id;
        approve_transaction(&g, tx, id, &addr(2)).unwrap();
        approve_transaction(&g, tx, id, &addr(3)).unwrap();
    }
    assert!(matches!(execute_transaction(&mut g, &mut b, 1, 1800, &Address::zero()), Ok(Dispatch::SetBridgeAddress { address }) if address == addr(11)));
    assert!(matches!(execute_transaction(&mut g, &mut w, 2, 1800, &Address::zero()), Ok(Dispatch::WithdrawToTreasury { amount: 777 })));
    assert!(matches!(execute_transaction(&mut g, &mut r, 3, 1800, &addr(12)), Ok(Dispatch::SetRestricted { account, value: false }) if account == addr(12)));
}

#[test]
fn direct_setters_need_the_authority() {
    let mut g = three_signers();
    assert!(matches!(set_required_approvals(&mut g, &addr(2), 3), Err(GovernanceError::Unauthorized)));
    assert!(matches!(set_required_approvals(&mut g, &addr(9), 3), Err(GovernanceError::NotAuthorizedSigner)));
    assert!(matches!(set_required_approvals(&mut g, &addr(1), 4), Err(GovernanceError::RequiredApprovalsTooHigh)));
    set_required_approvals(&mut g, &addr(1), 3).unwrap();
    assert_eq!(g.required_approvals, 3);
    assert!(matches!(set_cooldown_period(&mut g, &addr(1), 1000), Err(GovernanceError::CooldownPeriodTooLow)));
    assert!(matches!(set_cooldown_period(&mut g, &addr(1), 2592001), Err(GovernanceError::CooldownPeriodTooHigh)));
    set_cooldown_period(&mut g, &addr(1), 5400).unwrap();
    assert_eq!(g.cooldown_period, 5400);
}

#[test]
fn roles_and_emergency_pause() {
    let mut g = three_signers();
    assert!(matches!(grant_role(&g, &addr(1), 4, addr(1)), Err(GovernanceError::Unauthorized)));
    assert!(matches!(grant_role(&g, &addr(9), 4, addr(5)), Err(GovernanceError::NotAuthorizedSigner)));
    let mut role = grant_role(&g, &addr(1), 4, addr(5)).unwrap();
    assert!(role.has_role);
    assert!(matches!(revoke_role(&g, &mut role, &addr(2), 3, addr(5)), Err(GovernanceError::InvalidRole)));
    assert!(matches!(revoke_role(&g, &mut role, &addr(2), 4, addr(6)), Err(GovernanceError::InvalidAccount)));
    revoke_role(&g, &mut role, &addr(2), 4, addr(5)).unwrap();
    assert!(!role.has_role);
    assert!(matches!(emergency_pause(&g, &addr(1)), Err(GovernanceError::TokenProgramNotSet)));
    set_token_program(&mut g, &addr(1), addr(50)).unwrap();
    assert!(matches!(emergency_pause(&g, &addr(9)), Err(GovernanceError::NotAuthorizedSigner)));
    assert!(matches!(emergency_pause(&g, &addr(3)), Ok(Dispatch::SetEmergencyPause { paused: true })));
}
