//! Multisig governance: signer quorum, the queued-transaction state machine
//! (`Pending` to `Executed` or `Rejected`) and the decisions of the dispatcher
//! that turns an executed transaction into a call on the token or presale
//! program.
use vstd::prelude::*;
use crate::address::{Address, contains_addr, distinct_addrs, list_contains, has_duplicates, lemma_distinct_subset_len};
use crate::codec::{address_of, le_u64_of, i64_of_bits, address_flag_bytes, u64_le_bytes, i64_bits, encode_address, encode_address_flag, encode_u64, encode_i64, decode_address, decode_address_flag, decode_u64, decode_i64};

verus! {

/// Lowest number of approvals a transaction may require.
pub const MIN_REQUIRED_APPROVALS: u8 = 2;

/// Lowest cooldown between queuing and execution, in seconds (30 minutes).
pub const MIN_COOLDOWN_SECONDS: i64 = 1800;

/// Highest cooldown between queuing and execution, in seconds (30 days).
pub const MAX_COOLDOWN_SECONDS: i64 = 2592000;

/// Most signers a governance deployment may have.
pub const MAX_SIGNERS: usize = 10;

/// Longest rejection reason, in bytes.
pub const MAX_REASON_LEN: usize = 256;

/// The kind of a queued transaction; its parameters live in the payload bytes.
#[derive(Clone, Copy, Debug, PartialEq, Eq, Structural)]
pub enum TransactionType {
    Unpause,
    Blacklist,
    NoSellLimit,
    Restrict,
    Pair,
    SetRequiredApprovals,
    SetCooldownPeriod,
    SetBridgeAddress,
    SetBondAddress,
    SetTreasuryAddress,
    WithdrawToTreasury,
}

/// Lifecycle of a transaction; both non-pending states are terminal.
#[derive(Clone, Copy, Debug, PartialEq, Eq, Structural)]
pub enum TransactionStatus {
    Pending,
    Rejected,
    Executed,
}

#[derive(Clone, Copy, Debug, PartialEq, Eq, Structural)]
pub enum GovernanceError {
    TokenProgramNotSet,
    TokenProgramAlreadySet,
    PresaleProgramNotSet,
    PresaleProgramAlreadySet,
    InvalidTransactionId,
    TransactionNotPending,
    AlreadyApproved,
    CooldownNotExpired,
    InsufficientApprovals,
    EmptyRejectionReason,
    InvalidRequiredApprovals,
    InvalidCooldownPeriod,
    CooldownPeriodTooLow,
    CooldownPeriodTooHigh,
    InvalidAccount,
    InvalidRole,
    Unauthorized,
    NotAuthorizedSigner,
    RequiredApprovalsTooLow,
    RequiredApprovalsTooHigh,
    DuplicateSigners,
    InvalidDataLength,
    InvalidAmount,
    Overflow,
}

/// The singleton governance record.
pub struct GovernanceState {
    pub authority: Address,
    pub required_approvals: u8,
    pub cooldown_period: i64,
    pub next_transaction_id: u64,
    pub token_program: Address,
    pub token_program_set: bool,
    pub presale_program: Address,
    pub presale_program_set: bool,
    pub bump: u8,
    pub signers: Vec<Address>,
}

/// One queued transaction.
pub struct Transaction {
    pub id: u64,
    pub tx_type: TransactionType,
    pub status: TransactionStatus,
    pub initiator: Address,
    pub target: Address,
    pub data: Vec<u8>,
    pub timestamp: i64,
    pub execute_after: i64,
    pub approval_count: u8,
    pub approvals: Vec<Address>,
    pub rejection_reason: String,
    pub rejector: Address,
}

/// A capability flag held by an account, independent of the signer quorum.
#[derive(Clone, Copy, Debug)]
pub struct Role {
    pub account: Address,
    pub role: u8,
    pub has_role: bool,
}

/// Length in bytes of the UTF-8 encoding of a text.
pub open spec fn utf8_len(s: Seq<char>) -> nat {
    vstd::utf8::encode_utf8(s).len()
}

impl GovernanceState {
    /// The record's invariant: quorum within the signer count, a bounded
    /// duplicate-free signer list, a cooldown within bounds, ids from 1 on.
    pub open spec fn wf(&self) -> bool {
        &&& MIN_REQUIRED_APPROVALS <= self.required_approvals
        &&& self.required_approvals as int <= self.signers@.len()
        &&& self.signers@.len() <= MAX_SIGNERS
        &&& distinct_addrs(self.signers@)
        &&& MIN_COOLDOWN_SECONDS <= self.cooldown_period <= MAX_COOLDOWN_SECONDS
        &&& self.next_transaction_id >= 1
    }

    pub open spec fn is_signer(&self, a: Address) -> bool {
        contains_addr(self.signers@, a)
    }

    /// Whether `signer` is one of the authorized signers.
    pub fn is_authorized_signer(&self, signer: &Address) -> (r: bool)
        ensures
            r == self.is_signer(*signer),
    {
        list_contains(&self.signers, signer)
    }

    /// Every approval recorded on `tx` comes from a signer of this record.
    pub open spec fn approvals_by_signers(&self, tx: &Transaction) -> bool {
        forall|i: int| 0 <= i < tx.approvals@.len() ==> self.is_signer(#[trigger] tx.approvals@[i])
    }
}

impl Transaction {
    /// The record's invariant: the count equals the number of approvals, and
    /// no signer appears twice among them.
    pub open spec fn wf(&self) -> bool {
        &&& self.approval_count as int == self.approvals@.len()
        &&& self.approvals@.len() <= MAX_SIGNERS
        &&& distinct_addrs(self.approvals@)
    }

    pub open spec fn approved_by(&self, a: Address) -> bool {
        contains_addr(self.approvals@, a)
    }

    /// Whether `approver` has already approved.
    pub fn has_approved(&self, approver: Address) -> (r: bool)
        ensures
            r == self.approved_by(approver),
    {
        list_contains(&self.approvals, &approver)
    }

    /// Records an approval by `approver` unless it is already recorded.
    pub fn add_approval(&mut self, approver: Address)
        requires
            old(self).wf(),
            old(self).approvals@.len() < MAX_SIGNERS || old(self).approved_by(approver),
        ensures
            old(self).approved_by(approver) ==> *final(self) == *old(self),
            !old(self).approved_by(approver) ==> {
                &&& final(self).approvals@ == old(self).approvals@.push(approver)
                &&& final(self).approval_count == old(self).approval_count + 1
                &&& final(self).id == old(self).id
                &&& final(self).tx_type == old(self).tx_type
                &&& final(self).status == old(self).status
                &&& final(self).initiator == old(self).initiator
                &&& final(self).target == old(self).target
                &&& final(self).data == old(self).data
                &&& final(self).timestamp == old(self).timestamp
                &&& final(self).execute_after == old(self).execute_after
                &&& final(self).rejection_reason == old(self).rejection_reason
                &&& final(self).rejector == old(self).rejector
            },
            final(self).wf(),
    {
        if !list_contains(&self.approvals, &approver) {
            self.approvals.push(approver);
            self.approval_count = self.approval_count + 1;
            assert(distinct_addrs(self.approvals@)) by {
                let s = self.approvals@;
                assert forall|i: int, j: int|
                    0 <= i < s.len() && 0 <= j < s.len() && i != j implies (#[trigger] s[i]).bytes@
                    != (#[trigger] s[j]).bytes@ by {
                    if i == s.len() - 1 {
                        assert(old(self).approvals@[j] == s[j]);
                    } else if j == s.len() - 1 {
                        assert(old(self).approvals@[i] == s[i]);
                    }
                }
            }
        }
    }
}

/// The first check of `initialize` that fails, if any.
pub open spec fn initialize_error(required_approvals: u8, cooldown_period: i64, signers: Seq<Address>) -> Option<GovernanceError> {
    if required_approvals < MIN_REQUIRED_APPROVALS {
        Some(GovernanceError::RequiredApprovalsTooLow)
    } else if cooldown_period < MIN_COOLDOWN_SECONDS {
        Some(GovernanceError::CooldownPeriodTooLow)
    } else if cooldown_period > MAX_COOLDOWN_SECONDS {
        Some(GovernanceError::CooldownPeriodTooHigh)
    } else if signers.len() > MAX_SIGNERS {
        Some(GovernanceError::InvalidRequiredApprovals)
    } else if required_approvals as int > signers.len() {
        Some(GovernanceError::RequiredApprovalsTooHigh)
    } else if !distinct_addrs(signers) {
        Some(GovernanceError::DuplicateSigners)
    } else {
        None
    }
}

/// Creates the governance record for a signer set, a quorum and a cooldown.
pub fn initialize(
    authority: Address,
    bump: u8,
    required_approvals: u8,
    cooldown_period: i64,
    signers: Vec<Address>,
) -> (r: Result<GovernanceState, GovernanceError>)
    ensures
        match initialize_error(required_approvals, cooldown_period, signers@) {
            Some(e) => r == Err::<GovernanceState, GovernanceError>(e),
            None => r is Ok,
        },
        r matches Ok(g) ==> {
            &&& g.wf()
            &&& g.authority == authority
            &&& g.required_approvals == required_approvals
            &&& g.cooldown_period == cooldown_period
            &&& g.next_transaction_id == 1
            &&& !g.token_program_set
            &&& g.token_program.is_zero_spec()
            &&& !g.presale_program_set
            &&& g.presale_program.is_zero_spec()
            &&& g.bump == bump
            &&& g.signers@ == signers@
        },
{
    if required_approvals < MIN_REQUIRED_APPROVALS {
        return Err(GovernanceError::RequiredApprovalsTooLow);
    }
    if cooldown_period < MIN_COOLDOWN_SECONDS {
        return Err(GovernanceError::CooldownPeriodTooLow);
    }
    if cooldown_period > MAX_COOLDOWN_SECONDS {
        return Err(GovernanceError::CooldownPeriodTooHigh);
    }
    if signers.len() > MAX_SIGNERS {
        return Err(GovernanceError::InvalidRequiredApprovals);
    }
    if required_approvals as usize > signers.len() {
        return Err(GovernanceError::RequiredApprovalsTooHigh);
    }
    if has_duplicates(&signers) {
        return Err(GovernanceError::DuplicateSigners);
    }
    Ok(GovernanceState {
        authority,
        required_approvals,
        cooldown_period,
        next_transaction_id: 1,
        token_program: Address::zero(),
        token_program_set: false,
        presale_program: Address::zero(),
        presale_program_set: false,
        bump,
        signers,
    })
}

/// `b` equals `a` but for the token-program fields.
pub open spec fn same_but_programs(a: GovernanceState, b: GovernanceState) -> bool {
    &&& b.authority == a.authority
    &&& b.required_approvals == a.required_approvals
    &&& b.cooldown_period == a.cooldown_period
    &&& b.next_transaction_id == a.next_transaction_id
    &&& b.bump == a.bump
    &&& b.signers@ == a.signers@
}

/// Records the token program, once, at the deploying authority's request.
pub fn set_token_program(gov: &mut GovernanceState, caller: &Address, token_program: Address) -> (r: Result<(), GovernanceError>)
    ensures
        r == (if old(gov).token_program_set {
            Err(GovernanceError::TokenProgramAlreadySet)
        } else if old(gov).authority.bytes@ != caller.bytes@ {
            Err(GovernanceError::Unauthorized)
        } else if token_program.is_zero_spec() {
            Err(GovernanceError::InvalidAccount)
        } else {
            Ok(())
        }),
        r is Err ==> *final(gov) == *old(gov),
        r is Ok ==> {
            &&& same_but_programs(*old(gov), *final(gov))
            &&& final(gov).token_program == token_program
            &&& final(gov).token_program_set
            &&& final(gov).presale_program == old(gov).presale_program
            &&& final(gov).presale_program_set == old(gov).presale_program_set
        },
{
    if gov.token_program_set {
        return Err(GovernanceError::TokenProgramAlreadySet);
    }
    if !gov.authority.same_as(caller) {
        return Err(GovernanceError::Unauthorized);
    }
    if token_program.is_zero() {
        return Err(GovernanceError::InvalidAccount);
    }
    gov.token_program = token_program;
    gov.token_program_set = true;
    Ok(())
}

/// Records the presale program, once, at the deploying authority's request.
pub fn set_presale_program(gov: &mut GovernanceState, caller: &Address, presale_program: Address) -> (r: Result<(), GovernanceError>)
    ensures
        r == (if old(gov).presale_program_set {
            Err(GovernanceError::PresaleProgramAlreadySet)
        } else if old(gov).authority.bytes@ != caller.bytes@ {
            Err(GovernanceError::Unauthorized)
        } else if presale_program.is_zero_spec() {
            Err(GovernanceError::InvalidAccount)
        } else {
            Ok(())
        }),
        r is Err ==> *final(gov) == *old(gov),
        r is Ok ==> {
            &&& same_but_programs(*old(gov), *final(gov))
            &&& final(gov).presale_program == presale_program
            &&& final(gov).presale_program_set
            &&& final(gov).token_program == old(gov).token_program
            &&& final(gov).token_program_set == old(gov).token_program_set
        },
{
    if gov.presale_program_set {
        return Err(GovernanceError::PresaleProgramAlreadySet);
    }
    if !gov.authority.same_as(caller) {
        return Err(GovernanceError::Unauthorized);
    }
    if presale_program.is_zero() {
        return Err(GovernanceError::InvalidAccount);
    }
    gov.presale_program = presale_program;
    gov.presale_program_set = true;
    Ok(())
}

/// An all-zero address view.
pub open spec fn zero_bytes() -> Seq<u8> {
    Seq::new(32, |_i: int| 0u8)
}

/// The failure of allocating an id and an execution time, if any.
pub open spec fn alloc_error(g: GovernanceState, now: i64) -> Option<GovernanceError> {
    if g.next_transaction_id == u64::MAX || now + g.cooldown_period > i64::MAX || now
        + g.cooldown_period < i64::MIN {
        Some(GovernanceError::Overflow)
    } else {
        None
    }
}

/// `b` is `a` with the next transaction id advanced by one.
pub open spec fn id_advanced(a: GovernanceState, b: GovernanceState) -> bool {
    &&& b.next_transaction_id == a.next_transaction_id + 1
    &&& b.authority == a.authority
    &&& b.required_approvals == a.required_approvals
    &&& b.cooldown_period == a.cooldown_period
    &&& b.token_program == a.token_program
    &&& b.token_program_set == a.token_program_set
    &&& b.presale_program == a.presale_program
    &&& b.presale_program_set == a.presale_program_set
    &&& b.bump == a.bump
    &&& b.signers@ == a.signers@
}

/// `tx` is the fresh pending transaction that queuing at `now` under `g` creates.
pub open spec fn fresh_transaction(
    g: GovernanceState,
    tx: Transaction,
    initiator: Address,
    now: i64,
    ty: TransactionType,
    target: Seq<u8>,
    data: Seq<u8>,
) -> bool {
    &&& tx.id == g.next_transaction_id
    &&& tx.tx_type == ty
    &&& tx.status == TransactionStatus::Pending
    &&& tx.initiator == initiator
    &&& tx.target.bytes@ == target
    &&& tx.data@ == data
    &&& tx.timestamp == now
    &&& tx.execute_after == now + g.cooldown_period
    &&& tx.approval_count == 0
    &&& tx.approvals@.len() == 0
    &&& tx.rejection_reason@.len() == 0
    &&& tx.rejector.is_zero_spec()
}

/// Outcome of a queue operation whose own checks gave `pre`: the first error
/// leaves the record unchanged; otherwise the id advances and a fresh
/// transaction is returned.
pub open spec fn queue_outcome(
    a: GovernanceState,
    b: GovernanceState,
    r: Result<Transaction, GovernanceError>,
    pre: Option<GovernanceError>,
    initiator: Address,
    now: i64,
    ty: TransactionType,
    target: Seq<u8>,
    data: Seq<u8>,
) -> bool {
    let err = if pre is Some {
        pre
    } else {
        alloc_error(a, now)
    };
    match err {
        Some(e) => r == Err::<Transaction, GovernanceError>(e) && b == a,
        None => match r {
            Ok(tx) => id_advanced(a, b) && fresh_transaction(a, tx, initiator, now, ty, target, data)
                && tx.wf(),
            Err(_) => false,
        },
    }
}

/// Allocates the next id and builds the pending transaction.
fn queue_transaction(
    gov: &mut GovernanceState,
    initiator: &Address,
    now: i64,
    tx_type: TransactionType,
    target: Address,
    data: Vec<u8>,
) -> (r: Result<Transaction, GovernanceError>)
    ensures
        queue_outcome(*old(gov), *final(gov), r, None, *initiator, now, tx_type, target.bytes@, data@),
{
    if gov.next_transaction_id == u64::MAX {
        return Err(GovernanceError::Overflow);
    }
    let execute_after = match now.checked_add(gov.cooldown_period) {
        Some(t) => t,
        None => {
            return Err(GovernanceError::Overflow);
        },
    };
    let tx_id = gov.next_transaction_id;
    gov.next_transaction_id = tx_id + 1;
    let tx = Transaction {
        id: tx_id,
        tx_type,
        status: TransactionStatus::Pending,
        initiator: *initiator,
        target,
        data,
        timestamp: now,
        execute_after,
        approval_count: 0,
        approvals: Vec::new(),
        rejection_reason: String::new(),
        rejector: Address::zero(),
    };
    Ok(tx)
}

/// Checks shared by the token-program kinds that name an account.
pub open spec fn token_target_error(g: GovernanceState, initiator: Address, account: Address) -> Option<GovernanceError> {
    if !g.token_program_set {
        Some(GovernanceError::TokenProgramNotSet)
    } else if !g.is_signer(initiator) {
        Some(GovernanceError::NotAuthorizedSigner)
    } else if account.is_zero_spec() {
        Some(GovernanceError::InvalidAccount)
    } else {
        None
    }
}

/// Checks of the presale-program kind that names an address.
pub open spec fn presale_target_error(g: GovernanceState, initiator: Address, account: Address) -> Option<GovernanceError> {
    if !g.presale_program_set {
        Some(GovernanceError::PresaleProgramNotSet)
    } else if !g.is_signer(initiator) {
        Some(GovernanceError::NotAuthorizedSigner)
    } else if account.is_zero_spec() {
        Some(GovernanceError::InvalidAccount)
    } else {
        None
    }
}

fn check_token_target(gov: &GovernanceState, initiator: &Address, account: &Address) -> (r: Option<GovernanceError>)
    ensures
        r == token_target_error(*gov, *initiator, *account),
{
    if !gov.token_program_set {
        Some(GovernanceError::TokenProgramNotSet)
    } else if !gov.is_authorized_signer(initiator) {
        Some(GovernanceError::NotAuthorizedSigner)
    } else if account.is_zero() {
        Some(GovernanceError::InvalidAccount)
    } else {
        None
    }
}

/// Queues unpausing the token program.
pub fn queue_unpause(gov: &mut GovernanceState, initiator: &Address, now: i64) -> (r: Result<Transaction, GovernanceError>)
    ensures
        queue_outcome(
            *old(gov),
            *final(gov),
            r,
            if !old(gov).token_program_set {
                Some(GovernanceError::TokenProgramNotSet)
            } else if !old(gov).is_signer(*initiator) {
                Some(GovernanceError::NotAuthorizedSigner)
            } else {
                None
            },
            *initiator,
            now,
            TransactionType::Unpause,
            zero_bytes(),
            Seq::empty(),
        ),
{
    if !gov.token_program_set {
        return Err(GovernanceError::TokenProgramNotSet);
    }
    if !gov.is_authorized_signer(initiator) {
        return Err(GovernanceError::NotAuthorizedSigner);
    }
    let r = queue_transaction(gov, initiator, now, TransactionType::Unpause, Address::zero(), Vec::new());
    r
}

/// Queues adding (`true`) or removing (`false`) an account on the token blacklist.
pub fn queue_set_blacklist(gov: &mut GovernanceState, initiator: &Address, now: i64, account: Address, value: bool) -> (r: Result<Transaction, GovernanceError>)
    ensures
        queue_outcome(
            *old(gov),
            *final(gov),
            r,
            token_target_error(*old(gov), *initiator, account),
            *initiator,
            now,
            TransactionType::Blacklist,
            account.bytes@,
            address_flag_bytes(account, value),
        ),
{
    match check_token_target(gov, initiator, &account) {
        Some(e) => Err(e),
        None => {
            let data = encode_address_flag(&account, value);
            queue_transaction(gov, initiator, now, TransactionType::Blacklist, account, data)
        },
    }
}

/// Queues granting or revoking an account's sell-limit exemption.
pub fn queue_set_no_sell_limit(gov: &mut GovernanceState, initiator: &Address, now: i64, account: Address, value: bool) -> (r: Result<Transaction, GovernanceError>)
    ensures
        queue_outcome(
            *old(gov),
            *final(gov),
            r,
            token_target_error(*old(gov), *initiator, account),
            *initiator,
            now,
            TransactionType::NoSellLimit,
            account.bytes@,
            address_flag_bytes(account, value),
        ),
{
    match check_token_target(gov, initiator, &account) {
        Some(e) => Err(e),
        None => {
            let data = encode_address_flag(&account, value);
            queue_transaction(gov, initiator, now, TransactionType::NoSellLimit, account, data)
        },
    }
}

/// Queues marking or unmarking an account as restricted.
pub fn queue_set_restricted(gov: &mut GovernanceState, initiator: &Address, now: i64, account: Address, value: bool) -> (r: Result<Transaction, GovernanceError>)
    ensures
        queue_outcome(
            *old(gov),
            *final(gov),
            r,
            token_target_error(*old(gov), *initiator, account),
            *initiator,
            now,
            TransactionType::Restrict,
            account.bytes@,
            address_flag_bytes(account, value),
        ),
{
    match check_token_target(gov, initiator, &account) {
        Some(e) => Err(e),
        None => {
            let data = encode_address_flag(&account, value);
            queue_transaction(gov, initiator, now, TransactionType::Restrict, account, data)
        },
    }
}

/// Queues marking or unmarking an address as a liquidity pool.
pub fn queue_set_liquidity_pool(gov: &mut GovernanceState, initiator: &Address, now: i64, pool: Address, value: bool) -> (r: Result<Transaction, GovernanceError>)
    ensures
        queue_outcome(
            *old(gov),
            *final(gov),
            r,
            token_target_error(*old(gov), *initiator, pool),
            *initiator,
            now,
            TransactionType::Pair,
            pool.bytes@,
            address_flag_bytes(pool, value),
        ),
{
    match check_token_target(gov, initiator, &pool) {
        Some(e) => Err(e),
        None => {
            let data = encode_address_flag(&pool, value);
            queue_transaction(gov, initiator, now, TransactionType::Pair, pool, data)
        },
    }
}

/// Queues a new bridge address on the token program.
pub fn queue_set_bridge_address(gov: &mut GovernanceState, initiator: &Address, now: i64, bridge_address: Address) -> (r: Result<Transaction, GovernanceError>)
    ensures
        queue_outcome(
            *old(gov),
            *final(gov),
            r,
            token_target_error(*old(gov), *initiator, bridge_address),
            *initiator,
            now,
            TransactionType::SetBridgeAddress,
            bridge_address.bytes@,
            bridge_address.bytes@,
        ),
{
    match check_token_target(gov, initiator, &bridge_address) {
        Some(e) => {
            return Err(e);
        },
        None => {},
    }

    let data = encode_address(&bridge_address);
    queue_transaction(gov, initiator, now, TransactionType::SetBridgeAddress, bridge_address, data)
}

/// Queues a new bond address on the token program.
pub fn queue_set_bond_address(gov: &mut GovernanceState, initiator: &Address, now: i64, bond_address: Address) -> (r: Result<Transaction, GovernanceError>)
    ensures
        queue_outcome(
            *old(gov),
            *final(gov),
            r,
            token_target_error(*old(gov), *initiator, bond_address),
            *initiator,
            now,
            TransactionType::SetBondAddress,
            bond_address.bytes@,
            bond_address.bytes@,
        ),
{
    match check_token_target(gov, initiator, &bond_address) {
        Some(e) => {
            return Err(e);
        },
        None => {},
    }

    let data = encode_address(&bond_address);
    queue_transaction(gov, initiator, now, TransactionType::SetBondAddress, bond_address, data)
}

/// Queues a new treasury address on the presale program.
pub fn queue_set_treasury_address(gov: &mut GovernanceState, initiator: &Address, now: i64, treasury_address: Address) -> (r: Result<Transaction, GovernanceError>)
    ensures
        queue_outcome(
            *old(gov),
            *final(gov),
            r,
            presale_target_error(*old(gov), *initiator, treasury_address),
            *initiator,
            now,
            TransactionType::SetTreasuryAddress,
            treasury_address.bytes@,
            treasury_address.bytes@,
        ),
{
    if !gov.presale_program_set {
        return Err(GovernanceError::PresaleProgramNotSet);
    }
    if !gov.is_authorized_signer(initiator) {
        return Err(GovernanceError::NotAuthorizedSigner);
    }
    if treasury_address.is_zero() {
        return Err(GovernanceError::InvalidAccount);
    }

    let data = encode_address(&treasury_address);
    queue_transaction(gov, initiator, now, TransactionType::SetTreasuryAddress, treasury_address, data)
}

/// Queues a withdrawal of `amount` from the presale vault to the treasury.
pub fn queue_withdraw_to_treasury(gov: &mut GovernanceState, initiator: &Address, now: i64, amount: u64) -> (r: Result<Transaction, GovernanceError>)
    ensures
        queue_outcome(
            *old(gov),
            *final(gov),
            r,
            if !old(gov).presale_program_set {
                Some(GovernanceError::PresaleProgramNotSet)
            } else if !old(gov).is_signer(*initiator) {
                Some(GovernanceError::NotAuthorizedSigner)
            } else if amount == 0 {
                Some(GovernanceError::InvalidAmount)
            } else {
                None
            },
            *initiator,
            now,
            TransactionType::WithdrawToTreasury,
            zero_bytes(),
            u64_le_bytes(amount),
        ),
{
    if !gov.presale_program_set {
        return Err(GovernanceError::PresaleProgramNotSet);
    }
    if !gov.is_authorized_signer(initiator) {
        return Err(GovernanceError::NotAuthorizedSigner);
    }
    if amount == 0 {
        return Err(GovernanceError::InvalidAmount);
    }
    let data = encode_u64(amount);
    queue_transaction(gov, initiator, now, TransactionType::WithdrawToTreasury, Address::zero(), data)
}

/// Checks of a new quorum against the signer list, at queue and at execution time.
pub open spec fn required_approvals_error(g: GovernanceState, required: u8) -> Option<GovernanceError> {
    if required < MIN_REQUIRED_APPROVALS {
        Some(GovernanceError::RequiredApprovalsTooLow)
    } else if required as int > g.signers@.len() {
        Some(GovernanceError::RequiredApprovalsTooHigh)
    } else {
        None
    }
}

/// Checks of a new cooldown against its bounds.
pub open spec fn cooldown_error(period: i64) -> Option<GovernanceError> {
    if period < MIN_COOLDOWN_SECONDS {
        Some(GovernanceError::CooldownPeriodTooLow)
    } else if period > MAX_COOLDOWN_SECONDS {
        Some(GovernanceError::CooldownPeriodTooHigh)
    } else {
        None
    }
}

/// Queues a change of the quorum to `required`.
pub fn queue_set_required_approvals(gov: &mut GovernanceState, initiator: &Address, now: i64, required: u8) -> (r: Result<Transaction, GovernanceError>)
    ensures
        queue_outcome(
            *old(gov),
            *final(gov),
            r,
            if !old(gov).is_signer(*initiator) {
                Some(GovernanceError::NotAuthorizedSigner)
            } else {
                required_approvals_error(*old(gov), required)
            },
            *initiator,
            now,
            TransactionType::SetRequiredApprovals,
            zero_bytes(),
            seq![required],
        ),
{
    if !gov.is_authorized_signer(initiator) {
        return Err(GovernanceError::NotAuthorizedSigner);
    }
    if required < MIN_REQUIRED_APPROVALS {
        return Err(GovernanceError::RequiredApprovalsTooLow);
    }
    if required as usize > gov.signers.len() {
        return Err(GovernanceError::RequiredApprovalsTooHigh);
    }
    let data: Vec<u8> = vec![required];
    proof {
        assert(data@ =~= seq![required]);
    }
    queue_transaction(gov, initiator, now, TransactionType::SetRequiredApprovals, Address::zero(), data)
}

/// Queues a change of the cooldown to `period` seconds.
pub fn queue_set_cooldown_period(gov: &mut GovernanceState, initiator: &Address, now: i64, period: i64) -> (r: Result<Transaction, GovernanceError>)
    ensures
        queue_outcome(
            *old(gov),
            *final(gov),
            r,
            if !old(gov).is_signer(*initiator) {
                Some(GovernanceError::NotAuthorizedSigner)
            } else {
                cooldown_error(period)
            },
            *initiator,
            now,
            TransactionType::SetCooldownPeriod,
            zero_bytes(),
            u64_le_bytes(i64_bits(period)),
        ),
{
    if !gov.is_authorized_signer(initiator) {
        return Err(GovernanceError::NotAuthorizedSigner);
    }
    if period < MIN_COOLDOWN_SECONDS {
        return Err(GovernanceError::CooldownPeriodTooLow);
    }
    if period > MAX_COOLDOWN_SECONDS {
        return Err(GovernanceError::CooldownPeriodTooHigh);
    }
    let data = encode_i64(period);
    queue_transaction(gov, initiator, now, TransactionType::SetCooldownPeriod, Address::zero(), data)
}

/// The first check of `approve_transaction` that fails, if any.
pub open spec fn approve_error(g: GovernanceState, tx: Transaction, tx_id: u64, approver: Address) -> Option<GovernanceError> {
    if tx.id != tx_id {
        Some(GovernanceError::InvalidTransactionId)
    } else if tx.status != TransactionStatus::Pending {
        Some(GovernanceError::TransactionNotPending)
    } else if tx.approved_by(approver) {
        Some(GovernanceError::AlreadyApproved)
    } else if !g.is_signer(approver) {
        Some(GovernanceError::NotAuthorizedSigner)
    } else {
        None
    }
}

/// `b` equals `a` in every field but the approvals and their count.
pub open spec fn same_but_approvals(a: Transaction, b: Transaction) -> bool {
    &&& b.id == a.id
    &&& b.tx_type == a.tx_type
    &&& b.status == a.status
    &&& b.initiator == a.initiator
    &&& b.target == a.target
    &&& b.data == a.data
    &&& b.timestamp == a.timestamp
    &&& b.execute_after == a.execute_after
    &&& b.rejection_reason == a.rejection_reason
    &&& b.rejector == a.rejector
}

/// Records a signer's approval of a pending transaction. Execution is a separate call.
pub fn approve_transaction(gov: &GovernanceState, tx: &mut Transaction, tx_id: u64, approver: &Address) -> (r: Result<(), GovernanceError>)
    requires
        gov.wf(),
        old(tx).wf(),
        gov.approvals_by_signers(old(tx)),
    ensures
        match approve_error(*gov, *old(tx), tx_id, *approver) {
            Some(e) => r == Err::<(), GovernanceError>(e) && *final(tx) == *old(tx),
            None => {
                &&& r is Ok
                &&& same_but_approvals(*old(tx), *final(tx))
                &&& final(tx).approvals@ == old(tx).approvals@.push(*approver)
                &&& final(tx).approval_count == old(tx).approval_count + 1
            },
        },
        final(tx).wf(),
        gov.approvals_by_signers(final(tx)),
{
    if tx.id != tx_id {
        return Err(GovernanceError::InvalidTransactionId);
    }
    if tx.status != TransactionStatus::Pending {
        return Err(GovernanceError::TransactionNotPending);
    }
    if tx.has_approved(*approver) {
        return Err(GovernanceError::AlreadyApproved);
    }
    if !gov.is_authorized_signer(approver) {
        return Err(GovernanceError::NotAuthorizedSigner);
    }
    proof {
        let s = old(tx).approvals@.push(*approver);
        assert(distinct_addrs(s)) by {
            assert forall|i: int, j: int|
                0 <= i < s.len() && 0 <= j < s.len() && i != j implies (#[trigger] s[i]).bytes@
                != (#[trigger] s[j]).bytes@ by {
                if i == s.len() - 1 {
                    assert(old(tx).approvals@[j] == s[j]);
                } else if j == s.len() - 1 {
                    assert(old(tx).approvals@[i] == s[i]);
                }
            }
        }
        assert forall|i: int| 0 <= i < s.len() implies contains_addr(gov.signers@, #[trigger] s[i]) by {
            if i < s.len() - 1 {
                assert(s[i] == old(tx).approvals@[i]);
            }
        }
        lemma_distinct_subset_len(s, gov.signers@);
    }
    tx.add_approval(*approver);
    proof {
        assert forall|i: int| 0 <= i < tx.approvals@.len() implies gov.is_signer(#[trigger] tx.approvals@[i]) by {
            if i < tx.approvals@.len() - 1 {
                assert(tx.approvals@[i] == old(tx).approvals@[i]);
            }
        }
    }
    Ok(())
}

/// The first check of `reject_transaction` that fails, if any.
pub open spec fn reject_error(g: GovernanceState, tx: Transaction, tx_id: u64, rejector: Address, reason: Seq<char>) -> Option<GovernanceError> {
    if tx.id != tx_id {
        Some(GovernanceError::InvalidTransactionId)
    } else if tx.status != TransactionStatus::Pending {
        Some(GovernanceError::TransactionNotPending)
    } else if !g.is_signer(rejector) {
        Some(GovernanceError::NotAuthorizedSigner)
    } else if reason.len() == 0 || utf8_len(reason) > MAX_REASON_LEN {
        Some(GovernanceError::EmptyRejectionReason)
    } else {
        None
    }
}

/// Rejects a pending transaction with a non-empty reason of at most 256 bytes.
pub fn reject_transaction(gov: &GovernanceState, tx: &mut Transaction, tx_id: u64, rejector: &Address, reason: String) -> (r: Result<(), GovernanceError>)
    ensures
        match reject_error(*gov, *old(tx), tx_id, *rejector, reason@) {
            Some(e) => r == Err::<(), GovernanceError>(e) && *final(tx) == *old(tx),
            None => {
                &&& r is Ok
                &&& final(tx).status == TransactionStatus::Rejected
                &&& final(tx).rejection_reason@ == reason@
                &&& final(tx).rejector == *rejector
                &&& final(tx).id == old(tx).id
                &&& final(tx).tx_type == old(tx).tx_type
                &&& final(tx).initiator == old(tx).initiator
                &&& final(tx).target == old(tx).target
                &&& final(tx).data == old(tx).data
                &&& final(tx).timestamp == old(tx).timestamp
                &&& final(tx).execute_after == old(tx).execute_after
                &&& final(tx).approvals == old(tx).approvals
                &&& final(tx).approval_count == old(tx).approval_count
            },
        },
{
    if tx.id != tx_id {
        return Err(GovernanceError::InvalidTransactionId);
    }
    if tx.status != TransactionStatus::Pending {
        return Err(GovernanceError::TransactionNotPending);
    }
    if !gov.is_authorized_signer(rejector) {
        return Err(GovernanceError::NotAuthorizedSigner);
    }
    let text = reason.as_str();
    let byte_len = text.as_bytes().len();
    proof {
        assert(byte_len == utf8_len(reason@));
    }
    if text.is_empty() || byte_len > MAX_REASON_LEN {
        return Err(GovernanceError::EmptyRejectionReason);
    }
    tx.status = TransactionStatus::Rejected;
    tx.rejection_reason = reason;
    tx.rejector = *rejector;
    Ok(())
}

/// The call the dispatcher makes for an executed transaction, or the change
/// it made to the governance record itself.
#[derive(Clone, Copy, Debug)]
pub enum Dispatch {
    SetEmergencyPause { paused: bool },
    SetBlacklist { account: Address, value: bool },
    SetNoSellLimit { account: Address, value: bool },
    SetRestricted { account: Address, value: bool },
    SetLiquidityPool { pool: Address, value: bool },
    SetBridgeAddress { address: Address },
    SetBondAddress { address: Address },
    SetTreasuryAddress { address: Address },
    WithdrawToTreasury { amount: u64 },
    RequiredApprovalsChanged { required: u8 },
    CooldownPeriodChanged { period: i64 },
}

/// Decode failures and account mismatches of a transaction's payload, if any.
pub open spec fn payload_error(g: GovernanceState, tx: Transaction, supplied: Address) -> Option<GovernanceError> {
    let d = tx.data@;
    match tx.tx_type {
        TransactionType::Unpause => None,
        TransactionType::Blacklist | TransactionType::NoSellLimit | TransactionType::Restrict
        | TransactionType::Pair => if d.len() < 33 || address_of(d) != supplied.bytes@ {
            Some(GovernanceError::InvalidAccount)
        } else {
            None
        },
        TransactionType::SetRequiredApprovals => if d.len() < 1 {
            Some(GovernanceError::InvalidRequiredApprovals)
        } else {
            required_approvals_error(g, d[0])
        },
        TransactionType::SetCooldownPeriod => if d.len() < 8 {
            Some(GovernanceError::InvalidCooldownPeriod)
        } else {
            cooldown_error(i64_of_bits(le_u64_of(d)))
        },
        TransactionType::SetBridgeAddress | TransactionType::SetBondAddress
        | TransactionType::SetTreasuryAddress => if d.len() < 32 {
            Some(GovernanceError::InvalidAccount)
        } else {
            None
        },
        TransactionType::WithdrawToTreasury => if d.len() < 8 {
            Some(GovernanceError::InvalidAccount)
        } else {
            None
        },
    }
}

/// The first check of `execute_transaction` that fails, if any.
pub open spec fn execute_error(g: GovernanceState, tx: Transaction, tx_id: u64, now: i64, supplied: Address) -> Option<GovernanceError> {
    if tx.id != tx_id {
        Some(GovernanceError::InvalidTransactionId)
    } else if tx.status != TransactionStatus::Pending {
        Some(GovernanceError::TransactionNotPending)
    } else if now < tx.execute_after {
        Some(GovernanceError::CooldownNotExpired)
    } else if tx.approval_count < g.required_approvals {
        Some(GovernanceError::InsufficientApprovals)
    } else {
        payload_error(g, tx, supplied)
    }
}

/// `d` is what the payload of `tx` decodes to, for its kind.
pub open spec fn dispatch_of(tx: Transaction, d: Dispatch) -> bool {
    let data = tx.data@;
    match d {
        Dispatch::SetEmergencyPause { paused } => tx.tx_type == TransactionType::Unpause && !paused,
        Dispatch::SetBlacklist { account, value } => tx.tx_type == TransactionType::Blacklist
            && account.bytes@ == address_of(data) && value == (data[32] != 0u8),
        Dispatch::SetNoSellLimit { account, value } => tx.tx_type == TransactionType::NoSellLimit
            && account.bytes@ == address_of(data) && value == (data[32] != 0u8),
        Dispatch::SetRestricted { account, value } => tx.tx_type == TransactionType::Restrict
            && account.bytes@ == address_of(data) && value == (data[32] != 0u8),
        Dispatch::SetLiquidityPool { pool, value } => tx.tx_type == TransactionType::Pair
            && pool.bytes@ == address_of(data) && value == (data[32] != 0u8),
        Dispatch::SetBridgeAddress { address } => tx.tx_type == TransactionType::SetBridgeAddress
            && address.bytes@ == address_of(data),
        Dispatch::SetBondAddress { address } => tx.tx_type == TransactionType::SetBondAddress
            && address.bytes@ == address_of(data),
        Dispatch::SetTreasuryAddress { address } => tx.tx_type
            == TransactionType::SetTreasuryAddress && address.bytes@ == address_of(data),
        Dispatch::WithdrawToTreasury { amount } => tx.tx_type
            == TransactionType::WithdrawToTreasury && amount == le_u64_of(data),
        Dispatch::RequiredApprovalsChanged { required } => tx.tx_type
            == TransactionType::SetRequiredApprovals && required == data[0],
        Dispatch::CooldownPeriodChanged { period } => tx.tx_type
            == TransactionType::SetCooldownPeriod && period == i64_of_bits(le_u64_of(data)),
    }
}

/// `b` is `a` after executing `tx`: only the quorum and cooldown kinds change it.
pub open spec fn applied(a: GovernanceState, b: GovernanceState, tx: Transaction) -> bool {
    &&& b.required_approvals == (if tx.tx_type == TransactionType::SetRequiredApprovals {
        tx.data@[0]
    } else {
        a.required_approvals
    })
    &&& b.cooldown_period == (if tx.tx_type == TransactionType::SetCooldownPeriod {
        i64_of_bits(le_u64_of(tx.data@))
    } else {
        a.cooldown_period
    })
    &&& b.authority == a.authority
    &&& b.next_transaction_id == a.next_transaction_id
    &&& b.token_program == a.token_program
    &&& b.token_program_set == a.token_program_set
    &&& b.presale_program == a.presale_program
    &&& b.presale_program_set == a.presale_program_set
    &&& b.bump == a.bump
    &&& b.signers@ == a.signers@
}

/// `b` is `a` with its status set to `s`.
pub open spec fn with_status(a: Transaction, b: Transaction, s: TransactionStatus) -> bool {
    &&& b.status == s
    &&& b.id == a.id
    &&& b.tx_type == a.tx_type
    &&& b.initiator == a.initiator
    &&& b.target == a.target
    &&& b.data == a.data
    &&& b.timestamp == a.timestamp
    &&& b.execute_after == a.execute_after
    &&& b.rejection_reason == a.rejection_reason
    &&& b.rejector == a.rejector
    &&& b.approvals == a.approvals
    &&& b.approval_count == a.approval_count
}

/// Executes a pending transaction whose cooldown has passed and whose
/// approvals reach the quorum. The transaction is claimed (marked
/// `Executed`) and the payload decoded: quorum and cooldown changes are
/// re-validated and applied here; every other kind yields the call to make on
/// the token or presale program. `supplied` is the account handed to the call
/// for the kinds that name one, and must equal the queued address. On any
/// error nothing changes, as the host rolls back a failed call.
pub fn execute_transaction(
    gov: &mut GovernanceState,
    tx: &mut Transaction,
    tx_id: u64,
    now: i64,
    supplied: &Address,
) -> (r: Result<Dispatch, GovernanceError>)
    requires
        old(gov).wf(),
    ensures
        match execute_error(*old(gov), *old(tx), tx_id, now, *supplied) {
            Some(e) => {
                &&& r == Err::<Dispatch, GovernanceError>(e)
                &&& *final(gov) == *old(gov)
                &&& *final(tx) == *old(tx)
            },
            None => {
                &&& r matches Ok(d) && dispatch_of(*old(tx), d)
                &&& with_status(*old(tx), *final(tx), TransactionStatus::Executed)
                &&& applied(*old(gov), *final(gov), *old(tx))
            },
        },
        final(gov).wf(),
{
    if tx.id != tx_id {
        return Err(GovernanceError::InvalidTransactionId);
    }
    if tx.status != TransactionStatus::Pending {
        return Err(GovernanceError::TransactionNotPending);
    }
    if now < tx.execute_after {
        return Err(GovernanceError::CooldownNotExpired);
    }
    if tx.approval_count < gov.required_approvals {
        return Err(GovernanceError::InsufficientApprovals);
    }
    let d = match tx.tx_type {
        TransactionType::Unpause => Dispatch::SetEmergencyPause { paused: false },
        TransactionType::Blacklist | TransactionType::NoSellLimit | TransactionType::Restrict
        | TransactionType::Pair => {
            let (account, value) = match decode_address_flag(&tx.data) {
                Some(p) => p,
                None => {
                    return Err(GovernanceError::InvalidAccount);
                },
            };
            if !account.same_as(supplied) {
                return Err(GovernanceError::InvalidAccount);
            }
            match tx.tx_type {
                TransactionType::Blacklist => Dispatch::SetBlacklist { account, value },
                TransactionType::NoSellLimit => Dispatch::SetNoSellLimit { account, value },
                TransactionType::Restrict => Dispatch::SetRestricted { account, value },
                _ => Dispatch::SetLiquidityPool { pool: account, value },
            }
        },
        TransactionType::SetRequiredApprovals => {
            if tx.data.len() < 1 {
                return Err(GovernanceError::InvalidRequiredApprovals);
            }
            let required = tx.data[0];
            if required < MIN_REQUIRED_APPROVALS {
                return Err(GovernanceError::RequiredApprovalsTooLow);
            }
            if required as usize > gov.signers.len() {
                return Err(GovernanceError::RequiredApprovalsTooHigh);
            }
            Dispatch::RequiredApprovalsChanged { required }
        },
        TransactionType::SetCooldownPeriod => {
            let period = match decode_i64(&tx.data) {
                Some(p) => p,
                None => {
                    return Err(GovernanceError::InvalidCooldownPeriod);
                },
            };
            if period < MIN_COOLDOWN_SECONDS {
                return Err(GovernanceError::CooldownPeriodTooLow);
            }
            if period > MAX_COOLDOWN_SECONDS {
                return Err(GovernanceError::CooldownPeriodTooHigh);
            }
            Dispatch::CooldownPeriodChanged { period }
        },
        TransactionType::SetBridgeAddress | TransactionType::SetBondAddress
        | TransactionType::SetTreasuryAddress => {
            let address = match decode_address(&tx.data) {
                Some(a) => a,
                None => {
                    return Err(GovernanceError::InvalidAccount);
                },
            };
            match tx.tx_type {
                TransactionType::SetBridgeAddress => Dispatch::SetBridgeAddress { address },
                TransactionType::SetBondAddress => Dispatch::SetBondAddress { address },
                _ => Dispatch::SetTreasuryAddress { address },
            }
        },
        TransactionType::WithdrawToTreasury => {
            let amount = match decode_u64(&tx.data) {
                Some(a) => a,
                None => {
                    return Err(GovernanceError::InvalidAccount);
                },
            };
            Dispatch::WithdrawToTreasury { amount }
        },
    };
    tx.status = TransactionStatus::Executed;
    match d {
        Dispatch::RequiredApprovalsChanged { required } => {
            gov.required_approvals = required;
        },
        Dispatch::CooldownPeriodChanged { period } => {
            gov.cooldown_period = period;
        },
        _ => {},
    }
    Ok(d)
}

/// Sets the quorum directly, bypassing the queue. Kept for the deploying
/// authority, who must also be a signer; the new value is validated as a
/// queued change would be.
pub fn set_required_approvals(gov: &mut GovernanceState, caller: &Address, required: u8) -> (r: Result<(), GovernanceError>)
    requires
        old(gov).wf(),
    ensures
        r == (if !old(gov).is_signer(*caller) {
            Err(GovernanceError::NotAuthorizedSigner)
        } else if required < MIN_REQUIRED_APPROVALS {
            Err(GovernanceError::RequiredApprovalsTooLow)
        } else if old(gov).authority.bytes@ != caller.bytes@ {
            Err(GovernanceError::Unauthorized)
        } else if required as int > old(gov).signers@.len() {
            Err(GovernanceError::RequiredApprovalsTooHigh)
        } else {
            Ok(())
        }),
        r is Err ==> *final(gov) == *old(gov),
        r is Ok ==> final(gov).required_approvals == required && same_but_quorum(*old(gov), *final(gov))
            && final(gov).cooldown_period == old(gov).cooldown_period,
        final(gov).wf(),
{
    if !gov.is_authorized_signer(caller) {
        return Err(GovernanceError::NotAuthorizedSigner);
    }
    if required < MIN_REQUIRED_APPROVALS {
        return Err(GovernanceError::RequiredApprovalsTooLow);
    }
    if !gov.authority.same_as(caller) {
        return Err(GovernanceError::Unauthorized);
    }
    if required as usize > gov.signers.len() {
        return Err(GovernanceError::RequiredApprovalsTooHigh);
    }
    gov.required_approvals = required;
    Ok(())
}

/// `b` equals `a` but for the quorum and the cooldown.
pub open spec fn same_but_quorum(a: GovernanceState, b: GovernanceState) -> bool {
    &&& b.authority == a.authority
    &&& b.next_transaction_id == a.next_transaction_id
    &&& b.token_program == a.token_program
    &&& b.token_program_set == a.token_program_set
    &&& b.presale_program == a.presale_program
    &&& b.presale_program_set == a.presale_program_set
    &&& b.bump == a.bump
    &&& b.signers@ == a.signers@
}

/// Sets the cooldown directly, bypassing the queue. Kept for the deploying
/// authority, who must also be a signer; the new value must lie within the
/// cooldown bounds.
pub fn set_cooldown_period(gov: &mut GovernanceState, caller: &Address, period: i64) -> (r: Result<(), GovernanceError>)
    requires
        old(gov).wf(),
    ensures
        r == (if !old(gov).is_signer(*caller) {
            Err(GovernanceError::NotAuthorizedSigner)
        } else if period < MIN_COOLDOWN_SECONDS {
            Err(GovernanceError::CooldownPeriodTooLow)
        } else if old(gov).authority.bytes@ != caller.bytes@ {
            Err(GovernanceError::Unauthorized)
        } else if period > MAX_COOLDOWN_SECONDS {
            Err(GovernanceError::CooldownPeriodTooHigh)
        } else {
            Ok(())
        }),
        r is Err ==> *final(gov) == *old(gov),
        r is Ok ==> final(gov).cooldown_period == period && same_but_quorum(*old(gov), *final(gov))
            && final(gov).required_approvals == old(gov).required_approvals,
        final(gov).wf(),
{
    if !gov.is_authorized_signer(caller) {
        return Err(GovernanceError::NotAuthorizedSigner);
    }
    if period < MIN_COOLDOWN_SECONDS {
        return Err(GovernanceError::CooldownPeriodTooLow);
    }
    if !gov.authority.same_as(caller) {
        return Err(GovernanceError::Unauthorized);
    }
    if period > MAX_COOLDOWN_SECONDS {
        return Err(GovernanceError::CooldownPeriodTooHigh);
    }
    gov.cooldown_period = period;
    Ok(())
}

/// Grants `role` to `account`; a signer may not grant a role to itself.
pub fn grant_role(gov: &GovernanceState, caller: &Address, role: u8, account: Address) -> (r: Result<Role, GovernanceError>)
    ensures
        !gov.is_signer(*caller) ==> r == Err::<Role, GovernanceError>(GovernanceError::NotAuthorizedSigner),
        gov.is_signer(*caller) && account.bytes@ == caller.bytes@ ==> r == Err::<Role, GovernanceError>(
            GovernanceError::Unauthorized,
        ),
        gov.is_signer(*caller) && account.bytes@ != caller.bytes@ ==> (r matches Ok(g) && g.account
            == account && g.role == role && g.has_role),
{
    if !gov.is_authorized_signer(caller) {
        return Err(GovernanceError::NotAuthorizedSigner);
    }
    if account.same_as(caller) {
        return Err(GovernanceError::Unauthorized);
    }
    Ok(Role { account, role, has_role: true })
}

/// Clears `role` from the role record of `account`.
pub fn revoke_role(gov: &GovernanceState, role_account: &mut Role, caller: &Address, role: u8, account: Address) -> (r: Result<(), GovernanceError>)
    ensures
        r == (if !gov.is_signer(*caller) {
            Err(GovernanceError::NotAuthorizedSigner)
        } else if old(role_account).account.bytes@ != account.bytes@ {
            Err(GovernanceError::InvalidAccount)
        } else if old(role_account).role != role {
            Err(GovernanceError::InvalidRole)
        } else {
            Ok(())
        }),
        r is Err ==> *final(role_account) == *old(role_account),
        r is Ok ==> final(role_account).account == old(role_account).account && final(role_account).role
            == role && !final(role_account).has_role,
{
    if !gov.is_authorized_signer(caller) {
        return Err(GovernanceError::NotAuthorizedSigner);
    }
    if !role_account.account.same_as(&account) {
        return Err(GovernanceError::InvalidAccount);
    }
    if role_account.role != role {
        return Err(GovernanceError::InvalidRole);
    }
    role_account.has_role = false;
    Ok(())
}

/// Any signer may pause the token program at once, without the queue.
pub fn emergency_pause(gov: &GovernanceState, caller: &Address) -> (r: Result<Dispatch, GovernanceError>)
    ensures
        !gov.is_signer(*caller) ==> (r matches Err(e) && e == GovernanceError::NotAuthorizedSigner),
        gov.is_signer(*caller) && !gov.token_program_set ==> (r matches Err(e) && e
            == GovernanceError::TokenProgramNotSet),
        gov.is_signer(*caller) && gov.token_program_set ==> (r matches Ok(
            Dispatch::SetEmergencyPause { paused },
        ) && paused),
{
    if !gov.is_authorized_signer(caller) {
        return Err(GovernanceError::NotAuthorizedSigner);
    }
    if !gov.token_program_set {
        return Err(GovernanceError::TokenProgramNotSet);
    }
    Ok(Dispatch::SetEmergencyPause { paused: true })
}

/// A successful queue operation of any kind, as every `queue_*` function states it.
pub open spec fn queued(a: GovernanceState, b: GovernanceState, tx: Transaction, now: i64) -> bool {
    id_advanced(a, b) && tx.id == a.next_transaction_id && tx.execute_after == now + a.cooldown_period
}

/// Each queue operation of any kind hands out the current id and advances
/// it by exactly one, so ids of successive queue operations strictly increase
/// and are never reused.
pub proof fn lemma_ids_strictly_increase(
    g0: GovernanceState,
    g1: GovernanceState,
    g2: GovernanceState,
    t1: Transaction,
    t2: Transaction,
    now1: i64,
    now2: i64,
)
    requires
        queued(g0, g1, t1, now1),
        queued(g1, g2, t2, now2),
    ensures
        t2.id == t1.id + 1,
        g2.next_transaction_id == g0.next_transaction_id + 2,
        t1.id < g2.next_transaction_id && t2.id < g2.next_transaction_id,
{
}

/// Over any run of queue operations, of whatever kinds, the k-th transaction
/// gets the starting id plus k, so no two of them share an id.
pub proof fn lemma_ids_never_reused(gs: Seq<GovernanceState>, txs: Seq<Transaction>, nows: Seq<i64>)
    requires
        gs.len() == txs.len() + 1,
        nows.len() == txs.len(),
        forall|k: int| 0 <= k < txs.len() ==> queued(#[trigger] gs[k], gs[k + 1], txs[k], nows[k]),
    ensures
        forall|k: int| 0 <= k < txs.len() ==> (#[trigger] txs[k]).id == gs[0].next_transaction_id + k,
        forall|i: int, j: int| 0 <= i < j < txs.len() ==> (#[trigger] txs[i]).id < (#[trigger] txs[j]).id,
    decreases txs.len(),
{
    if txs.len() > 0 {
        let n = txs.len() - 1;
        lemma_ids_never_reused(gs.take(n + 1), txs.take(n), nows.take(n));
        assert(queued(gs[n], gs[n + 1], txs[n], nows[n]));
        assert forall|k: int| 0 <= k < txs.len() implies (#[trigger] txs[k]).id == gs[0].next_transaction_id + k by {
            if k < n {
                assert(txs.take(n)[k] == txs[k]);
            } else {
                assert(gs.take(n + 1)[n] == gs[n]);
                if n > 0 {
                    assert(txs.take(n)[n - 1] == txs[n - 1]);
                    assert(queued(gs[n - 1], gs[n], txs[n - 1], nows[n - 1]));
                }
            }
        }
    }
}

/// A queue outcome that succeeded is a queue step in the sense of `queued`,
/// with `execute_after` fixed as the queue time plus the cooldown of that moment.
pub proof fn lemma_queue_outcome_is_step(
    a: GovernanceState,
    b: GovernanceState,
    r: Result<Transaction, GovernanceError>,
    pre: Option<GovernanceError>,
    initiator: Address,
    now: i64,
    ty: TransactionType,
    target: Seq<u8>,
    data: Seq<u8>,
)
    requires
        queue_outcome(a, b, r, pre, initiator, now, ty, target, data),
        r is Ok,
    ensures
        queued(a, b, r->Ok_0, now),
        r->Ok_0.execute_after == now + a.cooldown_period,
        r->Ok_0.id == a.next_transaction_id,
{
}

/// A transaction queued under one cooldown keeps its `execute_after` when
/// the cooldown later changes: executing the change alters only the
/// governance record and the change's own transaction, whose
/// `execute_after` stays as well.
pub proof fn lemma_cooldown_change_keeps_queued(
    g0: GovernanceState,
    g1: GovernanceState,
    queued_tx: Transaction,
    now: i64,
    g2: GovernanceState,
    change: Transaction,
    change_after: Transaction,
)
    requires
        queued(g0, g1, queued_tx, now),
        change.tx_type == TransactionType::SetCooldownPeriod,
        applied(g1, g2, change),
        with_status(change, change_after, TransactionStatus::Executed),
    ensures
        queued_tx.execute_after == now + g0.cooldown_period,
        g2.cooldown_period == i64_of_bits(le_u64_of(change.data@)),
        change_after.execute_after == change.execute_after,
{
}

/// The payloads that queuing writes decode, at execution, to the queued
/// parameters: the address and flag, the withdrawal amount, the cooldown.
pub proof fn lemma_payload_round_trips(a: Address, v: bool, amount: u64, period: i64)
    ensures
        address_of(address_flag_bytes(a, v)) == a.bytes@,
        (address_flag_bytes(a, v)[32] != 0u8) == v,
        le_u64_of(u64_le_bytes(amount)) == amount,
        i64_of_bits(le_u64_of(u64_le_bytes(i64_bits(period)))) == period,
{
    crate::codec::lemma_address_flag_round_trip(a, v);
    crate::codec::lemma_u64_le_round_trip(amount);
    crate::codec::lemma_u64_le_round_trip(i64_bits(period));
    crate::codec::lemma_i64_bits_round_trip(period);
}

/// A blacklist-kind transaction queued for `(a, v)` and later executed
/// dispatches the call for exactly `a` and `v`.
pub proof fn lemma_blacklist_dispatch_round_trip(g: GovernanceState, tx: Transaction, initiator: Address, now: i64, a: Address, v: bool, account: Address, value: bool)
    requires
        fresh_transaction(g, tx, initiator, now, TransactionType::Blacklist, a.bytes@, address_flag_bytes(a, v)),
        dispatch_of(tx, Dispatch::SetBlacklist { account, value }),
    ensures
        account.bytes@ == a.bytes@,
        value == v,
{
    crate::codec::lemma_address_flag_round_trip(a, v);
}

/// `initialize` succeeds exactly on a configuration with a quorum of at
/// least two and at most the signer count, at most ten pairwise-distinct
/// signers, and a cooldown within its bounds; otherwise it names the
/// violated bound and creates nothing.
pub proof fn lemma_initialize_validates(required_approvals: u8, cooldown_period: i64, signers: Seq<Address>)
    ensures
        initialize_error(required_approvals, cooldown_period, signers) is None <==> {
            &&& MIN_REQUIRED_APPROVALS <= required_approvals
            &&& required_approvals as int <= signers.len()
            &&& signers.len() <= MAX_SIGNERS
            &&& distinct_addrs(signers)
            &&& MIN_COOLDOWN_SECONDS <= cooldown_period <= MAX_COOLDOWN_SECONDS
        },
        required_approvals < MIN_REQUIRED_APPROVALS ==> initialize_error(required_approvals, cooldown_period, signers)
            == Some(GovernanceError::RequiredApprovalsTooLow),
{
}

/// A pending transaction cannot be approved twice by the same signer.
pub proof fn lemma_approve_once(g: GovernanceState, tx: Transaction, who: Address)
    requires
        tx.status == TransactionStatus::Pending,
        tx.approved_by(who),
    ensures
        approve_error(g, tx, tx.id, who) == Some(GovernanceError::AlreadyApproved),
{
}

/// Once a transaction is executed or rejected, approving, rejecting and
/// executing it all fail with `TransactionNotPending`.
pub proof fn lemma_terminal_is_final(
    g: GovernanceState,
    tx: Transaction,
    who: Address,
    reason: Seq<char>,
    now: i64,
    supplied: Address,
)
    requires
        tx.status == TransactionStatus::Executed || tx.status == TransactionStatus::Rejected,
    ensures
        approve_error(g, tx, tx.id, who) == Some(GovernanceError::TransactionNotPending),
        reject_error(g, tx, tx.id, who, reason) == Some(GovernanceError::TransactionNotPending),
        execute_error(g, tx, tx.id, now, supplied) == Some(GovernanceError::TransactionNotPending),
{
}

/// Execution before `execute_after` fails with `CooldownNotExpired`; after it,
/// too few approvals fail with `InsufficientApprovals`, whatever the order in
/// which approvals and execution attempts came.
pub proof fn lemma_execute_gates(g: GovernanceState, tx: Transaction, now: i64, supplied: Address)
    requires
        tx.status == TransactionStatus::Pending,
    ensures
        now < tx.execute_after ==> execute_error(g, tx, tx.id, now, supplied) == Some(
            GovernanceError::CooldownNotExpired,
        ),
        now >= tx.execute_after && tx.approval_count < g.required_approvals ==> execute_error(
            g,
            tx,
            tx.id,
            now,
            supplied,
        ) == Some(GovernanceError::InsufficientApprovals),
{
}

} // verus!
