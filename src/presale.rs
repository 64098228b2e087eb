//! Presale: status lifecycle, caps, purchases for an allow-listed payment
//! token or for native currency at an oracle price, and treasury withdrawals.
use vstd::prelude::*;
use crate::address::Address;
use crate::codec::le_u64_of;
use crate::layout::{
    token_state_paused_spec, token_state_paused, flag_set_spec, flag_set, token_account_is,
    check_token_account, from_offset, token_account_amount,
};

verus! {

/// Decimals the oracle feed must report.
pub const CHAINLINK_DECIMALS: u8 = 8;

/// Decimals of the native currency (lamports per unit is 10^9).
pub const SOL_DECIMALS: u8 = 9;

pub const LAMPORTS_PER_SOL: u64 = 1_000_000_000;

/// Decimals of the presale token.
pub const TOKEN_DECIMALS: u8 = 8;

/// Oldest acceptable oracle round, in seconds.
pub const PRICE_FEED_STALENESS_THRESHOLD_SECONDS: i64 = 3600;

/// 10^6: micro-dollars per dollar.
pub const MICRO_USD: u128 = 1_000_000;

/// 10^8: base units per presale token.
pub const TOKEN_UNIT: u128 = 100_000_000;

/// 10^9: lamports per unit of native currency.
pub const SOL_UNIT: u128 = 1_000_000_000;

/// 10^8: scale of the oracle price.
pub const ORACLE_UNIT: u128 = 100_000_000;

/// Numerator of the token amount for `paid` lamports at oracle price `price`.
pub open spec fn sol_numerator(paid: int, price: int) -> int {
    paid * price * 1_000_000 * 100_000_000
}

/// Denominator of the token amount at a token price of `price_micro` micro-dollars.
pub open spec fn sol_denominator(price_micro: int) -> int {
    price_micro * 1_000_000_000 * 100_000_000
}

/// Token base units bought with `paid` lamports: rounded down, never in the buyer's favour.
pub open spec fn tokens_for_sol(paid: int, price: int, price_micro: int) -> int {
    sol_numerator(paid, price) / sol_denominator(price_micro)
}

/// Whether the widened computation of the token amount overflows 128 bits
/// or yields more than 64 bits.
pub open spec fn tokens_overflow(paid: int, price: int, price_micro: int) -> bool {
    sol_numerator(paid, price) > u128::MAX || tokens_for_sol(paid, price, price_micro) > u64::MAX
}

/// Token base units for `paid` lamports at oracle price `price` (8 decimals)
/// and a token price of `price_micro` micro-dollars. Every product is
/// checked in 128 bits; an overflow, or a result beyond 64 bits, is `Overflow`.
pub fn compute_tokens_for_sol(paid: u64, price: u128, price_micro: u64) -> (r: Result<u64, PresaleError>)
    requires
        price_micro > 0,
    ensures
        tokens_overflow(paid as int, price as int, price_micro as int) ==> r == Err::<u64, PresaleError>(PresaleError::Overflow),
        !tokens_overflow(paid as int, price as int, price_micro as int) ==> r == Ok::<u64, PresaleError>(tokens_for_sol(paid as int, price as int, price_micro as int) as u64),
{
    let p = paid as u128;
    proof {
        assert(p * price <= p * price * 1_000_000) by (nonlinear_arith)
            requires p * price >= 0;
        assert(p * price * 1_000_000 <= p * price * 1_000_000 * 100_000_000) by (nonlinear_arith)
            requires p * price * 1_000_000 >= 0;
        assert(0 <= p * price) by (nonlinear_arith);
    }
    let a = match p.checked_mul(price) {
        Some(v) => v,
        None => {
            return Err(PresaleError::Overflow);
        },
    };
    let b = match a.checked_mul(MICRO_USD) {
        Some(v) => v,
        None => {
            return Err(PresaleError::Overflow);
        },
    };
    let c = match b.checked_mul(TOKEN_UNIT) {
        Some(v) => v,
        None => {
            return Err(PresaleError::Overflow);
        },
    };
    let m = price_micro as u128;
    proof {
        assert(m * 1_000_000_000 * 100_000_000 <= u64::MAX as int * 1_000_000_000 * 100_000_000) by (nonlinear_arith)
            requires m <= u64::MAX;
        assert(m * 1_000_000_000 * 100_000_000 > 0) by (nonlinear_arith)
            requires m > 0;
    }
    let den = m * SOL_UNIT * ORACLE_UNIT;
    let q = c / den;
    if q > u64::MAX as u128 {
        return Err(PresaleError::Overflow);
    }
    Ok(q as u64)
}

/// The token amount grows with the amount paid and with the oracle price.
pub proof fn lemma_tokens_monotonic(paid1: int, paid2: int, price1: int, price2: int, price_micro: int)
    requires
        0 <= paid1 <= paid2,
        0 <= price1 <= price2,
        price_micro > 0,
    ensures
        tokens_for_sol(paid1, price1, price_micro) <= tokens_for_sol(paid2, price2, price_micro),
{
    assert(paid1 * price1 <= paid2 * price2) by (nonlinear_arith)
        requires 0 <= paid1 <= paid2, 0 <= price1 <= price2;
    assert(sol_numerator(paid1, price1) <= sol_numerator(paid2, price2)) by (nonlinear_arith)
        requires paid1 * price1 <= paid2 * price2, paid1 * price1 >= 0;
    assert(sol_denominator(price_micro) > 0) by (nonlinear_arith)
        requires price_micro > 0;
    vstd::arithmetic::div_mod::lemma_div_is_ordered(
        sol_numerator(paid1, price1),
        sol_numerator(paid2, price2),
        sol_denominator(price_micro),
    );
}

/// Inputs that make the widened product overflow are rejected as `Overflow`,
/// never wrapped: the contract of `compute_tokens_for_sol` leaves no other outcome.
pub proof fn lemma_large_inputs_rejected(paid: int, price: int, price_micro: int)
    requires
        sol_numerator(paid, price) > u128::MAX,
    ensures
        tokens_overflow(paid, price, price_micro),
{
}

#[derive(Clone, Copy, Debug, PartialEq, Eq, Structural)]
pub enum PresaleError {
    Unauthorized,
    PresaleNotActive,
    PaymentTokenNotAllowed,
    InvalidStatus,
    Overflow,
    TokenEmergencyPaused,
    InvalidTokenProgramState,
    TreasuryNotSet,
    InvalidTreasuryAccount,
    InvalidTreasuryAddress,
    PresaleCapExceeded,
    PerUserLimitExceeded,
    InvalidAccount,
    InvalidAmount,
    BuyerBlacklisted,
    InvalidPrice,
    StalePrice,
}

#[derive(Clone, Copy, Debug, PartialEq, Eq, Structural)]
pub enum PresaleStatus {
    NotStarted,
    Active,
    Paused,
    Stopped,
}

/// The singleton presale record.
#[derive(Clone, Copy, Debug)]
pub struct PresaleState {
    pub admin: Address,
    pub authority: Address,
    pub governance: Address,
    pub token_program: Address,
    pub token_program_state: Address,
    pub presale_token_mint: Address,
    pub status: PresaleStatus,
    pub total_tokens_sold: u64,
    pub total_raised: u64,
    pub governance_set: bool,
    pub treasury_address: Address,
    pub max_presale_cap: u64,
    pub max_per_user: u64,
    pub token_price_usd_micro: u64,
    pub bump: u8,
}

/// Allow-list entry of a payment token.
#[derive(Clone, Copy, Debug)]
pub struct AllowedToken {
    pub presale_state: Address,
    pub payment_token_mint: Address,
    pub is_allowed: bool,
}

/// Running purchases of one buyer; a zero `buyer` marks a fresh record.
#[derive(Clone, Copy, Debug)]
pub struct UserPurchase {
    pub buyer: Address,
    pub total_purchased: u64,
}

/// A withdrawal to be carried out by the token or system program.
#[derive(Clone, Copy, Debug)]
pub struct TreasuryWithdrawn {
    pub amount: u64,
    pub treasury: Address,
}

#[derive(Clone, Copy, Debug)]
pub struct PresaleStarted {
    pub previous_status: u8,
}

#[derive(Clone, Copy, Debug)]
pub struct PresaleStopped {}

#[derive(Clone, Copy, Debug)]
pub struct PresalePaused {}

/// The tag of a status, in declaration order.
pub open spec fn status_tag(s: PresaleStatus) -> u8 {
    match s {
        PresaleStatus::NotStarted => 0,
        PresaleStatus::Active => 1,
        PresaleStatus::Paused => 2,
        PresaleStatus::Stopped => 3,
    }
}

fn status_to_tag(s: PresaleStatus) -> (r: u8)
    ensures
        r == status_tag(s),
{
    match s {
        PresaleStatus::NotStarted => 0,
        PresaleStatus::Active => 1,
        PresaleStatus::Paused => 2,
        PresaleStatus::Stopped => 3,
    }
}

impl PresaleState {
    /// The current authority, or the governance once it has been set.
    pub open spec fn authorizes(&self, caller: Address) -> bool {
        self.authority.bytes@ == caller.bytes@ || (self.governance_set && self.governance.bytes@
            == caller.bytes@)
    }

    pub fn is_authorized(&self, caller: &Address) -> (r: bool)
        ensures
            r == self.authorizes(*caller),
    {
        self.authority.same_as(caller) || (self.governance_set && self.governance.same_as(caller))
    }
}

/// Creates the presale record, not yet started, with no caps.
pub fn initialize(
    admin: Address,
    presale_token_mint: Address,
    token_program: Address,
    token_program_state: Address,
    token_price_usd_micro: u64,
    bump: u8,
) -> (r: Result<PresaleState, PresaleError>)
    ensures
        admin.is_zero_spec() || presale_token_mint.is_zero_spec() || token_program.is_zero_spec()
            || token_program_state.is_zero_spec() ==> r == Err::<PresaleState, PresaleError>(
            PresaleError::InvalidAccount,
        ),
        !(admin.is_zero_spec() || presale_token_mint.is_zero_spec() || token_program.is_zero_spec()
            || token_program_state.is_zero_spec()) && token_price_usd_micro == 0 ==> r == Err::<
            PresaleState,
            PresaleError,
        >(PresaleError::InvalidAmount),
        !(admin.is_zero_spec() || presale_token_mint.is_zero_spec() || token_program.is_zero_spec()
            || token_program_state.is_zero_spec()) && token_price_usd_micro > 0 ==> (r matches Ok(s)
            && s.admin == admin && s.authority == admin && s.governance.is_zero_spec()
            && s.token_program == token_program && s.token_program_state == token_program_state
            && s.presale_token_mint == presale_token_mint && s.status == PresaleStatus::NotStarted
            && s.total_tokens_sold == 0 && s.total_raised == 0 && !s.governance_set
            && s.treasury_address.is_zero_spec() && s.max_presale_cap == 0 && s.max_per_user == 0
            && s.token_price_usd_micro == token_price_usd_micro && s.bump == bump),
{
    if admin.is_zero() || presale_token_mint.is_zero() || token_program.is_zero()
        || token_program_state.is_zero() {
        return Err(PresaleError::InvalidAccount);
    }
    if token_price_usd_micro == 0 {
        return Err(PresaleError::InvalidAmount);
    }
    Ok(PresaleState {
        admin,
        authority: admin,
        governance: Address::zero(),
        token_program,
        token_program_state,
        presale_token_mint,
        status: PresaleStatus::NotStarted,
        total_tokens_sold: 0,
        total_raised: 0,
        governance_set: false,
        treasury_address: Address::zero(),
        max_presale_cap: 0,
        max_per_user: 0,
        token_price_usd_micro,
        bump,
    })
}

/// Hands the authority to the governance address; possible once.
pub fn set_governance(st: &mut PresaleState, caller: &Address, new_authority: Address) -> (r: Result<(), PresaleError>)
    ensures
        r == (if old(st).authority.bytes@ != caller.bytes@ {
            Err(PresaleError::Unauthorized)
        } else if new_authority.is_zero_spec() {
            Err(PresaleError::InvalidAccount)
        } else if old(st).governance_set {
            Err(PresaleError::InvalidStatus)
        } else {
            Ok(())
        }),
        r is Err ==> *final(st) == *old(st),
        r is Ok ==> *final(st) == (PresaleState {
            authority: new_authority,
            governance: new_authority,
            governance_set: true,
            ..*old(st)
        }),
{
    if !st.authority.same_as(caller) {
        return Err(PresaleError::Unauthorized);
    }
    if new_authority.is_zero() {
        return Err(PresaleError::InvalidAccount);
    }
    if st.governance_set {
        return Err(PresaleError::InvalidStatus);
    }
    st.authority = new_authority;
    st.governance = new_authority;
    st.governance_set = true;
    Ok(())
}

/// Points the presale at a token program and its state record.
pub fn set_token_program(st: &mut PresaleState, caller: &Address, token_program: Address, token_program_state: Address) -> (r: Result<(), PresaleError>)
    ensures
        r == (if !old(st).authorizes(*caller) {
            Err(PresaleError::Unauthorized)
        } else if token_program.is_zero_spec() || token_program_state.is_zero_spec() {
            Err(PresaleError::InvalidAccount)
        } else {
            Ok(())
        }),
        r is Err ==> *final(st) == *old(st),
        r is Ok ==> *final(st) == (PresaleState { token_program, token_program_state, ..*old(st) }),
{
    if !st.is_authorized(caller) {
        return Err(PresaleError::Unauthorized);
    }
    if token_program.is_zero() || token_program_state.is_zero() {
        return Err(PresaleError::InvalidAccount);
    }
    st.token_program = token_program;
    st.token_program_state = token_program_state;
    Ok(())
}

/// Starts, or resumes, the sale.
pub fn start_presale(st: &mut PresaleState, caller: &Address) -> (r: Result<PresaleStarted, PresaleError>)
    ensures
        old(st).authority.bytes@ != caller.bytes@ ==> (r matches Err(e) && e == PresaleError::Unauthorized),
        old(st).authority.bytes@ == caller.bytes@ && old(st).status != PresaleStatus::NotStarted
            && old(st).status != PresaleStatus::Paused ==> (r matches Err(e) && e
            == PresaleError::InvalidStatus),
        r is Err ==> *final(st) == *old(st),
        old(st).authority.bytes@ == caller.bytes@ && (old(st).status == PresaleStatus::NotStarted
            || old(st).status == PresaleStatus::Paused) ==> (r matches Ok(ev) && ev.previous_status
            == status_tag(old(st).status) && *final(st) == (PresaleState {
            status: PresaleStatus::Active,
            ..*old(st)
        })),
{
    if !st.authority.same_as(caller) {
        return Err(PresaleError::Unauthorized);
    }
    if st.status != PresaleStatus::NotStarted && st.status != PresaleStatus::Paused {
        return Err(PresaleError::InvalidStatus);
    }
    let previous_status = status_to_tag(st.status);
    st.status = PresaleStatus::Active;
    Ok(PresaleStarted { previous_status })
}

/// Ends the sale for good.
pub fn stop_presale(st: &mut PresaleState, caller: &Address) -> (r: Result<PresaleStopped, PresaleError>)
    ensures
        old(st).authority.bytes@ != caller.bytes@ ==> (r matches Err(e) && e == PresaleError::Unauthorized),
        old(st).authority.bytes@ == caller.bytes@ && old(st).status != PresaleStatus::Active ==> (r matches Err(e)
            && e == PresaleError::InvalidStatus),
        r is Err ==> *final(st) == *old(st),
        old(st).authority.bytes@ == caller.bytes@ && old(st).status == PresaleStatus::Active ==> (r is Ok
            && *final(st) == (PresaleState { status: PresaleStatus::Stopped, ..*old(st) })),
{
    if !st.authority.same_as(caller) {
        return Err(PresaleError::Unauthorized);
    }
    if st.status != PresaleStatus::Active {
        return Err(PresaleError::InvalidStatus);
    }
    st.status = PresaleStatus::Stopped;
    Ok(PresaleStopped {  })
}

/// Pauses an active sale.
pub fn pause_presale(st: &mut PresaleState, caller: &Address) -> (r: Result<PresalePaused, PresaleError>)
    ensures
        old(st).authority.bytes@ != caller.bytes@ ==> (r matches Err(e) && e == PresaleError::Unauthorized),
        old(st).authority.bytes@ == caller.bytes@ && old(st).status != PresaleStatus::Active ==> (r matches Err(e)
            && e == PresaleError::InvalidStatus),
        r is Err ==> *final(st) == *old(st),
        old(st).authority.bytes@ == caller.bytes@ && old(st).status == PresaleStatus::Active ==> (r is Ok
            && *final(st) == (PresaleState { status: PresaleStatus::Paused, ..*old(st) })),
{
    if !st.authority.same_as(caller) {
        return Err(PresaleError::Unauthorized);
    }
    if st.status != PresaleStatus::Active {
        return Err(PresaleError::InvalidStatus);
    }
    st.status = PresaleStatus::Paused;
    Ok(PresalePaused {  })
}

/// The allow-list entry that admits `payment_token_mint` as payment.
pub fn allow_payment_token(presale_state: Address, payment_token_mint: Address) -> (r: AllowedToken)
    ensures
        r.presale_state == presale_state,
        r.payment_token_mint == payment_token_mint,
        r.is_allowed,
{
    AllowedToken { presale_state, payment_token_mint, is_allowed: true }
}

/// Withdraws a payment token from the allow-list.
pub fn disallow_payment_token(allowed: &mut AllowedToken)
    ensures
        *final(allowed) == (AllowedToken { is_allowed: false, ..*old(allowed) }),
{
    allowed.is_allowed = false;
}

/// Sets the token price in micro-dollars.
pub fn set_token_price_usd(st: &mut PresaleState, caller: &Address, token_price_usd_micro: u64) -> (r: Result<(), PresaleError>)
    ensures
        r == (if !old(st).authorizes(*caller) {
            Err(PresaleError::Unauthorized)
        } else if token_price_usd_micro == 0 {
            Err(PresaleError::InvalidAmount)
        } else {
            Ok(())
        }),
        r is Err ==> *final(st) == *old(st),
        r is Ok ==> *final(st) == (PresaleState { token_price_usd_micro, ..*old(st) }),
{
    if !st.is_authorized(caller) {
        return Err(PresaleError::Unauthorized);
    }
    if token_price_usd_micro == 0 {
        return Err(PresaleError::InvalidAmount);
    }
    st.token_price_usd_micro = token_price_usd_micro;
    Ok(())
}

/// Sets the treasury that withdrawals go to.
pub fn set_treasury_address(st: &mut PresaleState, caller: &Address, treasury_address: Address) -> (r: Result<(), PresaleError>)
    ensures
        r == (if !old(st).authorizes(*caller) {
            Err(PresaleError::Unauthorized)
        } else if treasury_address.is_zero_spec() {
            Err(PresaleError::InvalidTreasuryAddress)
        } else {
            Ok(())
        }),
        r is Err ==> *final(st) == *old(st),
        r is Ok ==> *final(st) == (PresaleState { treasury_address, ..*old(st) }),
{
    if !st.is_authorized(caller) {
        return Err(PresaleError::Unauthorized);
    }
    if treasury_address.is_zero() {
        return Err(PresaleError::InvalidTreasuryAddress);
    }
    st.treasury_address = treasury_address;
    Ok(())
}

/// The first check of a cap change that fails, if any: the sale must not be
/// stopped, a non-zero cap must cover what was raised, and a non-zero
/// per-user cap must not exceed a non-zero cap.
pub open spec fn limits_error(st: PresaleState, caller: Address, new_cap: Option<u64>, new_max: Option<u64>) -> Option<PresaleError> {
    let cap = match new_cap {
        Some(c) => c,
        None => st.max_presale_cap,
    };
    if !st.authorizes(caller) {
        Some(PresaleError::Unauthorized)
    } else if st.status == PresaleStatus::Stopped {
        Some(PresaleError::InvalidStatus)
    } else if new_cap matches Some(c) && c > 0 && c < st.total_raised {
        Some(PresaleError::InvalidAmount)
    } else if new_max matches Some(m) && m > 0 && cap > 0 && m > cap {
        Some(PresaleError::InvalidAmount)
    } else {
        None
    }
}

/// Updates either limit or both, atomically. `None` keeps a limit; 0 means unlimited.
pub fn update_presale_limits(st: &mut PresaleState, caller: &Address, new_presale_cap: Option<u64>, new_max_per_user: Option<u64>) -> (r: Result<(), PresaleError>)
    ensures
        match limits_error(*old(st), *caller, new_presale_cap, new_max_per_user) {
            Some(e) => r == Err::<(), PresaleError>(e) && *final(st) == *old(st),
            None => r is Ok && *final(st) == (PresaleState {
                max_presale_cap: match new_presale_cap {
                    Some(c) => c,
                    None => old(st).max_presale_cap,
                },
                max_per_user: match new_max_per_user {
                    Some(m) => m,
                    None => old(st).max_per_user,
                },
                ..*old(st)
            }),
        },
{
    if !st.is_authorized(caller) {
        return Err(PresaleError::Unauthorized);
    }
    if st.status == PresaleStatus::Stopped {
        return Err(PresaleError::InvalidStatus);
    }
    let mut effective_cap = st.max_presale_cap;
    if let Some(c) = new_presale_cap {
        if c > 0 && c < st.total_raised {
            return Err(PresaleError::InvalidAmount);
        }
        effective_cap = c;
    }
    if let Some(m) = new_max_per_user {
        if m > 0 && effective_cap > 0 && m > effective_cap {
            return Err(PresaleError::InvalidAmount);
        }
    }
    if let Some(c) = new_presale_cap {
        st.max_presale_cap = c;
    }
    if let Some(m) = new_max_per_user {
        st.max_per_user = m;
    }
    Ok(())
}

/// Sets the overall cap; 0 means unlimited. A non-zero cap must cover what
/// was raised and a non-zero per-user cap.
pub fn update_presale_cap(st: &mut PresaleState, caller: &Address, new_cap: u64) -> (r: Result<(), PresaleError>)
    ensures
        match (if !old(st).authorizes(*caller) {
            Some(PresaleError::Unauthorized)
        } else if new_cap > 0 && new_cap < old(st).total_raised {
            Some(PresaleError::InvalidAmount)
        } else if new_cap > 0 && old(st).max_per_user > 0 && old(st).max_per_user > new_cap {
            Some(PresaleError::InvalidAmount)
        } else if old(st).status == PresaleStatus::Stopped {
            Some(PresaleError::InvalidStatus)
        } else {
            None
        }) {
            Some(e) => r == Err::<(), PresaleError>(e) && *final(st) == *old(st),
            None => r is Ok && *final(st) == (PresaleState { max_presale_cap: new_cap, ..*old(st) }),
        },
{
    if !st.is_authorized(caller) {
        return Err(PresaleError::Unauthorized);
    }
    if new_cap > 0 && new_cap < st.total_raised {
        return Err(PresaleError::InvalidAmount);
    }
    if new_cap > 0 && st.max_per_user > 0 && st.max_per_user > new_cap {
        return Err(PresaleError::InvalidAmount);
    }
    if st.status == PresaleStatus::Stopped {
        return Err(PresaleError::InvalidStatus);
    }
    st.max_presale_cap = new_cap;
    Ok(())
}

/// Sets the per-user cap; 0 means unlimited.
pub fn update_max_per_user(st: &mut PresaleState, caller: &Address, new_max: u64) -> (r: Result<(), PresaleError>)
    ensures
        match (if !old(st).authorizes(*caller) {
            Some(PresaleError::Unauthorized)
        } else if new_max > 0 && old(st).max_presale_cap > 0 && new_max > old(st).max_presale_cap {
            Some(PresaleError::InvalidAmount)
        } else if old(st).status == PresaleStatus::Stopped {
            Some(PresaleError::InvalidStatus)
        } else {
            None
        }) {
            Some(e) => r == Err::<(), PresaleError>(e) && *final(st) == *old(st),
            None => r is Ok && *final(st) == (PresaleState { max_per_user: new_max, ..*old(st) }),
        },
{
    if !st.is_authorized(caller) {
        return Err(PresaleError::Unauthorized);
    }
    if new_max > 0 && st.max_presale_cap > 0 && new_max > st.max_presale_cap {
        return Err(PresaleError::InvalidAmount);
    }
    if st.status == PresaleStatus::Stopped {
        return Err(PresaleError::InvalidStatus);
    }
    st.max_per_user = new_max;
    Ok(())
}

/// Accounts a stable-token purchase reads, as raw bytes where the program
/// inspects their layout directly.
pub struct BuyAccounts {
    pub token_state: Vec<u8>,
    pub buyer_blacklist_key: Address,
    pub buyer_blacklist: Vec<u8>,
    pub payment_token_mint: Address,
    pub buyer_payment_token_account: Vec<u8>,
    pub buyer_token_account: Vec<u8>,
    pub presale_payment_vault: Vec<u8>,
    pub presale_payment_vault_pda: Address,
    pub presale_token_vault: Vec<u8>,
    pub presale_token_vault_pda: Address,
}

/// One round of the oracle feed, as read from the feed account.
#[derive(Clone, Copy, Debug)]
pub struct OracleRound {
    pub answer: i128,
    pub timestamp: u32,
    pub decimals: u8,
}

/// Accounts and readings a native-currency purchase depends on.
pub struct SolPurchaseInputs {
    pub buyer_lamports: u64,
    pub token_state: Vec<u8>,
    pub buyer_blacklist_key: Address,
    pub buyer_blacklist: Vec<u8>,
    /// Data of the oracle feed account.
    pub feed_data: Vec<u8>,
    pub feed_owner: Address,
    pub now: i64,
    pub presale_token_vault: Vec<u8>,
    pub presale_token_vault_pda: Address,
}

/// Answer, timestamp and decimals of the latest round that the oracle SDK
/// reads from a feed account's data and owner, or `None` when it reads none.
pub uninterp spec fn chainlink_round_of(data: Seq<u8>, owner: Seq<u8>) -> Option<(i128, u32, u8)>;

/// The round that the oracle SDK reads from a feed account.
pub open spec fn feed_round(data: Seq<u8>, owner: Seq<u8>) -> Option<OracleRound> {
    match chainlink_round_of(data, owner) {
        Some((answer, timestamp, decimals)) => Some(OracleRound { answer, timestamp, decimals }),
        None => None,
    }
}

/// Shortest feed data the oracle SDK reads without panicking: it splits the
/// data after the 8-byte tag and the 192-byte header.
pub const FEED_MIN_LEN: usize = 200;

/// Relies on chainlink_solana's `v2::read_feed_v2` with the feed's
/// `latest_round_data` and `decimals`: the latest round of a feed account, or
/// `None` when the data is not a readable feed owned by the oracle store
/// program. The SDK keeps the account layout to itself, so the result is
/// named rather than spelled out; it depends on the data and owner alone.
/// The SDK splits the data at byte 200 unchecked, so shorter data is excluded.
#[verifier::external_body]
fn read_oracle_round(feed_data: &Vec<u8>, feed_owner: &Address) -> (r: Option<OracleRound>)
    requires
        feed_data@.len() >= FEED_MIN_LEN,
    ensures
        match chainlink_round_of(feed_data@, feed_owner.bytes@) {
            Some((answer, timestamp, decimals)) => r == Some(OracleRound { answer, timestamp, decimals }),
            None => r is None,
        },
{
    let mut bytes = feed_data.clone();
    let cell = std::cell::RefCell::new(bytes.as_mut_slice());
    let feed = chainlink_solana::v2::read_feed_v2(cell.borrow(), feed_owner.bytes).ok()?;
    let round = feed.latest_round_data()?;
    Some(OracleRound { answer: round.answer, timestamp: round.timestamp, decimals: feed.decimals() })
}

/// The account that owns every genuine oracle feed.
pub open spec fn chainlink_program_id_bytes() -> Seq<u8> {
    seq![
        241u8, 75u8, 246u8, 90u8, 213u8, 107u8, 210u8, 186u8, 113u8, 94u8, 69u8, 116u8, 44u8, 35u8,
        31u8, 39u8, 214u8, 54u8, 33u8, 207u8, 91u8, 119u8, 143u8, 55u8, 193u8, 162u8, 72u8, 149u8,
        29u8, 23u8, 86u8, 2u8,
    ]
}

pub fn chainlink_program_id() -> (r: Address)
    ensures
        r.bytes@ == chainlink_program_id_bytes(),
{
    let r = Address {
        bytes: [
            241, 75, 246, 90, 213, 107, 210, 186, 113, 94, 69, 116, 44, 35, 31, 39, 214, 54, 33,
            207, 91, 119, 143, 55, 193, 162, 72, 149, 29, 23, 86, 2,
        ],
    };
    assert(r.bytes@ =~= chainlink_program_id_bytes());
    r
}

/// The first 32 bytes of `d` name `mint`.
pub open spec fn mint_is(d: Seq<u8>, mint: Address) -> bool {
    d.len() >= 32 && d.subrange(0, 32) == mint.bytes@
}

fn check_mint(data: &Vec<u8>, mint: &Address) -> (r: bool)
    ensures
        r == mint_is(data@, *mint),
{
    match crate::codec::decode_address(data) {
        Some(m) => m.same_as(mint),
        None => false,
    }
}

/// The cap checks of a purchase of `tokens`, if one fails.
pub open spec fn caps_error(st: PresaleState, user: UserPurchase, tokens: int) -> Option<PresaleError> {
    if st.max_presale_cap > 0 && st.total_tokens_sold + tokens > u64::MAX {
        Some(PresaleError::Overflow)
    } else if st.max_presale_cap > 0 && st.total_tokens_sold + tokens > st.max_presale_cap {
        Some(PresaleError::PresaleCapExceeded)
    } else if st.max_per_user > 0 && user.total_purchased + tokens > u64::MAX {
        Some(PresaleError::Overflow)
    } else if st.max_per_user > 0 && user.total_purchased + tokens > st.max_per_user {
        Some(PresaleError::PerUserLimitExceeded)
    } else {
        None
    }
}

/// What the buyer's record holds before a purchase is added: a fresh record counts from zero.
pub open spec fn prior_total(user: UserPurchase) -> int {
    if user.buyer.is_zero_spec() {
        0
    } else {
        user.total_purchased as int
    }
}

/// Whether the running totals overflow when a purchase is recorded.
pub open spec fn totals_overflow(st: PresaleState, user: UserPurchase, tokens: int, paid: int) -> bool {
    st.total_tokens_sold + tokens > u64::MAX || st.total_raised + paid > u64::MAX || prior_total(user)
        + tokens > u64::MAX
}

/// The records after a purchase of `tokens` for `paid` by `buyer`.
pub open spec fn recorded(
    st0: PresaleState,
    st1: PresaleState,
    u0: UserPurchase,
    u1: UserPurchase,
    buyer: Address,
    tokens: int,
    paid: int,
) -> bool {
    &&& st1 == PresaleState {
        total_tokens_sold: (st0.total_tokens_sold + tokens) as u64,
        total_raised: (st0.total_raised + paid) as u64,
        ..st0
    }
    &&& u1.buyer == (if u0.buyer.is_zero_spec() {
        buyer
    } else {
        u0.buyer
    })
    &&& u1.total_purchased == prior_total(u0) + tokens
}

fn check_caps(st: &PresaleState, user: &UserPurchase, tokens: u64) -> (r: Option<PresaleError>)
    ensures
        r == caps_error(*st, *user, tokens as int),
{
    if st.max_presale_cap > 0 {
        match st.total_tokens_sold.checked_add(tokens) {
            None => {
                return Some(PresaleError::Overflow);
            },
            Some(t) => {
                if t > st.max_presale_cap {
                    return Some(PresaleError::PresaleCapExceeded);
                }
            },
        }
    }
    if st.max_per_user > 0 {
        match user.total_purchased.checked_add(tokens) {
            None => {
                return Some(PresaleError::Overflow);
            },
            Some(t) => {
                if t > st.max_per_user {
                    return Some(PresaleError::PerUserLimitExceeded);
                }
            },
        }
    }
    None
}

fn record_purchase(st: &mut PresaleState, user: &mut UserPurchase, buyer: &Address, tokens: u64, paid: u64) -> (r: Result<(), PresaleError>)
    ensures
        totals_overflow(*old(st), *old(user), tokens as int, paid as int) ==> r == Err::<(), PresaleError>(PresaleError::Overflow)
            && *final(st) == *old(st) && *final(user) == *old(user),
        !totals_overflow(*old(st), *old(user), tokens as int, paid as int) ==> r is Ok && recorded(
            *old(st),
            *final(st),
            *old(user),
            *final(user),
            *buyer,
            tokens as int,
            paid as int,
        ),
{
    let sold = match st.total_tokens_sold.checked_add(tokens) {
        Some(v) => v,
        None => {
            return Err(PresaleError::Overflow);
        },
    };
    let raised = match st.total_raised.checked_add(paid) {
        Some(v) => v,
        None => {
            return Err(PresaleError::Overflow);
        },
    };
    let fresh = user.buyer.is_zero();
    let prior = if fresh {
        0
    } else {
        user.total_purchased
    };
    let total = match prior.checked_add(tokens) {
        Some(v) => v,
        None => {
            return Err(PresaleError::Overflow);
        },
    };
    st.total_tokens_sold = sold;
    st.total_raised = raised;
    if fresh {
        user.buyer = *buyer;
    }
    user.total_purchased = total;
    Ok(())
}

/// The first check of a stable-token purchase that fails, if any.
pub open spec fn buy_error(st: PresaleState, user: UserPurchase, allowed: AllowedToken, amount: u64, acc: BuyAccounts) -> Option<PresaleError> {
    if st.status != PresaleStatus::Active {
        Some(PresaleError::PresaleNotActive)
    } else if token_state_paused_spec(acc.token_state@) {
        Some(PresaleError::TokenEmergencyPaused)
    } else if flag_set_spec(acc.buyer_blacklist_key, acc.buyer_blacklist@) {
        Some(PresaleError::BuyerBlacklisted)
    } else if !allowed.is_allowed || !mint_is(acc.buyer_payment_token_account@, acc.payment_token_mint)
        || !mint_is(acc.buyer_token_account@, st.presale_token_mint) {
        Some(PresaleError::PaymentTokenNotAllowed)
    } else if caps_error(st, user, amount as int) is Some {
        caps_error(st, user, amount as int)
    } else if !token_account_is(acc.presale_payment_vault@, acc.payment_token_mint, acc.presale_payment_vault_pda)
        || !token_account_is(acc.presale_token_vault@, st.presale_token_mint, acc.presale_token_vault_pda) {
        Some(PresaleError::PaymentTokenNotAllowed)
    } else if totals_overflow(st, user, amount as int, amount as int) {
        Some(PresaleError::Overflow)
    } else {
        None
    }
}

/// Buys presale tokens one for one with an allow-listed payment token. On
/// success the caller moves `amount` of the payment token into the vault and
/// the same number of presale tokens to the buyer; the totals are recorded here.
pub fn buy(st: &mut PresaleState, user: &mut UserPurchase, allowed: &AllowedToken, buyer: &Address, amount: u64, acc: &BuyAccounts) -> (r: Result<(), PresaleError>)
    ensures
        match buy_error(*old(st), *old(user), *allowed, amount, *acc) {
            Some(e) => r == Err::<(), PresaleError>(e) && *final(st) == *old(st) && *final(user) == *old(user),
            None => r is Ok && recorded(*old(st), *final(st), *old(user), *final(user), *buyer, amount as int, amount as int),
        },
{
    if st.status != PresaleStatus::Active {
        return Err(PresaleError::PresaleNotActive);
    }
    if token_state_paused(&acc.token_state) {
        return Err(PresaleError::TokenEmergencyPaused);
    }
    if flag_set(&acc.buyer_blacklist_key, &acc.buyer_blacklist) {
        return Err(PresaleError::BuyerBlacklisted);
    }
    if !allowed.is_allowed || !check_mint(&acc.buyer_payment_token_account, &acc.payment_token_mint)
        || !check_mint(&acc.buyer_token_account, &st.presale_token_mint) {
        return Err(PresaleError::PaymentTokenNotAllowed);
    }
    let tokens_to_receive = amount;
    if let Some(e) = check_caps(st, user, tokens_to_receive) {
        return Err(e);
    }
    if !check_token_account(&acc.presale_payment_vault, &acc.payment_token_mint, &acc.presale_payment_vault_pda)
        || !check_token_account(&acc.presale_token_vault, &st.presale_token_mint, &acc.presale_token_vault_pda) {
        return Err(PresaleError::PaymentTokenNotAllowed);
    }
    record_purchase(st, user, buyer, tokens_to_receive, amount)
}

/// The oracle checks of a native-currency purchase, if one fails.
pub open spec fn oracle_error(round: Option<OracleRound>, inp: SolPurchaseInputs) -> Option<PresaleError> {
    match round {
        None => Some(PresaleError::InvalidPrice),
        Some(round) => if round.answer <= 0 || round.decimals != CHAINLINK_DECIMALS || inp.now
            - round.timestamp < i64::MIN {
            Some(PresaleError::InvalidPrice)
        } else if inp.now - round.timestamp > PRICE_FEED_STALENESS_THRESHOLD_SECONDS {
            Some(PresaleError::StalePrice)
        } else if inp.feed_owner.bytes@ != chainlink_program_id_bytes() {
            Some(PresaleError::InvalidPrice)
        } else {
            None
        },
    }
}

/// The first check of a native-currency purchase that fails, if any.
pub open spec fn buy_with_sol_error(
    st: PresaleState,
    user: UserPurchase,
    sol_amount: u64,
    round: Option<OracleRound>,
    inp: SolPurchaseInputs,
) -> Option<PresaleError> {
    let price = round->Some_0.answer as int;
    let tokens = tokens_for_sol(sol_amount as int, price, st.token_price_usd_micro as int);
    if st.status != PresaleStatus::Active {
        Some(PresaleError::PresaleNotActive)
    } else if sol_amount == 0 || inp.buyer_lamports < sol_amount {
        Some(PresaleError::InvalidAmount)
    } else if token_state_paused_spec(inp.token_state@) {
        Some(PresaleError::TokenEmergencyPaused)
    } else if flag_set_spec(inp.buyer_blacklist_key, inp.buyer_blacklist@) {
        Some(PresaleError::BuyerBlacklisted)
    } else if oracle_error(round, inp) is Some {
        oracle_error(round, inp)
    } else if st.token_price_usd_micro == 0 {
        Some(PresaleError::InvalidAmount)
    } else if tokens_overflow(sol_amount as int, price, st.token_price_usd_micro as int) {
        Some(PresaleError::Overflow)
    } else if tokens == 0 {
        Some(PresaleError::InvalidAmount)
    } else if caps_error(st, user, tokens) is Some {
        caps_error(st, user, tokens)
    } else if !token_account_is(inp.presale_token_vault@, st.presale_token_mint, inp.presale_token_vault_pda) {
        Some(PresaleError::PaymentTokenNotAllowed)
    } else if totals_overflow(st, user, tokens, sol_amount as int) {
        Some(PresaleError::Overflow)
    } else {
        None
    }
}

/// The round read from a feed account; data shorter than a feed header and
/// one transmission slot reads as no round.
pub open spec fn feed_round_checked(data: Seq<u8>, owner: Seq<u8>) -> Option<OracleRound> {
    if data.len() < FEED_MIN_LEN {
        None
    } else {
        feed_round(data, owner)
    }
}

/// Buys presale tokens with native currency at the oracle price, returning
/// the token amount. The oracle feed is read from its account (data too short
/// to be a feed counts as unreadable, `InvalidPrice`); the rest is
/// `buy_with_sol_at_round` on the round read.
pub fn buy_with_sol(st: &mut PresaleState, user: &mut UserPurchase, buyer: &Address, sol_amount: u64, inp: &SolPurchaseInputs) -> (r: Result<u64, PresaleError>)
    ensures
        sol_outcome(
            *old(st),
            *final(st),
            *old(user),
            *final(user),
            *buyer,
            sol_amount,
            feed_round_checked(inp.feed_data@, inp.feed_owner.bytes@),
            *inp,
            r,
        ),
{
    let round = if inp.feed_data.len() < FEED_MIN_LEN {
        None
    } else {
        read_oracle_round(&inp.feed_data, &inp.feed_owner)
    };
    buy_with_sol_at_round(st, user, buyer, sol_amount, round, inp)
}

/// Outcome of a native-currency purchase at oracle round `round`.
pub open spec fn sol_outcome(
    st0: PresaleState,
    st1: PresaleState,
    u0: UserPurchase,
    u1: UserPurchase,
    buyer: Address,
    sol_amount: u64,
    round: Option<OracleRound>,
    inp: SolPurchaseInputs,
    r: Result<u64, PresaleError>,
) -> bool {
    match buy_with_sol_error(st0, u0, sol_amount, round, inp) {
        Some(e) => r == Err::<u64, PresaleError>(e) && st1 == st0 && u1 == u0,
        None => r matches Ok(t) && t == tokens_for_sol(
            sol_amount as int,
            round->Some_0.answer as int,
            st0.token_price_usd_micro as int,
        ) && recorded(st0, st1, u0, u1, buyer, t as int, sol_amount as int),
    }
}

/// A native-currency purchase at a given oracle round (`None` when the feed
/// could not be read). The round must be positive, carry 8 decimals, be at
/// most an hour old and come from a feed owned by the oracle program. On
/// success the caller moves `sol_amount` into the vault and the returned
/// amount of tokens to the buyer; the totals are recorded here.
pub fn buy_with_sol_at_round(
    st: &mut PresaleState,
    user: &mut UserPurchase,
    buyer: &Address,
    sol_amount: u64,
    round: Option<OracleRound>,
    inp: &SolPurchaseInputs,
) -> (r: Result<u64, PresaleError>)
    ensures
        sol_outcome(*old(st), *final(st), *old(user), *final(user), *buyer, sol_amount, round, *inp, r),
{
    if st.status != PresaleStatus::Active {
        return Err(PresaleError::PresaleNotActive);
    }
    if sol_amount == 0 || inp.buyer_lamports < sol_amount {
        return Err(PresaleError::InvalidAmount);
    }
    if token_state_paused(&inp.token_state) {
        return Err(PresaleError::TokenEmergencyPaused);
    }
    if flag_set(&inp.buyer_blacklist_key, &inp.buyer_blacklist) {
        return Err(PresaleError::BuyerBlacklisted);
    }
    let round = match round {
        Some(r) => r,
        None => {
            return Err(PresaleError::InvalidPrice);
        },
    };
    if round.answer <= 0 || round.decimals != CHAINLINK_DECIMALS {
        return Err(PresaleError::InvalidPrice);
    }
    let age = match inp.now.checked_sub(round.timestamp as i64) {
        Some(a) => a,
        None => {
            return Err(PresaleError::InvalidPrice);
        },
    };
    if age > PRICE_FEED_STALENESS_THRESHOLD_SECONDS {
        return Err(PresaleError::StalePrice);
    }
    if !inp.feed_owner.same_as(&chainlink_program_id()) {
        return Err(PresaleError::InvalidPrice);
    }
    if st.token_price_usd_micro == 0 {
        return Err(PresaleError::InvalidAmount);
    }
    let tokens = match compute_tokens_for_sol(sol_amount, round.answer as u128, st.token_price_usd_micro) {
        Ok(t) => t,
        Err(e) => {
            return Err(e);
        },
    };
    if tokens == 0 {
        return Err(PresaleError::InvalidAmount);
    }
    if let Some(e) = check_caps(st, user, tokens) {
        return Err(e);
    }
    if !check_token_account(&inp.presale_token_vault, &st.presale_token_mint, &inp.presale_token_vault_pda) {
        return Err(PresaleError::PaymentTokenNotAllowed);
    }
    match record_purchase(st, user, buyer, tokens, sol_amount) {
        Ok(()) => Ok(tokens),
        Err(e) => Err(e),
    }
}

/// Balance held by a token account's data, when present.
pub open spec fn balance_of(d: Seq<u8>) -> int {
    le_u64_of(from_offset(d, 64)) as int
}

/// The first check of a payment-token withdrawal that fails, if any.
pub open spec fn withdraw_error(
    st: PresaleState,
    caller: Address,
    amount: u64,
    treasury_token_account: Seq<u8>,
    payment_token_mint: Address,
    vault: Seq<u8>,
    vault_pda: Address,
) -> Option<PresaleError> {
    if !st.authorizes(caller) {
        Some(PresaleError::Unauthorized)
    } else if st.treasury_address.is_zero_spec() {
        Some(PresaleError::TreasuryNotSet)
    } else if !token_account_is(treasury_token_account, payment_token_mint, st.treasury_address)
        || !token_account_is(vault, payment_token_mint, vault_pda) {
        Some(PresaleError::InvalidTreasuryAccount)
    } else if amount == 0 || vault.len() < 72 || balance_of(vault) < amount {
        Some(PresaleError::InvalidAmount)
    } else {
        None
    }
}

/// Validates moving `amount` of a payment token from the presale vault to
/// the treasury's token account; the caller performs the transfer.
pub fn withdraw_to_treasury(
    st: &PresaleState,
    caller: &Address,
    amount: u64,
    treasury_token_account: &Vec<u8>,
    payment_token_mint: &Address,
    vault: &Vec<u8>,
    vault_pda: &Address,
) -> (r: Result<TreasuryWithdrawn, PresaleError>)
    ensures
        match withdraw_error(*st, *caller, amount, treasury_token_account@, *payment_token_mint, vault@, *vault_pda) {
            Some(e) => r matches Err(x) && x == e,
            None => r matches Ok(w) && w.amount == amount && w.treasury == st.treasury_address,
        },
{
    if !st.is_authorized(caller) {
        return Err(PresaleError::Unauthorized);
    }
    if st.treasury_address.is_zero() {
        return Err(PresaleError::TreasuryNotSet);
    }
    if !check_token_account(treasury_token_account, payment_token_mint, &st.treasury_address)
        || !check_token_account(vault, payment_token_mint, vault_pda) {
        return Err(PresaleError::InvalidTreasuryAccount);
    }
    if amount == 0 {
        return Err(PresaleError::InvalidAmount);
    }
    match token_account_amount(vault) {
        Some(balance) => {
            if balance < amount {
                return Err(PresaleError::InvalidAmount);
            }
        },
        None => {
            return Err(PresaleError::InvalidAmount);
        },
    }
    Ok(TreasuryWithdrawn { amount, treasury: st.treasury_address })
}

/// Validates moving `amount` lamports from the presale's native vault to the treasury.
pub fn withdraw_sol_to_treasury(st: &PresaleState, caller: &Address, amount: u64, vault_lamports: u64) -> (r: Result<TreasuryWithdrawn, PresaleError>)
    ensures
        !st.authorizes(*caller) ==> (r matches Err(e) && e == PresaleError::Unauthorized),
        st.authorizes(*caller) && st.treasury_address.is_zero_spec() ==> (r matches Err(e) && e
            == PresaleError::TreasuryNotSet),
        st.authorizes(*caller) && !st.treasury_address.is_zero_spec() && (amount == 0
            || vault_lamports < amount) ==> (r matches Err(e) && e == PresaleError::InvalidAmount),
        st.authorizes(*caller) && !st.treasury_address.is_zero_spec() && amount > 0 && vault_lamports
            >= amount ==> (r matches Ok(w) && w.amount == amount && w.treasury == st.treasury_address),
{
    if !st.is_authorized(caller) {
        return Err(PresaleError::Unauthorized);
    }
    if st.treasury_address.is_zero() {
        return Err(PresaleError::TreasuryNotSet);
    }
    if amount == 0 || vault_lamports < amount {
        return Err(PresaleError::InvalidAmount);
    }
    Ok(TreasuryWithdrawn { amount, treasury: st.treasury_address })
}

/// The first check of a withdrawal of unsold tokens that fails, if any.
pub open spec fn withdraw_unsold_error(
    st: PresaleState,
    caller: Address,
    amount: u64,
    destination_token_account: Seq<u8>,
    destination: Address,
    vault: Seq<u8>,
    vault_pda: Address,
) -> Option<PresaleError> {
    if !st.authorizes(caller) {
        Some(PresaleError::Unauthorized)
    } else if amount == 0 {
        Some(PresaleError::InvalidAmount)
    } else if !token_account_is(destination_token_account, st.presale_token_mint, destination)
        || !token_account_is(vault, st.presale_token_mint, vault_pda) {
        Some(PresaleError::InvalidTreasuryAccount)
    } else if vault.len() < 72 || balance_of(vault) < amount {
        Some(PresaleError::InvalidAmount)
    } else {
        None
    }
}

/// Validates moving `amount` unsold presale tokens from the vault to `destination`.
pub fn withdraw_unsold_tokens(
    st: &PresaleState,
    caller: &Address,
    amount: u64,
    destination_token_account: &Vec<u8>,
    destination: &Address,
    vault: &Vec<u8>,
    vault_pda: &Address,
) -> (r: Result<TreasuryWithdrawn, PresaleError>)
    ensures
        match withdraw_unsold_error(*st, *caller, amount, destination_token_account@, *destination, vault@, *vault_pda) {
            Some(e) => r matches Err(x) && x == e,
            None => r matches Ok(w) && w.amount == amount && w.treasury == *destination,
        },
{
    if !st.is_authorized(caller) {
        return Err(PresaleError::Unauthorized);
    }
    if amount == 0 {
        return Err(PresaleError::InvalidAmount);
    }
    if !check_token_account(destination_token_account, &st.presale_token_mint, destination)
        || !check_token_account(vault, &st.presale_token_mint, vault_pda) {
        return Err(PresaleError::InvalidTreasuryAccount);
    }
    match token_account_amount(vault) {
        Some(balance) => {
            if balance < amount {
                return Err(PresaleError::InvalidAmount);
            }
        },
        None => {
            return Err(PresaleError::InvalidAmount);
        },
    }
    Ok(TreasuryWithdrawn { amount, treasury: *destination })
}

/// Offset of the authority in the stored presale record (after the 8-byte tag and the admin).
pub const STORED_AUTHORITY_OFFSET: usize = 40;

/// Offset of the governance address read during migration.
pub const STORED_GOVERNANCE_OFFSET: usize = 72;

/// Offset of the governance flag read during migration.
pub const STORED_GOVERNANCE_SET_OFFSET: usize = 104;

/// Offset of the token price in the stored presale record.
pub const TOKEN_PRICE_USD_MICRO_OFFSET: usize = 265;

/// Size of the stored presale record in its current layout, tag included.
pub const PRESALE_STATE_SPACE: usize = 275;

/// The stored record grown to the current size; new bytes are zero.
pub open spec fn grown(d: Seq<u8>) -> Seq<u8> {
    if d.len() < PRESALE_STATE_SPACE {
        d + Seq::new((PRESALE_STATE_SPACE - d.len()) as nat, |_i: int| 0u8)
    } else {
        d
    }
}

/// `d` with eight bytes at `off` replaced by `b`.
pub open spec fn overwrite(d: Seq<u8>, off: int, b: Seq<u8>) -> Seq<u8> {
    d.subrange(0, off) + b + d.subrange(off + 8, d.len() as int)
}

/// Whether `caller` may migrate the stored record `d`: it is the stored
/// authority, or the stored governance with its flag set.
pub open spec fn migration_authorized(d: Seq<u8>, caller: Address) -> bool {
    d.subrange(40, 72) == caller.bytes@ || (d.len() >= 105 && d.subrange(72, 104) == caller.bytes@
        && d[104] != 0u8)
}

fn range_is(data: &Vec<u8>, start: usize, a: &Address) -> (r: bool)
    requires
        start + 32 <= data@.len(),
    ensures
        r == (data@.subrange(start as int, start + 32) == a.bytes@),
{
    let n = data.len();
    let mut i: usize = 0;
    while i < 32
        invariant
            0 <= i <= 32,
            n == data@.len(),
            start + 32 <= data@.len(),
            a.bytes@.len() == 32,
            forall|j: int| 0 <= j < i ==> data@[start + j] == a.bytes@[j],
        decreases 32 - i,
    {
        if data[start + i] != a.bytes[i] {
            assert(data@.subrange(start as int, start + 32)[i as int] != a.bytes@[i as int]);
            return false;
        }
        i = i + 1;
    }
    assert(data@.subrange(start as int, start + 32) =~= a.bytes@);
    true
}

/// Outcome of migrating the stored record `d0` to `d1`.
pub open spec fn migration_outcome(
    d0: Seq<u8>,
    d1: Seq<u8>,
    at_expected_address: bool,
    caller: Address,
    token_price_usd_micro: u64,
    r: Result<u64, PresaleError>,
) -> bool {
    let err = if token_price_usd_micro == 0 {
        Some(PresaleError::InvalidAmount)
    } else if !at_expected_address || d0.len() < 72 {
        Some(PresaleError::InvalidAccount)
    } else if !migration_authorized(d0, caller) {
        Some(PresaleError::Unauthorized)
    } else {
        None
    };
    match err {
        Some(e) => r == Err::<u64, PresaleError>(e) && d1 == d0,
        None => r == Ok::<u64, PresaleError>(le_u64_of(grown(d0).subrange(265, 273))) && d1 == overwrite(
            grown(d0),
            265,
            crate::codec::u64_le_bytes(token_price_usd_micro),
        ),
    }
}

/// Seed of the presale record's derived address.
pub const PRESALE_STATE_SEED: &'static str = "presale_state";

/// The address derived from `seed` under `program_id`, as the host derives it.
pub uninterp spec fn derived_address_of(seed: Seq<char>, program_id: Seq<u8>) -> Option<Seq<u8>>;

/// Relies on anchor_lang's `Pubkey::try_find_program_address` with the single
/// seed `seed`: the derived address under `program_id`, or `None` when no
/// bump yields one; it depends on the seed and the program id alone.
#[verifier::external_body]
fn derived_address(seed: &str, program_id: &Address) -> (r: Option<Address>)
    ensures
        match derived_address_of(seed@, program_id.bytes@) {
            Some(a) => r matches Some(x) && x.bytes@ == a,
            None => r is None,
        },
{
    let program = anchor_lang::prelude::Pubkey::new_from_array(program_id.bytes);
    let seeds: [&[u8]; 1] = [seed.as_bytes()];
    let (pda, _bump) = anchor_lang::prelude::Pubkey::try_find_program_address(&seeds, &program)?;
    Some(Address { bytes: pda.to_bytes() })
}

/// Migrates the stored presale record held by the account `account_key` of
/// program `program_id`, which must sit at the record's derived address; see
/// `migrate_stored_record`.
pub fn migrate_presale_state(
    data: &mut Vec<u8>,
    account_key: &Address,
    program_id: &Address,
    caller: &Address,
    token_price_usd_micro: u64,
) -> (r: Result<u64, PresaleError>)
    ensures
        migration_outcome(
            old(data)@,
            final(data)@,
            derived_address_of(PRESALE_STATE_SEED@, program_id.bytes@) == Some(account_key.bytes@),
            *caller,
            token_price_usd_micro,
            r,
        ),
{
    let at_expected_address = match derived_address(PRESALE_STATE_SEED, program_id) {
        Some(a) => a.same_as(account_key),
        None => false,
    };
    migrate_stored_record(data, at_expected_address, caller, token_price_usd_micro)
}

/// Brings a stored presale record of an older, shorter layout to the current
/// one and sets its token price, returning the value found in the price
/// field (0 on a record that had none). `at_expected_address` tells whether
/// the account sits at the presale record's derived address; the caller
/// funds and performs the reallocation to the returned data's length.
pub fn migrate_stored_record(
    data: &mut Vec<u8>,
    at_expected_address: bool,
    caller: &Address,
    token_price_usd_micro: u64,
) -> (r: Result<u64, PresaleError>)
    ensures
        migration_outcome(old(data)@, final(data)@, at_expected_address, *caller, token_price_usd_micro, r),
{
    if token_price_usd_micro == 0 {
        return Err(PresaleError::InvalidAmount);
    }
    if !at_expected_address {
        return Err(PresaleError::InvalidAccount);
    }
    if data.len() < 72 {
        return Err(PresaleError::InvalidAccount);
    }
    let is_admin = range_is(data, STORED_AUTHORITY_OFFSET, caller);
    let is_governance = data.len() >= 105 && range_is(data, STORED_GOVERNANCE_OFFSET, caller)
        && data[STORED_GOVERNANCE_SET_OFFSET] != 0;
    if !is_admin && !is_governance {
        return Err(PresaleError::Unauthorized);
    }
    let ghost d0 = data@;
    while data.len() < PRESALE_STATE_SPACE
        invariant
            d0.len() <= data@.len() <= (if d0.len() < PRESALE_STATE_SPACE {
                PRESALE_STATE_SPACE as int
            } else {
                d0.len() as int
            }),
            data@.subrange(0, d0.len() as int) == d0,
            forall|j: int| d0.len() <= j < data@.len() ==> data@[j] == 0u8,
        decreases PRESALE_STATE_SPACE - data@.len(),
    {
        data.push(0u8);
    }
    assert(data@ =~= grown(d0));
    let ghost g = data@;
    let off = TOKEN_PRICE_USD_MICRO_OFFSET;
    let previous = (data[off] as u64) | ((data[off + 1] as u64) << 8u64) | ((data[off + 2] as u64)
        << 16u64) | ((data[off + 3] as u64) << 24u64) | ((data[off + 4] as u64) << 32u64) | ((data[off
        + 5] as u64) << 40u64) | ((data[off + 6] as u64) << 48u64) | ((data[off + 7] as u64) << 56u64);
    assert(previous == le_u64_of(g.subrange(265, 273)));
    let bytes = crate::codec::encode_u64(token_price_usd_micro);
    let mut i: usize = 0;
    while i < 8
        invariant
            0 <= i <= 8,
            off == 265,
            bytes@.len() == 8,
            data@.len() == g.len(),
            g.len() >= 275,
            forall|j: int| 0 <= j < data@.len() && !(265 <= j < 265 + i) ==> data@[j] == g[j],
            forall|j: int| 0 <= j < i ==> data@[265 + j] == bytes@[j],
        decreases 8 - i,
    {
        data.set(off + i, bytes[i]);
        assert(data@.len() == g.len());
        i = i + 1;
    }
    assert(data@ =~= overwrite(g, 265, bytes@));
    Ok(previous)
}

} // verus!
