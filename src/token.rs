//! Token compliance engine: pause, blacklist, restriction, whitelist mode,
//! sell limits towards liquidity pools, capped minting, and a two-step,
//! time-locked hand-over of its authority.
use vstd::prelude::*;
use crate::address::Address;
use crate::layout::{flag_set_spec, flag_set};
use crate::codec::le_u64_of;
use anchor_spl::token::spl_token::solana_program::program_pack::Pack;
use anchor_spl::token::spl_token::state::Account as SplTokenAccount;

verus! {

/// Delay between proposing and completing an authority hand-over (7 days).
pub const GOVERNANCE_COOLDOWN_SECONDS: i64 = 604800;

pub const CURRENT_VERSION: u16 = 1;

pub const MIN_COMPATIBLE_VERSION: u16 = 1;

/// Share of the balance that may be sold to pools per window, in percent.
pub const DEFAULT_SELL_LIMIT_PERCENT: u8 = 10;

/// Length of the sell-limit window, in seconds (24 hours).
pub const DEFAULT_SELL_LIMIT_PERIOD: u64 = 86400;

/// Shortest mint account the program accepts.
pub const MINT_ACCOUNT_MIN_LEN: usize = 82;

#[derive(Clone, Copy, Debug, PartialEq, Eq, Structural)]
pub enum TokenError {
    EmergencyPaused,
    Blacklisted,
    Restricted,
    SellLimitExceeded,
    MathOverflow,
    Unauthorized,
    VersionMismatch,
    IncompatibleVersion,
    InvalidTokenAccount,
}

/// The singleton token-program record.
#[derive(Clone, Copy, Debug)]
pub struct TokenState {
    pub authority: Address,
    pub bump: u8,
    pub emergency_paused: bool,
    pub sell_limit_percent: u8,
    pub sell_limit_period: u64,
    pub bridge_address: Address,
    pub bond_address: Address,
    pub pending_governance: Option<Address>,
    pub governance_change_time: Option<i64>,
    pub max_supply: Option<u64>,
    pub current_supply: u64,
    pub whitelist_mode: bool,
    pub version: u16,
    pub min_compatible_version: u16,
}

#[derive(Clone, Copy, Debug)]
pub struct Blacklist {
    pub account: Address,
    pub is_blacklisted: bool,
}

#[derive(Clone, Copy, Debug)]
pub struct Whitelist {
    pub account: Address,
    pub is_whitelisted: bool,
}

#[derive(Clone, Copy, Debug)]
pub struct NoSellLimit {
    pub account: Address,
    pub has_exemption: bool,
}

#[derive(Clone, Copy, Debug)]
pub struct Restricted {
    pub account: Address,
    pub is_restricted: bool,
}

#[derive(Clone, Copy, Debug)]
pub struct LiquidityPool {
    pub pool: Address,
    pub is_pool: bool,
}

/// Amount a seller has sold to pools in the current window.
#[derive(Clone, Copy, Debug)]
pub struct SellTracker {
    pub account: Address,
    pub total_sold_24h: u64,
    pub last_reset: i64,
}

#[derive(Clone, Copy, Debug)]
pub struct TokenMinted {
    pub amount: u64,
    pub recipient: Address,
}

#[derive(Clone, Copy, Debug)]
pub struct TokenBurned {
    pub amount: u64,
    pub from: Address,
}

#[derive(Clone, Copy, Debug)]
pub struct EmergencyPauseChanged {
    pub paused: bool,
}

#[derive(Clone, Copy, Debug)]
pub struct InitializeEvent {
    pub authority: Address,
    pub version: u16,
}

#[derive(Clone, Copy, Debug)]
pub struct BlacklistChanged {
    pub account: Address,
    pub is_blacklisted: bool,
}

#[derive(Clone, Copy, Debug)]
pub struct RestrictedChanged {
    pub account: Address,
    pub is_restricted: bool,
}

#[derive(Clone, Copy, Debug)]
pub struct NoSellLimitChanged {
    pub account: Address,
    pub has_exemption: bool,
}

#[derive(Clone, Copy, Debug)]
pub struct LiquidityPoolChanged {
    pub pool: Address,
    pub is_pool: bool,
}

#[derive(Clone, Copy, Debug)]
pub struct WhitelistChanged {
    pub account: Address,
    pub is_whitelisted: bool,
}

#[derive(Clone, Copy, Debug)]
pub struct MintAuthorityRevoked {
    pub mint: Address,
}

/// The fields of a token account that the program reads.
#[derive(Clone, Copy, Debug)]
pub struct TokenAccountInfo {
    pub mint: Address,
    pub owner: Address,
    pub amount: u64,
}

/// A flag record as handed to an instruction: its key (zero when absent) and raw data.
pub struct FlagAccount {
    pub key: Address,
    pub data: Vec<u8>,
}

impl FlagAccount {
    /// Present and set.
    pub open spec fn is_set(&self) -> bool {
        flag_set_spec(self.key, self.data@)
    }

    pub fn set(&self) -> (r: bool)
        ensures
            r == self.is_set(),
    {
        flag_set(&self.key, &self.data)
    }
}

impl TokenState {
    pub open spec fn compatible(&self) -> bool {
        self.version >= self.min_compatible_version
    }

    /// Checks every governed setter makes: a compatible version, and the
    /// governance as signer.
    pub open spec fn governed_error(&self, governance: Address) -> Option<TokenError> {
        if !self.compatible() {
            Some(TokenError::IncompatibleVersion)
        } else if self.authority.bytes@ != governance.bytes@ {
            Some(TokenError::Unauthorized)
        } else {
            None
        }
    }

    fn check_governed(&self, governance: &Address) -> (r: Option<TokenError>)
        ensures
            r == self.governed_error(*governance),
    {
        if self.version < self.min_compatible_version {
            Some(TokenError::IncompatibleVersion)
        } else if !self.authority.same_as(governance) {
            Some(TokenError::Unauthorized)
        } else {
            None
        }
    }
}

/// Creates the token record: unpaused, 10% per 24 hours sell limit, no supply cap.
pub fn initialize(authority: Address, bump: u8) -> (r: Result<(TokenState, InitializeEvent), TokenError>)
    ensures
        authority.is_zero_spec() ==> (r matches Err(e) && e == TokenError::Unauthorized),
        !authority.is_zero_spec() ==> (r matches Ok((s, ev)) && s == (TokenState {
            authority,
            bump,
            emergency_paused: false,
            sell_limit_percent: DEFAULT_SELL_LIMIT_PERCENT,
            sell_limit_period: DEFAULT_SELL_LIMIT_PERIOD,
            bridge_address: s.bridge_address,
            bond_address: s.bond_address,
            pending_governance: None,
            governance_change_time: None,
            max_supply: None,
            current_supply: 0,
            whitelist_mode: false,
            version: CURRENT_VERSION,
            min_compatible_version: MIN_COMPATIBLE_VERSION,
        }) && s.bridge_address.is_zero_spec() && s.bond_address.is_zero_spec() && ev.authority
            == authority && ev.version == CURRENT_VERSION),
{
    if authority.is_zero() {
        return Err(TokenError::Unauthorized);
    }
    let s = TokenState {
        authority,
        bump,
        emergency_paused: false,
        sell_limit_percent: DEFAULT_SELL_LIMIT_PERCENT,
        sell_limit_period: DEFAULT_SELL_LIMIT_PERIOD,
        bridge_address: Address::zero(),
        bond_address: Address::zero(),
        pending_governance: None,
        governance_change_time: None,
        max_supply: None,
        current_supply: 0,
        whitelist_mode: false,
        version: CURRENT_VERSION,
        min_compatible_version: MIN_COMPATIBLE_VERSION,
    };
    Ok((s, InitializeEvent { authority, version: CURRENT_VERSION }))
}

/// First step of an authority hand-over: records the proposal and its time.
pub fn propose_governance_change(st: &mut TokenState, caller: &Address, new_authority: Address, now: i64) -> (r: Result<(), TokenError>)
    ensures
        match (if old(st).governed_error(*caller) is Some {
            old(st).governed_error(*caller)
        } else if new_authority.is_zero_spec() {
            Some(TokenError::Unauthorized)
        } else {
            None
        }) {
            Some(e) => r == Err::<(), TokenError>(e) && *final(st) == *old(st),
            None => r is Ok && *final(st) == (TokenState {
                pending_governance: Some(new_authority),
                governance_change_time: Some(now),
                ..*old(st)
            }),
        },
{
    if let Some(e) = st.check_governed(caller) {
        return Err(e);
    }
    if new_authority.is_zero() {
        return Err(TokenError::Unauthorized);
    }
    st.pending_governance = Some(new_authority);
    st.governance_change_time = Some(now);
    Ok(())
}

/// The hand-over may complete: it was proposed for `new_authority` at least 7 days before `now`.
pub open spec fn handover_ready(st: TokenState, new_authority: Address, now: i64) -> bool {
    &&& st.pending_governance matches Some(p) && p.bytes@ == new_authority.bytes@
    &&& st.governance_change_time matches Some(t) && now >= t + GOVERNANCE_COOLDOWN_SECONDS
}

/// Second step of an authority hand-over, after the 7-day delay.
pub fn set_governance(st: &mut TokenState, caller: &Address, new_authority: Address, now: i64) -> (r: Result<(), TokenError>)
    ensures
        match (if old(st).governed_error(*caller) is Some {
            old(st).governed_error(*caller)
        } else if !handover_ready(*old(st), new_authority, now) {
            Some(TokenError::Unauthorized)
        } else {
            None
        }) {
            Some(e) => r == Err::<(), TokenError>(e) && *final(st) == *old(st),
            None => r is Ok && *final(st) == (TokenState {
                authority: new_authority,
                pending_governance: None,
                governance_change_time: None,
                ..*old(st)
            }),
        },
{
    if let Some(e) = st.check_governed(caller) {
        return Err(e);
    }
    match st.pending_governance {
        Some(p) => {
            if !p.same_as(&new_authority) {
                return Err(TokenError::Unauthorized);
            }
        },
        None => {
            return Err(TokenError::Unauthorized);
        },
    }
    match st.governance_change_time {
        Some(t) => {
            if (now as i128) < (t as i128) + (GOVERNANCE_COOLDOWN_SECONDS as i128) {
                return Err(TokenError::Unauthorized);
            }
        },
        None => {
            return Err(TokenError::Unauthorized);
        },
    }
    st.authority = new_authority;
    st.pending_governance = None;
    st.governance_change_time = None;
    Ok(())
}

/// Sets or clears the emergency pause.
pub fn set_emergency_pause(st: &mut TokenState, governance: &Address, value: bool) -> (r: Result<EmergencyPauseChanged, TokenError>)
    ensures
        match old(st).governed_error(*governance) {
            Some(e) => (r matches Err(x) && x == e) && *final(st) == *old(st),
            None => (r matches Ok(ev) && ev.paused == value) && *final(st) == (TokenState {
                emergency_paused: value,
                ..*old(st)
            }),
        },
{
    if let Some(e) = st.check_governed(governance) {
        return Err(e);
    }
    st.emergency_paused = value;
    Ok(EmergencyPauseChanged { paused: value })
}

/// Sets the blacklist flag of `account`. Blacklisting an account whose record
/// already blacklists it is refused.
pub fn set_blacklist(st: &TokenState, record: &mut Blacklist, governance: &Address, account: Address, value: bool) -> (r: Result<BlacklistChanged, TokenError>)
    ensures
        match (if st.governed_error(*governance) is Some {
            st.governed_error(*governance)
        } else if value && old(record).is_blacklisted && old(record).account.bytes@ == account.bytes@ {
            Some(TokenError::Unauthorized)
        } else {
            None
        }) {
            Some(e) => (r matches Err(x) && x == e) && *final(record) == *old(record),
            None => (r matches Ok(ev) && ev.account == account && ev.is_blacklisted == value)
                && *final(record) == (Blacklist { account, is_blacklisted: value }),
        },
{
    if let Some(e) = st.check_governed(governance) {
        return Err(e);
    }
    if value && record.is_blacklisted && record.account.same_as(&account) {
        return Err(TokenError::Unauthorized);
    }
    record.account = account;
    record.is_blacklisted = value;
    Ok(BlacklistChanged { account, is_blacklisted: value })
}

/// Sets the whitelist flag of `account`.
pub fn set_whitelist(st: &TokenState, record: &mut Whitelist, governance: &Address, account: Address, value: bool) -> (r: Result<WhitelistChanged, TokenError>)
    ensures
        match st.governed_error(*governance) {
            Some(e) => (r matches Err(x) && x == e) && *final(record) == *old(record),
            None => (r matches Ok(ev) && ev.account == account && ev.is_whitelisted == value)
                && *final(record) == (Whitelist { account, is_whitelisted: value }),
        },
{
    if let Some(e) = st.check_governed(governance) {
        return Err(e);
    }
    record.account = account;
    record.is_whitelisted = value;
    Ok(WhitelistChanged { account, is_whitelisted: value })
}

/// Grants or revokes the sell-limit exemption of `account`.
pub fn set_no_sell_limit(st: &TokenState, record: &mut NoSellLimit, governance: &Address, account: Address, value: bool) -> (r: Result<NoSellLimitChanged, TokenError>)
    ensures
        match st.governed_error(*governance) {
            Some(e) => (r matches Err(x) && x == e) && *final(record) == *old(record),
            None => (r matches Ok(ev) && ev.account == account && ev.has_exemption == value)
                && *final(record) == (NoSellLimit { account, has_exemption: value }),
        },
{
    if let Some(e) = st.check_governed(governance) {
        return Err(e);
    }
    record.account = account;
    record.has_exemption = value;
    Ok(NoSellLimitChanged { account, has_exemption: value })
}

/// Sets the restriction flag of `account`.
pub fn set_restricted(st: &TokenState, record: &mut Restricted, governance: &Address, account: Address, value: bool) -> (r: Result<RestrictedChanged, TokenError>)
    ensures
        match st.governed_error(*governance) {
            Some(e) => (r matches Err(x) && x == e) && *final(record) == *old(record),
            None => (r matches Ok(ev) && ev.account == account && ev.is_restricted == value)
                && *final(record) == (Restricted { account, is_restricted: value }),
        },
{
    if let Some(e) = st.check_governed(governance) {
        return Err(e);
    }
    record.account = account;
    record.is_restricted = value;
    Ok(RestrictedChanged { account, is_restricted: value })
}

/// Marks or unmarks a (non-zero) address as a liquidity pool.
pub fn set_liquidity_pool(st: &TokenState, record: &mut LiquidityPool, governance: &Address, pool: Address, value: bool) -> (r: Result<LiquidityPoolChanged, TokenError>)
    ensures
        match (if st.governed_error(*governance) is Some {
            st.governed_error(*governance)
        } else if pool.is_zero_spec() {
            Some(TokenError::Unauthorized)
        } else {
            None
        }) {
            Some(e) => (r matches Err(x) && x == e) && *final(record) == *old(record),
            None => (r matches Ok(ev) && ev.pool == pool && ev.is_pool == value) && *final(record)
                == (LiquidityPool { pool, is_pool: value }),
        },
{
    if let Some(e) = st.check_governed(governance) {
        return Err(e);
    }
    if pool.is_zero() {
        return Err(TokenError::Unauthorized);
    }
    record.pool = pool;
    record.is_pool = value;
    Ok(LiquidityPoolChanged { pool, is_pool: value })
}

/// Sets the (non-zero) bridge address.
pub fn set_bridge_address(st: &mut TokenState, governance: &Address, bridge_address: Address) -> (r: Result<(), TokenError>)
    ensures
        match (if old(st).governed_error(*governance) is Some {
            old(st).governed_error(*governance)
        } else if bridge_address.is_zero_spec() {
            Some(TokenError::Unauthorized)
        } else {
            None
        }) {
            Some(e) => r == Err::<(), TokenError>(e) && *final(st) == *old(st),
            None => r is Ok && *final(st) == (TokenState { bridge_address, ..*old(st) }),
        },
{
    if let Some(e) = st.check_governed(governance) {
        return Err(e);
    }
    if bridge_address.is_zero() {
        return Err(TokenError::Unauthorized);
    }
    st.bridge_address = bridge_address;
    Ok(())
}

/// Sets the (non-zero) bond address.
pub fn set_bond_address(st: &mut TokenState, governance: &Address, bond_address: Address) -> (r: Result<(), TokenError>)
    ensures
        match (if old(st).governed_error(*governance) is Some {
            old(st).governed_error(*governance)
        } else if bond_address.is_zero_spec() {
            Some(TokenError::Unauthorized)
        } else {
            None
        }) {
            Some(e) => r == Err::<(), TokenError>(e) && *final(st) == *old(st),
            None => r is Ok && *final(st) == (TokenState { bond_address, ..*old(st) }),
        },
{
    if let Some(e) = st.check_governed(governance) {
        return Err(e);
    }
    if bond_address.is_zero() {
        return Err(TokenError::Unauthorized);
    }
    st.bond_address = bond_address;
    Ok(())
}

/// Flag records a transfer consults. Whitelist records count only in whitelist mode.
pub struct TransferFlags {
    pub sender_blacklist: FlagAccount,
    pub recipient_blacklist: FlagAccount,
    pub sender_restricted: FlagAccount,
    pub recipient_restricted: FlagAccount,
    pub sender_whitelist: FlagAccount,
    pub recipient_whitelist: FlagAccount,
    pub liquidity_pool: FlagAccount,
    pub no_sell_limit: FlagAccount,
}

/// A token account of `mint`, when it could be read.
pub open spec fn of_mint(acc: Option<TokenAccountInfo>, mint: Address) -> bool {
    acc matches Some(a) && a.mint.bytes@ == mint.bytes@
}

/// The tracker at the start of a sale at `now`: a fresh tracker is claimed
/// for `sender`, and a window older than `period` restarts from zero.
pub open spec fn tracker_window(t: SellTracker, sender: Address, now: i64, period: u64) -> SellTracker {
    let t1 = if t.account.is_zero_spec() {
        SellTracker { account: sender, total_sold_24h: 0, last_reset: now }
    } else {
        t
    };
    if now - t1.last_reset > period {
        SellTracker { total_sold_24h: 0, last_reset: now, ..t1 }
    } else {
        t1
    }
}

/// Most a seller may have sold to pools in one window: the limit share of the balance, rounded down.
pub open spec fn sell_allowance(balance: u64, percent: u8) -> int {
    (balance as int * percent as int) / 100
}

/// Whether a transfer goes to a marked pool from a sender without exemption.
pub open spec fn sell_limited(flags: TransferFlags) -> bool {
    flags.liquidity_pool.is_set() && !flags.no_sell_limit.is_set()
}

/// The first check of a transfer that fails, if any.
pub open spec fn transfer_error(
    st: TokenState,
    amount: u64,
    mint: Address,
    from: Option<TokenAccountInfo>,
    to: Option<TokenAccountInfo>,
    flags: TransferFlags,
    tracker: SellTracker,
    now: i64,
) -> Option<TokenError> {
    let sender = from->Some_0;
    let w = tracker_window(tracker, sender.owner, now, st.sell_limit_period);
    if !st.compatible() {
        Some(TokenError::IncompatibleVersion)
    } else if st.emergency_paused {
        Some(TokenError::EmergencyPaused)
    } else if !of_mint(from, mint) || !of_mint(to, mint) {
        Some(TokenError::InvalidTokenAccount)
    } else if flags.sender_blacklist.is_set() || flags.recipient_blacklist.is_set() {
        Some(TokenError::Blacklisted)
    } else if flags.sender_restricted.is_set() || flags.recipient_restricted.is_set() {
        Some(TokenError::Restricted)
    } else if st.whitelist_mode && (!flags.sender_whitelist.is_set()
        || !flags.recipient_whitelist.is_set()) {
        Some(TokenError::Unauthorized)
    } else if sell_limited(flags) && w.total_sold_24h + amount > u64::MAX {
        Some(TokenError::MathOverflow)
    } else if sell_limited(flags) && w.total_sold_24h + amount > sell_allowance(
        sender.amount,
        st.sell_limit_percent,
    ) {
        Some(TokenError::SellLimitExceeded)
    } else {
        None
    }
}

/// Outcome of the compliance checks of a transfer.
pub open spec fn transfer_outcome(
    st: TokenState,
    amount: u64,
    mint: Address,
    from: Option<TokenAccountInfo>,
    to: Option<TokenAccountInfo>,
    flags: TransferFlags,
    t0: SellTracker,
    t1: SellTracker,
    now: i64,
    r: Result<(), TokenError>,
) -> bool {
    match transfer_error(st, amount, mint, from, to, flags, t0, now) {
        Some(e) => r == Err::<(), TokenError>(e) && t1 == t0,
        None => r is Ok && t1 == (if sell_limited(flags) {
            let w = tracker_window(t0, from->Some_0.owner, now, st.sell_limit_period);
            SellTracker { total_sold_24h: (w.total_sold_24h + amount) as u64, ..w }
        } else {
            t0
        }),
    }
}

/// Applies the compliance checks to a transfer of `amount` between two token
/// accounts of `mint` (`None` for an account that could not be read). A sale
/// to a marked pool by a sender without exemption is counted against the
/// sender's window, which may not exceed the limit share of its balance.
pub fn check_transfer(
    st: &TokenState,
    tracker: &mut SellTracker,
    amount: u64,
    mint: &Address,
    from: Option<TokenAccountInfo>,
    to: Option<TokenAccountInfo>,
    flags: &TransferFlags,
    now: i64,
) -> (r: Result<(), TokenError>)
    ensures
        transfer_outcome(*st, amount, *mint, from, to, *flags, *old(tracker), *final(tracker), now, r),
{
    if st.version < st.min_compatible_version {
        return Err(TokenError::IncompatibleVersion);
    }
    if st.emergency_paused {
        return Err(TokenError::EmergencyPaused);
    }
    let sender = match from {
        Some(a) => {
            if !a.mint.same_as(mint) {
                return Err(TokenError::InvalidTokenAccount);
            }
            a
        },
        None => {
            return Err(TokenError::InvalidTokenAccount);
        },
    };
    match to {
        Some(a) => {
            if !a.mint.same_as(mint) {
                return Err(TokenError::InvalidTokenAccount);
            }
        },
        None => {
            return Err(TokenError::InvalidTokenAccount);
        },
    }
    if flags.sender_blacklist.set() || flags.recipient_blacklist.set() {
        return Err(TokenError::Blacklisted);
    }
    if flags.sender_restricted.set() || flags.recipient_restricted.set() {
        return Err(TokenError::Restricted);
    }
    if st.whitelist_mode && (!flags.sender_whitelist.set() || !flags.recipient_whitelist.set()) {
        return Err(TokenError::Unauthorized);
    }
    if flags.liquidity_pool.set() && !flags.no_sell_limit.set() {
        let mut w = *tracker;
        if w.account.is_zero() {
            w = SellTracker { account: sender.owner, total_sold_24h: 0, last_reset: now };
        }
        if (now as i128) - (w.last_reset as i128) > st.sell_limit_period as i128 {
            w = SellTracker { total_sold_24h: 0, last_reset: now, ..w };
        }
        let new_total = match w.total_sold_24h.checked_add(amount) {
            Some(t) => t,
            None => {
                return Err(TokenError::MathOverflow);
            },
        };
        let bal = sender.amount as u128;
        let pct = st.sell_limit_percent as u128;
        proof {
            assert(bal * pct <= u64::MAX as int * 255) by (nonlinear_arith)
                requires bal <= u64::MAX, pct <= 255;
        }
        let limit = bal * pct / 100;
        if new_total as u128 > limit {
            return Err(TokenError::SellLimitExceeded);
        }
        *tracker = SellTracker { total_sold_24h: new_total, ..w };
    }
    Ok(())
}

/// The first check of a mint that fails, if any.
pub open spec fn mint_error(
    st: TokenState,
    governance: Address,
    amount: u64,
    mint: Address,
    to: Option<TokenAccountInfo>,
    recipient_blacklist: FlagAccount,
    mint_data_len: usize,
) -> Option<TokenError> {
    if !st.compatible() {
        Some(TokenError::IncompatibleVersion)
    } else if st.emergency_paused {
        Some(TokenError::EmergencyPaused)
    } else if st.authority.bytes@ != governance.bytes@ {
        Some(TokenError::Unauthorized)
    } else if !of_mint(to, mint) {
        Some(TokenError::InvalidTokenAccount)
    } else if recipient_blacklist.is_set() {
        Some(TokenError::Blacklisted)
    } else if mint_data_len < MINT_ACCOUNT_MIN_LEN {
        Some(TokenError::Unauthorized)
    } else if st.current_supply + amount > u64::MAX || (st.max_supply matches Some(m)
        && st.current_supply + amount > m) {
        Some(TokenError::MathOverflow)
    } else {
        None
    }
}

/// Outcome of the checks of a mint.
pub open spec fn mint_outcome(
    st0: TokenState,
    st1: TokenState,
    governance: Address,
    amount: u64,
    mint: Address,
    to: Option<TokenAccountInfo>,
    recipient_blacklist: FlagAccount,
    mint_data_len: usize,
    r: Result<TokenMinted, TokenError>,
) -> bool {
    match mint_error(st0, governance, amount, mint, to, recipient_blacklist, mint_data_len) {
        Some(e) => (r matches Err(x) && x == e) && st1 == st0,
        None => (r matches Ok(ev) && ev.amount == amount && ev.recipient == to->Some_0.owner) && st1
            == (TokenState { current_supply: (st0.current_supply + amount) as u64, ..st0 }),
    }
}

/// Checks a mint of `amount` to a token account of `mint` (`None` when it
/// could not be read), within the supply cap if one is set, and tracks the supply.
pub fn check_mint(
    st: &mut TokenState,
    governance: &Address,
    amount: u64,
    mint: &Address,
    to: Option<TokenAccountInfo>,
    recipient_blacklist: &FlagAccount,
    mint_data_len: usize,
) -> (r: Result<TokenMinted, TokenError>)
    ensures
        mint_outcome(*old(st), *final(st), *governance, amount, *mint, to, *recipient_blacklist, mint_data_len, r),
{
    if st.version < st.min_compatible_version {
        return Err(TokenError::IncompatibleVersion);
    }
    if st.emergency_paused {
        return Err(TokenError::EmergencyPaused);
    }
    if !st.authority.same_as(governance) {
        return Err(TokenError::Unauthorized);
    }
    let recipient = match to {
        Some(a) => {
            if !a.mint.same_as(mint) {
                return Err(TokenError::InvalidTokenAccount);
            }
            a.owner
        },
        None => {
            return Err(TokenError::InvalidTokenAccount);
        },
    };
    if recipient_blacklist.set() {
        return Err(TokenError::Blacklisted);
    }
    if mint_data_len < MINT_ACCOUNT_MIN_LEN {
        return Err(TokenError::Unauthorized);
    }
    let new_supply = match st.current_supply.checked_add(amount) {
        Some(s) => s,
        None => {
            return Err(TokenError::MathOverflow);
        },
    };
    if let Some(max_supply) = st.max_supply {
        if new_supply > max_supply {
            return Err(TokenError::MathOverflow);
        }
    }
    st.current_supply = new_supply;
    Ok(TokenMinted { amount, recipient })
}

/// Outcome of the checks of a burn.
pub open spec fn burn_outcome(
    st0: TokenState,
    st1: TokenState,
    governance: Address,
    amount: u64,
    mint: Address,
    from: Option<TokenAccountInfo>,
    r: Result<TokenBurned, TokenError>,
) -> bool {
        match (if !st0.compatible() {
            Some(TokenError::IncompatibleVersion)
        } else if st0.emergency_paused {
            Some(TokenError::EmergencyPaused)
        } else if st0.authority.bytes@ != governance.bytes@ {
            Some(TokenError::Unauthorized)
        } else if !of_mint(from, mint) {
            Some(TokenError::InvalidTokenAccount)
        } else if st0.current_supply < amount {
            Some(TokenError::MathOverflow)
        } else {
            None
        }) {
            Some(e) => (r matches Err(x) && x == e) && st1 == st0,
            None => (r matches Ok(ev) && ev.amount == amount && ev.from == from->Some_0.owner)
                && st1 == (TokenState { current_supply: (st0.current_supply - amount) as u64, ..st0 }),
        }
}

/// Checks a burn of `amount` from a token account of `mint` (`None` when it
/// could not be read) and tracks the supply, which may not go below zero.
pub fn check_burn(
    st: &mut TokenState,
    governance: &Address,
    amount: u64,
    mint: &Address,
    from: Option<TokenAccountInfo>,
) -> (r: Result<TokenBurned, TokenError>)
    ensures
        burn_outcome(*old(st), *final(st), *governance, amount, *mint, from, r),
{
    if st.version < st.min_compatible_version {
        return Err(TokenError::IncompatibleVersion);
    }
    if st.emergency_paused {
        return Err(TokenError::EmergencyPaused);
    }
    if !st.authority.same_as(governance) {
        return Err(TokenError::Unauthorized);
    }
    let owner = match from {
        Some(a) => {
            if !a.mint.same_as(mint) {
                return Err(TokenError::InvalidTokenAccount);
            }
            a.owner
        },
        None => {
            return Err(TokenError::InvalidTokenAccount);
        },
    };
    if st.current_supply < amount {
        return Err(TokenError::MathOverflow);
    }
    st.current_supply = st.current_supply - amount;
    Ok(TokenBurned { amount, from: owner })
}

/// Gives up the mint authority for good; the caller clears it on the mint.
pub fn revoke_mint_authority(st: &TokenState, governance: &Address, mint: Address) -> (r: Result<MintAuthorityRevoked, TokenError>)
    ensures
        st.emergency_paused ==> (r matches Err(e) && e == TokenError::EmergencyPaused),
        !st.emergency_paused && st.authority.bytes@ != governance.bytes@ ==> (r matches Err(e) && e
            == TokenError::Unauthorized),
        !st.emergency_paused && st.authority.bytes@ == governance.bytes@ ==> (r matches Ok(ev)
            && ev.mint == mint),
{
    if st.emergency_paused {
        return Err(TokenError::EmergencyPaused);
    }
    if !st.authority.same_as(governance) {
        return Err(TokenError::Unauthorized);
    }
    Ok(MintAuthorityRevoked { mint })
}

/// Whether a four-byte option tag at `at` reads 0 or 1, little-endian.
pub open spec fn option_tag_ok(d: Seq<u8>, at: int) -> bool {
    (d[at] == 0u8 || d[at] == 1u8) && d[at + 1] == 0u8 && d[at + 2] == 0u8 && d[at + 3] == 0u8
}

/// Whether `d` reads as an initialized account of the token program: 165
/// bytes, valid option tags for the delegate (byte 72), the native amount
/// (109) and the close authority (129), and a state byte (108) of 1
/// (initialized) or 2 (frozen).
pub open spec fn spl_account_ok(d: Seq<u8>) -> bool {
    d.len() == 165 && option_tag_ok(d, 72) && (d[108] == 1u8 || d[108] == 2u8) && option_tag_ok(d, 109)
        && option_tag_ok(d, 129)
}

/// `r` is what reading `d` as a token account gives: mint, owner and balance
/// from its first 72 bytes when it is valid, else nothing.
pub open spec fn unpacked(d: Seq<u8>, r: Option<TokenAccountInfo>) -> bool {
    if spl_account_ok(d) {
        r matches Some(a) && a.mint.bytes@ == d.subrange(0, 32) && a.owner.bytes@ == d.subrange(32, 64)
            && a.amount == le_u64_of(d.subrange(64, 72))
    } else {
        r is None
    }
}

/// Relies on spl_token's `state::Account::unpack` (through `Pack`): it
/// accepts exactly 165 bytes, whose option tags are 0 or 1 and whose state
/// is initialized or frozen, and reads mint, owner and balance from bytes 0..72.
#[verifier::external_body]
fn unpack_token_account(data: &Vec<u8>) -> (r: Option<TokenAccountInfo>)
    ensures
        unpacked(data@, r),
{
    match SplTokenAccount::unpack(data.as_slice()) {
        Ok(a) => Some(
            TokenAccountInfo {
                mint: Address { bytes: a.mint.to_bytes() },
                owner: Address { bytes: a.owner.to_bytes() },
                amount: a.amount,
            },
        ),
        Err(_) => None,
    }
}

/// A transfer of `amount` between the token accounts held in `from_data` and
/// `to_data`, read with the token program's layout, under the compliance
/// checks of `check_transfer`. On success the caller performs the transfer.
pub fn transfer_tokens(
    st: &TokenState,
    tracker: &mut SellTracker,
    amount: u64,
    mint: &Address,
    from_data: &Vec<u8>,
    to_data: &Vec<u8>,
    flags: &TransferFlags,
    now: i64,
) -> (r: Result<(), TokenError>)
    ensures
        exists|f: Option<TokenAccountInfo>, t: Option<TokenAccountInfo>|
            #![trigger unpacked(from_data@, f), unpacked(to_data@, t)]
            unpacked(from_data@, f) && unpacked(to_data@, t) && transfer_outcome(
                *st,
                amount,
                *mint,
                f,
                t,
                *flags,
                *old(tracker),
                *final(tracker),
                now,
                r,
            ),
{
    let from = unpack_token_account(from_data);
    let to = unpack_token_account(to_data);
    let r = check_transfer(st, tracker, amount, mint, from, to, flags, now);
    assert(unpacked(from_data@, from) && unpacked(to_data@, to));
    r
}

/// A mint of `amount` to the token account held in `to_data`, under the
/// checks of `check_mint`. On success the caller mints.
pub fn mint_tokens(
    st: &mut TokenState,
    governance: &Address,
    amount: u64,
    mint: &Address,
    to_data: &Vec<u8>,
    recipient_blacklist: &FlagAccount,
    mint_data_len: usize,
) -> (r: Result<TokenMinted, TokenError>)
    ensures
        exists|t: Option<TokenAccountInfo>|
            #![trigger unpacked(to_data@, t)]
            unpacked(to_data@, t) && mint_outcome(
                *old(st),
                *final(st),
                *governance,
                amount,
                *mint,
                t,
                *recipient_blacklist,
                mint_data_len,
                r,
            ),
{
    let to = unpack_token_account(to_data);
    check_mint(st, governance, amount, mint, to, recipient_blacklist, mint_data_len)
}

/// A burn of `amount` from the token account held in `from_data`, under the
/// checks of `check_burn`. On success the caller burns.
pub fn burn_tokens(
    st: &mut TokenState,
    governance: &Address,
    amount: u64,
    mint: &Address,
    from_data: &Vec<u8>,
) -> (r: Result<TokenBurned, TokenError>)
    ensures
        exists|f: Option<TokenAccountInfo>|
            #![trigger unpacked(from_data@, f)]
            unpacked(from_data@, f) && burn_outcome(*old(st), *final(st), *governance, amount, *mint, f, r),
{
    let from = unpack_token_account(from_data);
    check_burn(st, governance, amount, mint, from)
}

} // verus!
