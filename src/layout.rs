//! Byte layouts of collaborator accounts that the programs read directly,
//! rather than through typed deserialization.
//!
//! A token account begins with its mint (bytes 0..32), its owner (32..64) and
//! its balance (64..72, little-endian). A flag record (blacklist, whitelist,
//! restriction, sell-limit exemption, liquidity pool) holds an 8-byte tag, the
//! flagged address, then the flag at byte 40. The token state holds its
//! emergency-pause flag at byte 41.
use vstd::prelude::*;
use crate::address::Address;
use crate::codec::{address_of, le_u64_of, decode_address, decode_u64};

verus! {

pub const TOKEN_ACCOUNT_MINT_OFFSET: usize = 0;

pub const TOKEN_ACCOUNT_OWNER_OFFSET: usize = 32;

pub const TOKEN_ACCOUNT_AMOUNT_OFFSET: usize = 64;

pub const FLAG_RECORD_FLAG_OFFSET: usize = 40;

pub const TOKEN_STATE_EMERGENCY_PAUSED_OFFSET: usize = 41;

/// Whether a token-state record reports the emergency pause; a record too
/// short to hold the flag reports none.
pub open spec fn token_state_paused_spec(d: Seq<u8>) -> bool {
    d.len() > 41 && d[41] != 0u8
}

pub fn token_state_paused(data: &Vec<u8>) -> (r: bool)
    ensures
        r == token_state_paused_spec(data@),
{
    data.len() > TOKEN_STATE_EMERGENCY_PAUSED_OFFSET && data[TOKEN_STATE_EMERGENCY_PAUSED_OFFSET] != 0
}

/// Whether a flag record is present and set. The zero key stands for an
/// absent record; a record too short to hold the flag counts as unset.
pub open spec fn flag_set_spec(key: Address, d: Seq<u8>) -> bool {
    !key.is_zero_spec() && d.len() >= 41 && d[40] != 0u8
}

pub fn flag_set(key: &Address, data: &Vec<u8>) -> (r: bool)
    ensures
        r == flag_set_spec(*key, data@),
{
    !key.is_zero() && data.len() > FLAG_RECORD_FLAG_OFFSET && data[FLAG_RECORD_FLAG_OFFSET] != 0
}

/// The bytes from `start` on.
pub open spec fn from_offset(d: Seq<u8>, start: int) -> Seq<u8> {
    d.subrange(start, d.len() as int)
}

fn tail(data: &Vec<u8>, start: usize) -> (r: Vec<u8>)
    requires
        start <= data@.len(),
    ensures
        r@ == from_offset(data@, start as int),
{
    let mut r: Vec<u8> = Vec::new();
    let mut i: usize = start;
    while i < data.len()
        invariant
            start <= i <= data@.len(),
            r@ == data@.subrange(start as int, i as int),
        decreases data@.len() - i,
    {
        r.push(data[i]);
        i = i + 1;
        assert(r@ =~= data@.subrange(start as int, i as int));
    }
    r
}

/// Mint and owner of a token account, or `None` when the data is shorter than 64 bytes.
pub fn token_account_mint_owner(data: &Vec<u8>) -> (r: Option<(Address, Address)>)
    ensures
        data@.len() < 64 ==> r.is_none(),
        data@.len() >= 64 ==> (r matches Some((m, o)) && m.bytes@ == address_of(data@)
            && o.bytes@ == data@.subrange(32, 64)),
{
    if data.len() < 64 {
        return None;
    }
    let m = decode_address(data);
    let rest = tail(data, TOKEN_ACCOUNT_OWNER_OFFSET);
    let o = decode_address(&rest);
    match (m, o) {
        (Some(m), Some(o)) => {
            assert(o.bytes@ =~= data@.subrange(32, 64));
            Some((m, o))
        },
        _ => None,
    }
}

/// Balance of a token account, or `None` when the data is shorter than 72 bytes.
pub fn token_account_amount(data: &Vec<u8>) -> (r: Option<u64>)
    ensures
        data@.len() < 72 ==> r.is_none(),
        data@.len() >= 72 ==> r == Some(le_u64_of(from_offset(data@, 64))),
{
    if data.len() < 72 {
        return None;
    }
    let rest = tail(data, TOKEN_ACCOUNT_AMOUNT_OFFSET);
    decode_u64(&rest)
}

/// The mint of a token account is `mint` and its owner is `owner`.
pub open spec fn token_account_is(d: Seq<u8>, mint: Address, owner: Address) -> bool {
    d.len() >= 64 && address_of(d) == mint.bytes@ && d.subrange(32, 64) == owner.bytes@
}

pub fn check_token_account(data: &Vec<u8>, mint: &Address, owner: &Address) -> (r: bool)
    ensures
        r == token_account_is(data@, *mint, *owner),
{
    match token_account_mint_owner(data) {
        Some((m, o)) => m.same_as(mint) && o.same_as(owner),
        None => false,
    }
}

} // verus!
