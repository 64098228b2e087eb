//! Fixed-layout byte encodings of queued transaction parameters.
//!
//! Addresses take 32 bytes, booleans one byte (0 or 1; any non-zero byte
//! decodes as `true`), and 64-bit integers eight little-endian bytes.
use vstd::prelude::*;
use crate::address::Address;

verus! {

/// Little-endian bytes of a 64-bit value.
pub open spec fn u64_le_bytes(v: u64) -> Seq<u8> {
    seq![
        v as u8,
        (v >> 8u64) as u8,
        (v >> 16u64) as u8,
        (v >> 24u64) as u8,
        (v >> 32u64) as u8,
        (v >> 40u64) as u8,
        (v >> 48u64) as u8,
        (v >> 56u64) as u8,
    ]
}

/// The value of eight little-endian bytes.
pub open spec fn le_u64(b0: u8, b1: u8, b2: u8, b3: u8, b4: u8, b5: u8, b6: u8, b7: u8) -> u64 {
    (b0 as u64) | ((b1 as u64) << 8u64) | ((b2 as u64) << 16u64) | ((b3 as u64) << 24u64)
        | ((b4 as u64) << 32u64) | ((b5 as u64) << 40u64) | ((b6 as u64) << 48u64) | ((b7
        as u64) << 56u64)
}

/// The 64-bit value held by the first eight bytes of `s`.
pub open spec fn le_u64_of(s: Seq<u8>) -> u64
    recommends
        s.len() >= 8,
{
    le_u64(s[0], s[1], s[2], s[3], s[4], s[5], s[6], s[7])
}

/// The byte that encodes a boolean.
pub open spec fn bool_byte(v: bool) -> u8 {
    if v {
        1u8
    } else {
        0u8
    }
}

/// Payload of an (address, flag) transaction: 32 address bytes then the flag byte.
pub open spec fn address_flag_bytes(a: Address, v: bool) -> Seq<u8> {
    a.bytes@.push(bool_byte(v))
}

/// The address held by the first 32 bytes of `s`.
pub open spec fn address_of(s: Seq<u8>) -> Seq<u8> {
    s.subrange(0, 32)
}

/// The 64-bit value of a signed integer's two's-complement bits.
pub open spec fn i64_bits(v: i64) -> u64 {
    v as u64
}

/// The signed integer whose two's-complement bits are `u`.
pub open spec fn i64_of_bits(u: u64) -> i64 {
    u as i64
}

/// Reading back the little-endian bytes of a value gives the value.
pub proof fn lemma_u64_le_round_trip(v: u64)
    ensures
        le_u64_of(u64_le_bytes(v)) == v,
{
    let b = u64_le_bytes(v);
    assert(le_u64(
        v as u8,
        (v >> 8u64) as u8,
        (v >> 16u64) as u8,
        (v >> 24u64) as u8,
        (v >> 32u64) as u8,
        (v >> 40u64) as u8,
        (v >> 48u64) as u8,
        (v >> 56u64) as u8,
    ) == v) by (bit_vector);
}

/// Signed integers survive the trip through their two's-complement bits.
pub proof fn lemma_i64_bits_round_trip(v: i64)
    ensures
        i64_of_bits(i64_bits(v)) == v,
{
    assert(((v as u64) as i64) == v) by (bit_vector);
}

/// Encoding an (address, flag) payload and decoding it recovers both parts,
/// for every address and both flag values.
pub proof fn lemma_address_flag_round_trip(a: Address, v: bool)
    ensures
        address_flag_bytes(a, v).len() == 33,
        address_of(address_flag_bytes(a, v)) == a.bytes@,
        (address_flag_bytes(a, v)[32] != 0u8) == v,
{
    assert(address_of(address_flag_bytes(a, v)) =~= a.bytes@);
}

/// The 32-byte payload of an address-valued transaction.
pub fn encode_address(a: &Address) -> (r: Vec<u8>)
    ensures
        r@ == a.bytes@,
{
    let mut r: Vec<u8> = Vec::new();
    let mut i: usize = 0;
    while i < 32
        invariant
            0 <= i <= 32,
            a.bytes@.len() == 32,
            r@ == a.bytes@.subrange(0, i as int),
        decreases 32 - i,
    {
        r.push(a.bytes[i]);
        i = i + 1;
        assert(r@ =~= a.bytes@.subrange(0, i as int));
    }
    assert(r@ =~= a.bytes@);
    r
}

/// The 33-byte payload of an (address, flag) transaction.
pub fn encode_address_flag(a: &Address, v: bool) -> (r: Vec<u8>)
    ensures
        r@ == address_flag_bytes(*a, v),
{
    let mut r = encode_address(a);
    r.push(if v { 1u8 } else { 0u8 });
    r
}

/// Eight little-endian bytes of `v`.
pub fn encode_u64(v: u64) -> (r: Vec<u8>)
    ensures
        r@ == u64_le_bytes(v),
{
    let r: Vec<u8> = vec![
        v as u8,
        (v >> 8u64) as u8,
        (v >> 16u64) as u8,
        (v >> 24u64) as u8,
        (v >> 32u64) as u8,
        (v >> 40u64) as u8,
        (v >> 48u64) as u8,
        (v >> 56u64) as u8,
    ];
    assert(r@ =~= u64_le_bytes(v));
    r
}

/// Eight little-endian two's-complement bytes of `v`.
pub fn encode_i64(v: i64) -> (r: Vec<u8>)
    ensures
        r@ == u64_le_bytes(i64_bits(v)),
{
    encode_u64(v as u64)
}

/// The address in the first 32 bytes, or `None` when fewer are present.
pub fn decode_address(data: &Vec<u8>) -> (r: Option<Address>)
    ensures
        data@.len() < 32 ==> r.is_none(),
        data@.len() >= 32 ==> r.is_some() && r.unwrap().bytes@ == address_of(data@),
{
    if data.len() < 32 {
        return None;
    }
    let mut bytes = [0u8; 32];
    let mut i: usize = 0;
    while i < 32
        invariant
            0 <= i <= 32,
            data@.len() >= 32,
            bytes@.len() == 32,
            forall|j: int| 0 <= j < i ==> bytes@[j] == data@[j],
        decreases 32 - i,
    {
        bytes[i] = data[i];
        i = i + 1;
    }
    let a = Address { bytes };
    assert(a.bytes@ =~= address_of(data@));
    Some(a)
}

/// The address and flag of a 33-byte payload, or `None` when it is shorter.
pub fn decode_address_flag(data: &Vec<u8>) -> (r: Option<(Address, bool)>)
    ensures
        data@.len() < 33 ==> r.is_none(),
        data@.len() >= 33 ==> r.is_some() && r.unwrap().0.bytes@ == address_of(data@)
            && r.unwrap().1 == (data@[32] != 0u8),
{
    if data.len() < 33 {
        return None;
    }
    match decode_address(data) {
        Some(a) => Some((a, data[32] != 0)),
        None => None,
    }
}

/// The little-endian value of the first eight bytes, or `None` when fewer are present.
pub fn decode_u64(data: &Vec<u8>) -> (r: Option<u64>)
    ensures
        data@.len() < 8 ==> r.is_none(),
        data@.len() >= 8 ==> r == Some(le_u64_of(data@)),
{
    if data.len() < 8 {
        return None;
    }
    Some(
        (data[0] as u64) | ((data[1] as u64) << 8u64) | ((data[2] as u64) << 16u64) | ((
        data[3] as u64) << 24u64) | ((data[4] as u64) << 32u64) | ((data[5] as u64) << 40u64)
            | ((data[6] as u64) << 48u64) | ((data[7] as u64) << 56u64),
    )
}

/// The signed little-endian value of the first eight bytes, or `None` when fewer are present.
pub fn decode_i64(data: &Vec<u8>) -> (r: Option<i64>)
    ensures
        data@.len() < 8 ==> r.is_none(),
        data@.len() >= 8 ==> r == Some(i64_of_bits(le_u64_of(data@))),
{
    match decode_u64(data) {
        Some(u) => Some(u as i64),
        None => None,
    }
}

} // verus!
