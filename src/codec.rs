//! Layouts of the instruction payloads and of the custody record, all in
//! borsh's binary encoding: integers little-endian, strings as a `u32` byte
//! length followed by that many bytes of UTF-8.
use vstd::prelude::*;
use vstd::utf8::{encode_utf8, valid_utf8};

verus! {

/// The unsigned integer held little-endian in `d[at..at + 4]`.
pub open spec fn le_u32(d: Seq<u8>, at: int) -> int {
    d[at] + 256 * (d[at + 1] + 256 * (d[at + 2] + 256 * d[at + 3]))
}

/// The unsigned integer held little-endian in `d[at..at + 8]`.
pub open spec fn le_u64(d: Seq<u8>, at: int) -> int {
    le_u32(d, at) + 0x1_0000_0000 * le_u32(d, at + 4)
}

/// The two's-complement integer held little-endian in `d[at..at + 8]`.
pub open spec fn le_i64(d: Seq<u8>, at: int) -> int {
    if le_u64(d, at) >= 0x8000_0000_0000_0000 {
        le_u64(d, at) - 0x1_0000_0000_0000_0000
    } else {
        le_u64(d, at)
    }
}

/// Byte length of the seed of a withdrawal request.
pub open spec fn request_seed_len(d: Seq<u8>) -> int {
    le_u32(d, 0)
}

/// A withdrawal request is `{ seed: String, amount: u64 }`, and nothing after.
pub open spec fn withdraw_request_valid(d: Seq<u8>) -> bool {
    &&& d.len() >= 4
    &&& d.len() == 4 + request_seed_len(d) + 8
    &&& valid_utf8(d.subrange(4, 4 + request_seed_len(d)))
}

/// The UTF-8 bytes of the seed of a withdrawal request.
pub open spec fn request_seed(d: Seq<u8>) -> Seq<u8> {
    d.subrange(4, 4 + request_seed_len(d))
}

/// The amount of a withdrawal request.
pub open spec fn request_amount(d: Seq<u8>) -> u64 {
    le_u64(d, 4 + request_seed_len(d)) as u64
}

/// A drain request is `{ amount: u64 }`, and nothing after.
pub open spec fn drain_request_valid(d: Seq<u8>) -> bool {
    d.len() == 8
}

/// The amount of a drain request.
pub open spec fn drain_request_amount(d: Seq<u8>) -> u64 {
    le_u64(d, 0) as u64
}

/// A custody record is `{ creation_time: i64 }`, and nothing after.
pub open spec fn custody_record_valid(d: Seq<u8>) -> bool {
    d.len() == 8
}

/// The creation time held in a custody record.
pub open spec fn custody_creation(d: Seq<u8>) -> i64 {
    le_i64(d, 0) as i64
}

/// Relies on borsh's `try_from_slice` for `(String, u64)`: a `u32` length,
/// that many bytes that must be UTF-8, an eight-byte `u64`, all bytes read.
#[verifier::external_body]
pub(crate) fn decode_withdraw_request(data: &[u8]) -> (r: Option<(String, u64)>)
    ensures
        r is Some <==> withdraw_request_valid(data@),
        r is Some ==> encode_utf8(r->Some_0.0@) == request_seed(data@),
        r is Some ==> r->Some_0.1 == request_amount(data@),
{
    <(String, u64) as borsh::BorshDeserialize>::try_from_slice(data).ok()
}

/// Relies on borsh's `try_from_slice` for `u64`: eight little-endian bytes,
/// all bytes read.
#[verifier::external_body]
pub(crate) fn decode_drain_request(data: &[u8]) -> (r: Option<u64>)
    ensures
        r is Some <==> drain_request_valid(data@),
        r is Some ==> r->Some_0 == drain_request_amount(data@),
{
    <u64 as borsh::BorshDeserialize>::try_from_slice(data).ok()
}

/// Relies on borsh's `try_from_slice` for `i64`: eight little-endian bytes
/// in two's complement, all bytes read.
#[verifier::external_body]
pub(crate) fn decode_account_creation(data: &[u8]) -> (r: Option<i64>)
    ensures
        r is Some <==> custody_record_valid(data@),
        r is Some ==> r->Some_0 == custody_creation(data@),
{
    <i64 as borsh::BorshDeserialize>::try_from_slice(data).ok()
}

} // verus!
