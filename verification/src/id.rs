//! The row identifier: a 160-bit value made of a 32-bit creation timestamp
//! and a 128-bit random payload, stored in a fixed-width 20-byte binary
//! column. This module holds the type, its 160-bit arithmetic helpers, and
//! the storage-byte codec; the canonical base62 text codec is in `base62`.

use svix_ksuid::KsuidLike;
use vstd::prelude::*;

use crate::error::DecodeError;

verus! {

/// A unique, time-sortable row identifier: a 32-bit creation timestamp in
/// seconds over a custom epoch, followed by a 128-bit random payload, 160
/// bits in all.
/// Lexicographic order of the big-endian encodings matches creation-time
/// order, coarse to the second.
#[derive(Clone, Copy, PartialEq, Eq, Structural, Debug, Hash)]
pub struct PokemonId {
    pub timestamp: u32,
    pub payload_hi: u64,
    pub payload_lo: u64,
}

/// The identifier read as a single 160-bit number, big-endian: the
/// timestamp in the top 32 bits, the payload in the low 128.
pub open spec fn id_value(id: PokemonId) -> nat {
    (id.timestamp as nat) * 0x100000000000000000000000000000000
        + (id.payload_hi as nat) * 0x10000000000000000 + (id.payload_lo as nat)
}

/// Every identifier value fits in 160 bits.
pub proof fn lemma_id_value_bound(id: PokemonId)
    ensures
        id_value(id) < 0x10000000000000000000000000000000000000000,
{
    assert((id.timestamp as nat) * 0x100000000000000000000000000000000
        <= 0xffffffff * 0x100000000000000000000000000000000);
    assert((id.payload_hi as nat) * 0x10000000000000000
        <= 0xffffffffffffffff * 0x10000000000000000);
}

/// The 20 storage bytes of an identifier: the 160-bit value big-endian.
pub open spec fn storage_bytes_of(id: PokemonId) -> Seq<u8> {
    seq![
        (id.timestamp >> 24) as u8,
        (id.timestamp >> 16) as u8,
        (id.timestamp >> 8) as u8,
        id.timestamp as u8,
        (id.payload_hi >> 56) as u8,
        (id.payload_hi >> 48) as u8,
        (id.payload_hi >> 40) as u8,
        (id.payload_hi >> 32) as u8,
        (id.payload_hi >> 24) as u8,
        (id.payload_hi >> 16) as u8,
        (id.payload_hi >> 8) as u8,
        id.payload_hi as u8,
        (id.payload_lo >> 56) as u8,
        (id.payload_lo >> 48) as u8,
        (id.payload_lo >> 40) as u8,
        (id.payload_lo >> 32) as u8,
        (id.payload_lo >> 24) as u8,
        (id.payload_lo >> 16) as u8,
        (id.payload_lo >> 8) as u8,
        id.payload_lo as u8,
    ]
}

/// The identifier whose big-endian storage encoding a 20-byte sequence is.
pub open spec fn id_of_storage_bytes(s: Seq<u8>) -> PokemonId {
    PokemonId {
        timestamp: (s[0] as u32) << 24 | (s[1] as u32) << 16 | (s[2] as u32) << 8 | (s[3] as u32),
        payload_hi: (s[4] as u64) << 56 | (s[5] as u64) << 48 | (s[6] as u64) << 40 | (s[7]
            as u64) << 32 | (s[8] as u64) << 24 | (s[9] as u64) << 16 | (s[10] as u64) << 8 | (s[11]
            as u64),
        payload_lo: (s[12] as u64) << 56 | (s[13] as u64) << 48 | (s[14] as u64) << 40 | (s[15]
            as u64) << 32 | (s[16] as u64) << 24 | (s[17] as u64) << 16 | (s[18] as u64) << 8
            | (s[19] as u64),
    }
}

/// Law: the storage-byte codec is lossless. Decoding the fixed-width
/// big-endian bytes of any identifier yields that identifier again.
pub proof fn lemma_storage_round_trip(id: PokemonId)
    ensures
        storage_bytes_of(id).len() == 20,
        id_of_storage_bytes(storage_bytes_of(id)) == id,
{
    let t = id.timestamp;
    let h = id.payload_hi;
    let l = id.payload_lo;
    assert(((t >> 24) as u8 as u32) << 24 | ((t >> 16) as u8 as u32) << 16 | ((t >> 8) as u8
        as u32) << 8 | (t as u8 as u32) == t) by (bit_vector);
    assert(((h >> 56) as u8 as u64) << 56 | ((h >> 48) as u8 as u64) << 48 | ((h >> 40) as u8
        as u64) << 40 | ((h >> 32) as u8 as u64) << 32 | ((h >> 24) as u8 as u64) << 24 | ((h >> 16)
        as u8 as u64) << 16 | ((h >> 8) as u8 as u64) << 8 | (h as u8 as u64) == h) by (bit_vector);
    assert(((l >> 56) as u8 as u64) << 56 | ((l >> 48) as u8 as u64) << 48 | ((l >> 40) as u8
        as u64) << 40 | ((l >> 32) as u8 as u64) << 32 | ((l >> 24) as u8 as u64) << 24 | ((l >> 16)
        as u8 as u64) << 16 | ((l >> 8) as u8 as u64) << 8 | (l as u8 as u64) == l) by (bit_vector);
}

/// Relies on `svix_ksuid::Ksuid::now(None)`: a fresh identifier built from
/// the current wall-clock second and a random 128-bit payload, handed back
/// as its 20 raw bytes. Nothing more is promised of a value that depends on
/// the clock and on randomness.
#[verifier::external_body]
fn fresh_id_bytes() -> (r: Vec<u8>)
    ensures
        r@.len() == 20,
{
    let k = svix_ksuid::Ksuid::now(None);
    k.bytes().to_vec()
}

impl PokemonId {
    /// A fresh identifier for a new row: current wall-clock second plus a
    /// well-distributed random payload. Distinctness of two calls is only
    /// probabilistic; no de-duplication is performed here.
    pub fn new() -> PokemonId {
        let bytes = fresh_id_bytes();
        id_from_wide_bytes(bytes.as_slice())
    }

    /// The fixed-width big-endian byte encoding written to the binary
    /// storage column.
    pub fn to_storage_bytes(&self) -> (r: Vec<u8>)
        ensures
            r@ == storage_bytes_of(*self),
            r@.len() == 20,
    {
        let mut r: Vec<u8> = Vec::new();
        r.push((self.timestamp >> 24) as u8);
        r.push((self.timestamp >> 16) as u8);
        r.push((self.timestamp >> 8) as u8);
        r.push(self.timestamp as u8);
        r.push((self.payload_hi >> 56) as u8);
        r.push((self.payload_hi >> 48) as u8);
        r.push((self.payload_hi >> 40) as u8);
        r.push((self.payload_hi >> 32) as u8);
        r.push((self.payload_hi >> 24) as u8);
        r.push((self.payload_hi >> 16) as u8);
        r.push((self.payload_hi >> 8) as u8);
        r.push(self.payload_hi as u8);
        r.push((self.payload_lo >> 56) as u8);
        r.push((self.payload_lo >> 48) as u8);
        r.push((self.payload_lo >> 40) as u8);
        r.push((self.payload_lo >> 32) as u8);
        r.push((self.payload_lo >> 24) as u8);
        r.push((self.payload_lo >> 16) as u8);
        r.push((self.payload_lo >> 8) as u8);
        r.push(self.payload_lo as u8);
        proof {
            assert(r@ =~= storage_bytes_of(*self));
        }
        r
    }

    /// Reads an identifier back from a storage column value. Exactly the
    /// inputs of the fixed width succeed; any other width is an integrity
    /// violation reported as `InvalidLength`.
    pub fn from_storage_bytes(bytes: &[u8]) -> (r: Result<PokemonId, DecodeError>)
        ensures
            bytes@.len() == 20 ==> r == Ok::<PokemonId, DecodeError>(id_of_storage_bytes(bytes@)),
            bytes@.len() != 20 ==> r == Err::<PokemonId, DecodeError>(DecodeError::InvalidLength),
    {
        if bytes.len() != 20 {
            Err(DecodeError::InvalidLength)
        } else {
            Ok(id_from_wide_bytes(bytes))
        }
    }
}

/// Assembles an identifier from its 20 big-endian bytes.
fn id_from_wide_bytes(bytes: &[u8]) -> (id: PokemonId)
    requires
        bytes@.len() == 20,
    ensures
        id == id_of_storage_bytes(bytes@),
{
    let timestamp: u32 = (bytes[0] as u32) << 24 | (bytes[1] as u32) << 16 | (bytes[2] as u32) << 8
        | (bytes[3] as u32);
    let payload_hi: u64 = (bytes[4] as u64) << 56 | (bytes[5] as u64) << 48 | (bytes[6] as u64)
        << 40 | (bytes[7] as u64) << 32 | (bytes[8] as u64) << 24 | (bytes[9] as u64) << 16 | (
    bytes[10] as u64) << 8 | (bytes[11] as u64);
    let payload_lo: u64 = (bytes[12] as u64) << 56 | (bytes[13] as u64) << 48 | (bytes[14] as u64)
        << 40 | (bytes[15] as u64) << 32 | (bytes[16] as u64) << 24 | (bytes[17] as u64) << 16 | (
    bytes[18] as u64) << 8 | (bytes[19] as u64);
    PokemonId { timestamp, payload_hi, payload_lo }
}

} // verus!
