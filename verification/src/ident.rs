//! Identifier derivation: a fresh record identifier is the 128-bit blake2b
//! digest of a fixed little-endian framing of the host-supplied entropy —
//! block-scoped seed, submitting account, per-block operation counter and
//! block height. Replaying the same inputs yields the same identifier, as
//! replay determinism of the ledger demands; distinctness of identifiers
//! derived from distinct inputs is probabilistic and never assumed by the
//! verified operations.

use vstd::prelude::*;

verus! {

/// The eight little-endian bytes of a 64-bit value.
pub open spec fn u64_le_bytes(x: u64) -> Seq<u8> {
    seq![
        (x % 256) as u8,
        ((x / 256) % 256) as u8,
        ((x / 65536) % 256) as u8,
        ((x / 16777216) % 256) as u8,
        ((x / 4294967296) % 256) as u8,
        ((x / 1099511627776) % 256) as u8,
        ((x / 281474976710656) % 256) as u8,
        ((x / 72057594037927936) % 256) as u8,
    ]
}

/// The four little-endian bytes of a 32-bit value.
pub open spec fn u32_le_bytes(x: u32) -> Seq<u8> {
    seq![
        (x % 256) as u8,
        ((x / 256) % 256) as u8,
        ((x / 65536) % 256) as u8,
        ((x / 16777216) % 256) as u8,
    ]
}

/// The byte string the identifier digest is taken over: seed, submitter,
/// operation counter and block height, each in little-endian order.
pub open spec fn id_payload(seed: u64, submitter: u64, op_counter: u32, block: u64) -> Seq<u8> {
    u64_le_bytes(seed) + u64_le_bytes(submitter) + u32_le_bytes(op_counter) + u64_le_bytes(block)
}

/// The 16-byte blake2b digest of a byte string. The digest is a function of
/// the input alone; its value is not stated here.
pub uninterp spec fn blake2b_128_of(data: Seq<u8>) -> Seq<u8>;

/// Appends the eight little-endian bytes of `x`.
fn push_u64_le(v: &mut Vec<u8>, x: u64)
    ensures
        final(v)@ == old(v)@ + u64_le_bytes(x),
{
    v.push((x % 256) as u8);
    v.push(((x / 256) % 256) as u8);
    v.push(((x / 65536) % 256) as u8);
    v.push(((x / 16777216) % 256) as u8);
    v.push(((x / 4294967296) % 256) as u8);
    v.push(((x / 1099511627776) % 256) as u8);
    v.push(((x / 281474976710656) % 256) as u8);
    v.push(((x / 72057594037927936) % 256) as u8);
    assert(v@ =~= old(v)@ + u64_le_bytes(x));
}

/// Appends the four little-endian bytes of `x`.
fn push_u32_le(v: &mut Vec<u8>, x: u32)
    ensures
        final(v)@ == old(v)@ + u32_le_bytes(x),
{
    v.push((x % 256) as u8);
    v.push(((x / 256) % 256) as u8);
    v.push(((x / 65536) % 256) as u8);
    v.push(((x / 16777216) % 256) as u8);
    assert(v@ =~= old(v)@ + u32_le_bytes(x));
}

/// Relies on blake2_rfc::blake2b::blake2b with a 16-byte output length and
/// no key: the digest depends on the input bytes alone, and the result
/// holds exactly 16 bytes.
#[verifier::external_body]
fn blake2b_128(data: &Vec<u8>) -> (r: [u8; 16])
    ensures
        r@ == blake2b_128_of(data@),
{
    let hash = blake2_rfc::blake2b::blake2b(16, &[], data.as_slice());
    let mut out = [0u8; 16];
    out.copy_from_slice(hash.as_bytes());
    out
}

/// Derives the record identifier for one creation: the digest of the
/// little-endian framing of the host-supplied entropy.
pub fn derive_record_id(seed: u64, submitter: u64, op_counter: u32, block: u64) -> (id: [u8; 16])
    ensures
        id@ == blake2b_128_of(id_payload(seed, submitter, op_counter, block)),
{
    let mut payload: Vec<u8> = Vec::new();
    push_u64_le(&mut payload, seed);
    push_u64_le(&mut payload, submitter);
    push_u32_le(&mut payload, op_counter);
    push_u64_le(&mut payload, block);
    assert(payload@ =~= id_payload(seed, submitter, op_counter, block));
    blake2b_128(&payload)
}

} // verus!
