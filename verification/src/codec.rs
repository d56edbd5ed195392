//! The persisted byte layout of an escrow record, and the seed bytes that
//! determine a record's deterministic address.
//!
//! A record is stored fixed-size and versionless as
//! `depositor (32) ‖ claim_hash (32) ‖ amount (8, little-endian) ‖
//! claimed (1) ‖ bump (1)`, 74 bytes in all; the host ledger prefixes
//! whatever discriminator tag it requires.

use vstd::prelude::*;

use vstd::bytes::lemma_auto_spec_u64_to_from_le_bytes;
use vstd::bytes::spec_u64_from_le_bytes;
use vstd::bytes::spec_u64_to_le_bytes;
use vstd::bytes::u64_from_le_bytes;
use vstd::bytes::u64_to_le_bytes;
use vstd::slice::slice_subrange;

use crate::escrow::PrivateDeposit;

verus! {

/// Size of a serialized record in bytes.
pub const RECORD_BYTES: usize = 74;

/// The serialized form of a record.
pub open spec fn spec_serialize(d: PrivateDeposit) -> Seq<u8> {
    d.depositor@ + d.claim_hash@ + spec_u64_to_le_bytes(d.amount)
        + seq![if d.claimed { 1u8 } else { 0u8 }] + seq![d.bump]
}

/// Whether a byte sequence is the serialized form of some record: the right
/// length, with a canonical boolean in the claimed position.
pub open spec fn spec_valid_record_bytes(b: Seq<u8>) -> bool {
    &&& b.len() == RECORD_BYTES
    &&& (b[72] == 0 || b[72] == 1)
}

/// Appends a slice's bytes to a vector.
fn push_slice(out: &mut Vec<u8>, bytes: &[u8])
    ensures
        final(out)@ == old(out)@ + bytes@,
{
    let n = bytes.len();
    let mut i: usize = 0;
    while i < n
        invariant
            i <= n,
            n == bytes@.len(),
            out@ == old(out)@ + bytes@.take(i as int),
        decreases n - i,
    {
        let b = *vstd::slice::slice_index_get(bytes, i);
        out.push(b);
        proof {
            assert(bytes@.take(i + 1) =~= bytes@.take(i as int).push(bytes@[i as int]));
        }
        i = i + 1;
    }
    proof {
        assert(bytes@.take(n as int) =~= bytes@);
    }
}

/// Serializes a record into its 74-byte persisted form.
pub fn serialize_record(d: &PrivateDeposit) -> (r: Vec<u8>)
    ensures
        r@ == spec_serialize(*d),
        r@.len() == RECORD_BYTES,
{
    let mut out: Vec<u8> = Vec::new();
    push_slice(&mut out, d.depositor.as_slice());
    push_slice(&mut out, d.claim_hash.as_slice());
    let amount_bytes = u64_to_le_bytes(d.amount);
    push_slice(&mut out, amount_bytes.as_slice());
    out.push(if d.claimed { 1 } else { 0 });
    out.push(d.bump);
    proof {
        assert(out@ =~= spec_serialize(*d));
    }
    out
}

/// Parses a 74-byte persisted form back into a record.
///
/// Returns the record whose serialized form is exactly the input, or None
/// when the input is not the serialized form of any record — wrong length,
/// or a claimed byte that is neither 0 nor 1.
pub fn deserialize_record(bytes: &[u8]) -> (r: Option<PrivateDeposit>)
    ensures
        r is Some <==> spec_valid_record_bytes(bytes@),
        r matches Some(d) ==> spec_serialize(d) == bytes@,
{
    if bytes.len() != RECORD_BYTES {
        return None;
    }
    let claimed_byte = *vstd::slice::slice_index_get(bytes, 72);
    if claimed_byte > 1 {
        return None;
    }
    let mut depositor = [0u8; 32];
    let mut claim_hash = [0u8; 32];
    let mut i: usize = 0;
    while i < 32
        invariant
            i <= 32,
            bytes@.len() == 74,
            forall|k: int| 0 <= k < i ==> depositor@[k] == bytes@[k],
            forall|k: int| 0 <= k < i ==> claim_hash@[k] == bytes@[32 + k],
        decreases 32 - i,
    {
        depositor[i] = *vstd::slice::slice_index_get(bytes, i);
        claim_hash[i] = *vstd::slice::slice_index_get(bytes, 32 + i);
        i = i + 1;
    }
    let amount = u64_from_le_bytes(slice_subrange(bytes, 64, 72));
    let d = PrivateDeposit {
        depositor,
        claim_hash,
        amount,
        claimed: claimed_byte == 1,
        bump: *vstd::slice::slice_index_get(bytes, 73),
    };
    proof {
        lemma_auto_spec_u64_to_from_le_bytes();
        assert(spec_u64_to_le_bytes(d.amount) =~= bytes@.subrange(64, 72));
        assert(spec_serialize(d) =~= bytes@);
    }
    Some(d)
}

/// The serialized form of any record is valid: 74 bytes, with a canonical
/// claimed byte.
pub proof fn lemma_serialized_record_valid(d: PrivateDeposit)
    ensures
        spec_valid_record_bytes(spec_serialize(d)),
{
    lemma_auto_spec_u64_to_from_le_bytes();
    assert(spec_serialize(d).len() == RECORD_BYTES);
    assert(spec_serialize(d)[72] == if d.claimed { 1u8 } else { 0u8 });
}

/// Serialization is injective: two records with the same serialized form are
/// the same record. Together with lemma_serialized_record_valid and the
/// contract of deserialize_record, this gives the round trip: parsing the
/// serialized form of a record yields exactly that record.
pub proof fn lemma_serialize_injective(d1: PrivateDeposit, d2: PrivateDeposit)
    requires
        spec_serialize(d1) == spec_serialize(d2),
    ensures
        d1 == d2,
{
    lemma_auto_spec_u64_to_from_le_bytes();
    let b = spec_serialize(d1);
    assert forall|k: int| 0 <= k < 32 implies d1.depositor@[k] == d2.depositor@[k] by {
        assert(b[k] == d1.depositor@[k]);
        assert(spec_serialize(d2)[k] == d2.depositor@[k]);
    }
    assert(d1.depositor =~= d2.depositor);
    assert forall|k: int| 0 <= k < 32 implies d1.claim_hash@[k] == d2.claim_hash@[k] by {
        assert(b[32 + k] == d1.claim_hash@[k]);
        assert(spec_serialize(d2)[32 + k] == d2.claim_hash@[k]);
    }
    assert(d1.claim_hash =~= d2.claim_hash);
    assert(spec_u64_to_le_bytes(d1.amount) =~= spec_u64_to_le_bytes(d2.amount)) by {
        assert forall|k: int| 0 <= k < 8 implies spec_u64_to_le_bytes(d1.amount)[k]
            == spec_u64_to_le_bytes(d2.amount)[k] by {
            assert(b[64 + k] == spec_u64_to_le_bytes(d1.amount)[k]);
            assert(spec_serialize(d2)[64 + k] == spec_u64_to_le_bytes(d2.amount)[k]);
        }
    }
    assert(d1.amount == spec_u64_from_le_bytes(spec_u64_to_le_bytes(d1.amount)));
    assert(b[72] == if d1.claimed { 1u8 } else { 0u8 });
    assert(spec_serialize(d2)[72] == if d2.claimed { 1u8 } else { 0u8 });
    assert(d1.claimed == d2.claimed);
    assert(b[73] == d1.bump);
    assert(spec_serialize(d2)[73] == d2.bump);
}

/// The domain tag that namespaces deposit addresses: the ASCII bytes of
/// "deposit".
pub open spec fn spec_domain_tag() -> Seq<u8> {
    seq![100u8, 101u8, 112u8, 111u8, 115u8, 105u8, 116u8]
}

/// The seed bytes from which a record's deterministic address is derived:
/// the domain tag, the depositor's identity, and the caller-supplied deposit
/// identifier in little-endian bytes. Unique identifiers per depositor give
/// collision-free addresses.
pub open spec fn spec_derivation_seeds(depositor: Seq<u8>, deposit_id: u64) -> Seq<u8> {
    spec_domain_tag() + depositor + spec_u64_to_le_bytes(deposit_id)
}

/// Builds the address-derivation seed bytes for a deposit.
pub fn derivation_seeds(depositor: &[u8; 32], deposit_id: u64) -> (r: Vec<u8>)
    ensures
        r@ == spec_derivation_seeds(depositor@, deposit_id),
{
    let mut out: Vec<u8> = Vec::new();
    out.push(100);
    out.push(101);
    out.push(112);
    out.push(111);
    out.push(115);
    out.push(105);
    out.push(116);
    push_slice(&mut out, depositor.as_slice());
    let id_bytes = u64_to_le_bytes(deposit_id);
    push_slice(&mut out, id_bytes.as_slice());
    proof {
        assert(out@ =~= spec_derivation_seeds(depositor@, deposit_id));
    }
    out
}

} // verus!
