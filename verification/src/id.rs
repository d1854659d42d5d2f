//! View identities: an FNV-1a hash of a source location, combined with
//! runtime ids by XOR.
use vstd::prelude::*;
use vstd::string::StringSliceAdditionalSpecFns;

verus! {

/// The FNV-1a 64-bit offset basis.
pub const FNV_OFFSET: u64 = 14695981039346656037u64;
/// The FNV-1a 64-bit prime.
pub const FNV_PRIME: u64 = 1099511628211u64;

/// One FNV-1a round: xor the input in, then multiply by the prime modulo 2^64.
pub open spec fn fnv_round(hash: u64, input: u64) -> u64 {
    vstd::wrapping::u64_specs::wrapping_mul(hash ^ input, FNV_PRIME)
}

/// The FNV-1a hash of the first `n` bytes of `bytes`.
pub open spec fn fnv_prefix(bytes: Seq<u8>, n: nat) -> u64
    decreases n,
{
    if n == 0 {
        FNV_OFFSET
    } else {
        fnv_round(fnv_prefix(bytes, (n - 1) as nat), bytes[n - 1] as u64)
    }
}

/// The id of a source location: the FNV-1a hash of the file name's UTF-8
/// bytes, followed by one round for the line and one for the column.
pub open spec fn location_hash(bytes: Seq<u8>, line: u32, col: u32) -> u64 {
    fnv_round(fnv_round(fnv_prefix(bytes, bytes.len()), line as u64), col as u64)
}

/// Hashes a file name, line and column into a view id (FNV-1a).
pub fn const_hash(s: &str, line: u32, col: u32) -> (hash: u64)
    ensures
        hash == location_hash(s.spec_bytes(), line, col),
{
    let mut hash: u64 = FNV_OFFSET;
    let bytes = s.as_bytes();
    let mut i: usize = 0;
    while i < bytes.len()
        invariant
            i <= bytes@.len(),
            bytes@ == s.spec_bytes(),
            hash == fnv_prefix(bytes@, i as nat),
        decreases bytes@.len() - i,
    {
        hash = hash ^ (bytes[i] as u64);
        hash = hash.wrapping_mul(FNV_PRIME);
        i = i + 1;
    }
    hash = hash ^ (line as u64);
    hash = hash.wrapping_mul(FNV_PRIME);
    hash = hash ^ (col as u64);
    hash = hash.wrapping_mul(FNV_PRIME);
    hash
}

/// A location id combined with one runtime id.
pub fn id_with(location: u64, other: u64) -> (id: u64)
    ensures
        id == location ^ other,
{
    location ^ other
}

/// A location id combined with two runtime ids; the second is scrambled by
/// the FNV prime so that swapping the two gives a different id.
pub fn id_with_pair(location: u64, other: u64, other2: u64) -> (id: u64)
    ensures
        id == location ^ other ^ vstd::wrapping::u64_specs::wrapping_mul(other2, FNV_PRIME),
{
    location ^ other ^ other2.wrapping_mul(FNV_PRIME)
}

/// Combining an id with the same runtime id twice gives the location id
/// back, and combining with 0 changes nothing.
pub proof fn lemma_id_with_involutive(location: u64, other: u64)
    ensures
        (location ^ other) ^ other == location,
        location ^ 0u64 == location,
{
    assert((location ^ other) ^ other == location) by (bit_vector);
    assert(location ^ 0u64 == location) by (bit_vector);
}

/// The inverse of the FNV prime modulo 2^64.
pub open spec fn fnv_prime_inverse() -> u64 {
    14886173955864302971u64
}

/// One round is undone by multiplying by the inverse prime and xoring the
/// input back out, so distinct inputs (or distinct prior hashes) give
/// distinct round results.
pub proof fn lemma_fnv_round_injective(h1: u64, x1: u64, h2: u64, x2: u64)
    requires
        fnv_round(h1, x1) == fnv_round(h2, x2),
    ensures
        h1 == x1 ^ x2 ^ h2,
        h1 == h2 ==> x1 == x2,
        x1 == x2 ==> h1 == h2,
{
    let a = h1 ^ x1;
    let b = h2 ^ x2;
    assert(vstd::wrapping::u64_specs::wrapping_mul(vstd::wrapping::u64_specs::wrapping_mul(a, 1099511628211u64), 14886173955864302971u64) == a) by (bit_vector);
    assert(vstd::wrapping::u64_specs::wrapping_mul(vstd::wrapping::u64_specs::wrapping_mul(b, 1099511628211u64), 14886173955864302971u64) == b) by (bit_vector);
    assert(a == b);
    assert(h1 == x1 ^ x2 ^ h2 && (h1 == h2 ==> x1 == x2) && (x1 == x2 ==> h1 == h2)) by (bit_vector)
        requires h1 ^ x1 == h2 ^ x2;
}

/// Two places in one file on the same line but in different columns, or in
/// the same column on different lines, get different ids.
pub proof fn lemma_location_ids_differ(bytes: Seq<u8>, line1: u32, col1: u32, line2: u32, col2: u32)
    requires
        (line1 == line2 && col1 != col2) || (line1 != line2 && col1 == col2),
    ensures
        location_hash(bytes, line1, col1) != location_hash(bytes, line2, col2),
{
    let h = fnv_prefix(bytes, bytes.len());
    if location_hash(bytes, line1, col1) == location_hash(bytes, line2, col2) {
        lemma_fnv_round_injective(fnv_round(h, line1 as u64), col1 as u64, fnv_round(h, line2 as u64), col2 as u64);
        if line1 == line2 {
            assert(col1 as u64 == col2 as u64);
        } else {
            assert(fnv_round(h, line1 as u64) == fnv_round(h, line2 as u64));
            lemma_fnv_round_injective(h, line1 as u64, h, line2 as u64);
        }
    }
}

} // verus!
