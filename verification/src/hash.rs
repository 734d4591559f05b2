//! Deterministic, order-sensitive content fingerprinting (a DJB2-style
//! rolling multiply-add over bytes, 64-bit wraparound arithmetic).

use vstd::prelude::*;
use vstd::arithmetic::div_mod::lemma_add_mod_noop;
use vstd::arithmetic::div_mod::lemma_small_mod;
use vstd::string::StringExecFns;

verus! {

/// One rolling step of the fingerprint: `h * 33 + b`, modulo 2^64.
pub open spec fn djb2_step(h: u64, b: u8) -> u64 {
    (((h * 33) + b) % 0x1_0000_0000_0000_0000) as u64
}

/// The fingerprint of a byte sequence: seed 5381, then one rolling step
/// per byte, in order.
pub open spec fn djb2(bytes: Seq<u8>) -> u64
    decreases bytes.len(),
{
    if bytes.len() == 0 {
        5381u64
    } else {
        djb2_step(djb2(bytes.drop_last()), bytes.last())
    }
}

/// The concatenation of a sequence of character sequences, in order.
pub open spec fn join_all(parts: Seq<Seq<char>>) -> Seq<char>
    decreases parts.len(),
{
    if parts.len() == 0 {
        Seq::<char>::empty()
    } else {
        join_all(parts.drop_last()) + parts.last()
    }
}

/// The fingerprint is a function of the bytes alone, so two equal inputs
/// always fingerprint alike.
pub proof fn lemma_hash_deterministic(a: Seq<u8>, b: Seq<u8>)
    requires
        a == b,
    ensures
        djb2(a) == djb2(b),
{
}

/// Fingerprints a byte buffer.
pub fn hash_bytes(data: &[u8]) -> (h: u64)
    ensures
        h == djb2(data@),
{
    let mut h: u64 = 5381;
    let mut i: usize = 0;
    while i < data.len()
        invariant
            i <= data@.len(),
            h == djb2(data@.take(i as int)),
        decreases data@.len() - i,
    {
        let b: u8 = data[i];
        let next: u64 = h.wrapping_mul(33).wrapping_add(b as u64);
        proof {
            lemma_step_matches_wrapping(h, b);
            assert(data@.take(i + 1).drop_last() =~= data@.take(i as int));
            assert(data@.take(i + 1).last() == b);
        }
        h = next;
        i = i + 1;
    }
    proof {
        assert(data@.take(data@.len() as int) =~= data@);
    }
    h
}

/// The wrapping multiply-add of the executable loop computes exactly the
/// rolling step of the specification.
proof fn lemma_step_matches_wrapping(h: u64, b: u8)
    ensures
        vstd::wrapping::u64_specs::wrapping_add(
            vstd::wrapping::u64_specs::wrapping_mul(h, 33),
            b as u64,
        ) == djb2_step(h, b),
{
    let m: int = 0x1_0000_0000_0000_0000;
    let prod: int = h * 33;
    lemma_add_mod_noop(prod, b as int, m);
    lemma_small_mod(b as nat, m as nat);
    assert(prod % m + b < m + 256);
}

/// Fingerprints a list of strings (file paths) by concatenating them in
/// order and fingerprinting the bytes of the concatenation, so the same
/// paths in a different order give a different result wherever the
/// concatenated bytes differ.
pub fn hash_string_vec(vec: &[String]) -> (h: u64)
    ensures
        h == djb2(vstd::utf8::encode_utf8(join_all(vec.deep_view()))),
{
    let mut combined = String::new();
    let mut i: usize = 0;
    while i < vec.len()
        invariant
            i <= vec@.len(),
            combined@ == join_all(vec.deep_view().take(i as int)),
        decreases vec@.len() - i,
    {
        combined.append(vec[i].as_str());
        proof {
            assert(vec.deep_view().take(i + 1).drop_last() =~= vec.deep_view().take(i as int));
            assert(vec.deep_view().take(i + 1).last() == vec@[i as int]@);
        }
        i = i + 1;
    }
    proof {
        assert(vec.deep_view().take(vec.deep_view().len() as int) =~= vec.deep_view());
    }
    hash_bytes(combined.as_str().as_bytes())
}

} // verus!
