use vstd::prelude::*;
use vstd::arithmetic::div_mod::{
    lemma_add_mod_noop, lemma_mod_bound, lemma_mod_breakdown, lemma_mul_mod_noop_left,
    lemma_small_mod,
};
use vstd::arithmetic::mul::lemma_mul_inequality;
use vstd::arithmetic::power::{lemma_pow0, lemma_pow1, lemma_pow_adds, lemma_pow_positive, pow};
use crate::account::AccountId;
use crate::types::Timestamp;

verus! {

/// The Keccak-256 digest of a byte string. The function is fixed by the
/// standard and the same for every caller; nothing else is known of it here.
pub uninterp spec fn keccak_256_digest(input: Seq<u8>) -> Seq<u8>;

/// Hashes `input` with `ink::env::hash_bytes` and the hash `Keccak256`. Taken
/// on trust: the thirty-two bytes that come back are the Keccak-256 digest of
/// the bytes handed in, whatever the state of the chain.
#[verifier::external_body]
pub(crate) fn keccak_256(input: &Vec<u8>) -> (digest: [u8; 32])
    ensures
        digest@ == keccak_256_digest(input@),
{
    let mut digest = [0u8; 32];
    ink::env::hash_bytes::<ink::env::hash::Keccak256>(input.as_slice(), &mut digest);
    digest
}

/// The `width` low-order base-256 digits of `value`, most significant first.
pub open spec fn be_bytes(value: nat, width: nat) -> Seq<u8>
    decreases width,
{
    if width == 0 {
        Seq::empty()
    } else {
        be_bytes(value / 256, (width - 1) as nat).push((value % 256) as u8)
    }
}

/// The number that a byte string spells in base 256, most significant digit
/// first.
pub open spec fn be_value(bytes: Seq<u8>) -> nat
    decreases bytes.len(),
{
    if bytes.len() == 0 {
        0
    } else {
        be_value(bytes.drop_last()) * 256 + bytes.last() as nat
    }
}

/// What one draw is hashed from: the salt and the block's time as eight bytes
/// each, with the caller's address between them.
pub open spec fn spec_entropy_input(salt: u64, caller: Seq<u8>, timestamp: Timestamp) -> Seq<u8> {
    be_bytes(salt as nat, 8) + caller + be_bytes(timestamp as nat, 8)
}

/// An encoding has the width that was asked for.
pub proof fn lemma_be_bytes_len(value: nat, width: nat)
    ensures
        be_bytes(value, width).len() == width,
    decreases width,
{
    if width > 0 {
        lemma_be_bytes_len(value / 256, (width - 1) as nat);
    }
}

/// Decoding undoes encoding, up to the digits that the width cut off.
pub proof fn lemma_be_round_trip(value: nat, width: nat)
    ensures
        be_value(be_bytes(value, width)) == value % (pow(256, width) as nat),
    decreases width,
{
    lemma_pow_positive(256, width);
    if width == 0 {
        lemma_pow0(256);
    } else {
        let rest = be_bytes(value / 256, (width - 1) as nat);
        let below = pow(256, (width - 1) as nat);
        lemma_be_round_trip(value / 256, (width - 1) as nat);
        lemma_pow_positive(256, (width - 1) as nat);
        lemma_pow1(256);
        lemma_pow_adds(256, 1, (width - 1) as nat);
        let whole = be_bytes(value, width);
        assert(whole.drop_last() =~= rest);
        assert(be_value(whole) == be_value(rest) * 256 + value % 256);
        lemma_mod_breakdown(value as int, 256, below);
    }
}

/// Every number below two to the sixty-fourth is spelled by thirty-two
/// bytes.
pub proof fn lemma_digest_of(value: nat)
    requires
        value <= u64::MAX,
    ensures
        be_bytes(value, 32).len() == 32,
        be_value(be_bytes(value, 32)) == value,
{
    lemma_be_bytes_len(value, 32);
    lemma_be_round_trip(value, 32);
    assert(pow(256, 8) == 0x1_0000_0000_0000_0000) by {
        reveal_with_fuel(pow, 9);
    }
    lemma_pow_adds(256, 8, 24);
    lemma_pow_positive(256, 24);
    lemma_mul_inequality(1, pow(256, 24), pow(256, 8));
    lemma_small_mod(value, pow(256, 32) as nat);
}

/// The eight bytes of `value`, most significant first.
pub fn u64_be_bytes(value: u64) -> (bytes: [u8; 8])
    ensures
        bytes@ == be_bytes(value as nat, 8),
{
    let mut bytes: [u8; 8] = [0u8; 8];
    let mut rest: u64 = value;
    let mut i: usize = 8;
    while i > 0
        invariant
            i <= 8,
            be_bytes(value as nat, 8) =~= be_bytes(rest as nat, i as nat) + bytes@.subrange(
                i as int,
                8,
            ),
        decreases i,
    {
        i = i - 1;
        bytes[i] = (rest % 256) as u8;
        rest = rest / 256;
    }
    bytes
}

/// Lays out the bytes that one draw is hashed from.
pub fn entropy_input(salt: u64, caller: &AccountId, timestamp: Timestamp) -> (input: Vec<u8>)
    ensures
        input@ == spec_entropy_input(salt, caller@, timestamp),
{
    let head = u64_be_bytes(salt);
    let tail = u64_be_bytes(timestamp);
    let mut input: Vec<u8> = Vec::new();
    let mut i: usize = 0;
    while i < 8
        invariant
            i <= 8,
            input@ =~= head@.subrange(0, i as int),
        decreases 8 - i,
    {
        input.push(head[i]);
        i = i + 1;
    }
    i = 0;
    while i < 32
        invariant
            i <= 32,
            input@ =~= head@ + caller@.subrange(0, i as int),
        decreases 32 - i,
    {
        input.push(caller.bytes[i]);
        i = i + 1;
    }
    i = 0;
    while i < 8
        invariant
            i <= 8,
            input@ =~= head@ + caller@ + tail@.subrange(0, i as int),
        decreases 8 - i,
    {
        input.push(tail[i]);
        i = i + 1;
    }
    input
}

/// The remainder that a digest, read as one number, leaves on division by
/// `modulus`.
pub fn digest_residue(digest: &[u8; 32], modulus: u64) -> (residue: u64)
    requires
        modulus > 0,
    ensures
        residue == be_value(digest@) % (modulus as nat),
{
    let mut acc: u64 = 0;
    let mut i: usize = 0;
    proof {
        assert(digest@.subrange(0, 0).len() == 0);
        lemma_small_mod(0, modulus as nat);
    }
    while i < 32
        invariant
            i <= 32,
            modulus > 0,
            acc < modulus,
            acc == be_value(digest@.subrange(0, i as int)) % (modulus as nat),
        decreases 32 - i,
    {
        let wide: u128 = (acc as u128) * 256 + (digest[i] as u128);
        proof {
            let before = digest@.subrange(0, i as int);
            let now = digest@.subrange(0, i + 1);
            assert(now.drop_last() =~= before);
            assert(now.last() == digest[i as int]);
            let m = modulus as int;
            lemma_mul_mod_noop_left(be_value(before) as int, 256, m);
            lemma_add_mod_noop((be_value(before) * 256) as int, digest[i as int] as int, m);
            lemma_add_mod_noop((acc * 256) as int, digest[i as int] as int, m);
            lemma_mod_bound(wide as int, m);
        }
        acc = (wide % (modulus as u128)) as u64;
        i = i + 1;
    }
    assert(digest@.subrange(0, 32) =~= digest@);
    acc
}

} // verus!
