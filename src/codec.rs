//! Fixed-width values of the host's wire format: 160-bit addresses, 256-bit
//! hashes and 256-bit unsigned integers, with their big-endian byte forms.
use vstd::arithmetic::power::pow;
use vstd::prelude::*;

verus! {

/// Declares `uint::U256`, whose one field is public: the value as four 64-bit
/// limbs, least significant first.
#[verifier::external_type_specification]
pub struct ExU256(uint::U256);

/// `n` zero bytes: an output buffer before the host writes into it.
pub open spec fn zeros(n: nat) -> Seq<u8> {
    Seq::new(n, |i: int| 0u8)
}

/// A 20-byte account identifier.
#[derive(Clone, Copy, PartialEq, Eq, Debug, Hash)]
pub struct Address(pub [u8; 20]);

impl Address {
    /// The all-zero address.
    pub fn zero() -> (r: Address)
        ensures
            r.0@ == zeros(20),
    {
        Address([0u8; 20])
    }
}

/// A 32-byte opaque value: block hashes and log topics.
#[derive(Clone, Copy, PartialEq, Eq, Debug, Hash)]
pub struct H256(pub [u8; 32]);

impl H256 {
    /// The all-zero hash.
    pub fn zero() -> (r: H256)
        ensures
            r.0@ == zeros(32),
    {
        H256([0u8; 32])
    }
}

/// The eight bytes of `x`, most significant first.
pub open spec fn u64_be_bytes(x: u64) -> Seq<u8> {
    seq![
        ((x >> 56u64) & 0xffu64) as u8,
        ((x >> 48u64) & 0xffu64) as u8,
        ((x >> 40u64) & 0xffu64) as u8,
        ((x >> 32u64) & 0xffu64) as u8,
        ((x >> 24u64) & 0xffu64) as u8,
        ((x >> 16u64) & 0xffu64) as u8,
        ((x >> 8u64) & 0xffu64) as u8,
        (x & 0xffu64) as u8,
    ]
}

/// The canonical 32-byte big-endian form of `v`: its most significant limb first.
pub open spec fn u256_be_bytes(v: uint::U256) -> Seq<u8> {
    u64_be_bytes(v.0[3]) + u64_be_bytes(v.0[2]) + u64_be_bytes(v.0[1]) + u64_be_bytes(v.0[0])
}

/// The number that `v` stands for.
pub open spec fn u256_value(v: uint::U256) -> nat {
    v.0[0] as nat + v.0[1] as nat * 0x1_0000_0000_0000_0000 + v.0[2] as nat
        * 0x1_0000_0000_0000_0000_0000_0000_0000_0000 + v.0[3] as nat
        * 0x1_0000_0000_0000_0000_0000_0000_0000_0000_0000_0000_0000_0000
}

/// The number that `s` spells in base 256, most significant digit first.
pub open spec fn be_value(s: Seq<u8>) -> nat
    decreases s.len(),
{
    if s.len() == 0 {
        0
    } else {
        be_value(s.drop_last()) * 256 + s.last() as nat
    }
}

/// Digits appended after a prefix shift the prefix's value up by their count.
pub proof fn lemma_be_value_append(a: Seq<u8>, b: Seq<u8>)
    ensures
        be_value(a + b) == be_value(a) * pow(256, b.len()) + be_value(b),
    decreases b.len(),
{
    if b.len() == 0 {
        assert(a + b =~= a);
        vstd::arithmetic::power::lemma_pow0(256);
    } else {
        let rest = b.drop_last();
        assert((a + b).drop_last() =~= a + rest);
        assert((a + b).last() == b.last());
        lemma_be_value_append(a, rest);
        vstd::arithmetic::power::lemma_pow_adds(256, rest.len(), 1);
        vstd::arithmetic::power::lemma_pow1(256);
        let p = pow(256, rest.len());
        let va = be_value(a);
        let vr = be_value(rest);
        assert((va * p + vr) * 256 + b.last() as nat == va * (p * 256) + (vr * 256
            + b.last() as nat)) by (nonlinear_arith);
    }
}

/// The eight big-endian bytes of `x` spell `x`.
pub proof fn lemma_be_value_u64(x: u64)
    ensures
        be_value(u64_be_bytes(x)) == x,
{
    let s = u64_be_bytes(x);
    let b0 = ((x >> 56u64) & 0xffu64);
    let b1 = ((x >> 48u64) & 0xffu64);
    let b2 = ((x >> 40u64) & 0xffu64);
    let b3 = ((x >> 32u64) & 0xffu64);
    let b4 = ((x >> 24u64) & 0xffu64);
    let b5 = ((x >> 16u64) & 0xffu64);
    let b6 = ((x >> 8u64) & 0xffu64);
    let b7 = (x & 0xffu64);
    assert(b0 < 256 && b1 < 256 && b2 < 256 && b3 < 256 && b4 < 256 && b5 < 256 && b6 < 256
        && b7 < 256 && x == ((((((b0 * 256 + b1) * 256 + b2) * 256 + b3) * 256 + b4) * 256 + b5)
        * 256 + b6) * 256 + b7) by (bit_vector)
        requires
            b0 == ((x >> 56u64) & 0xffu64),
            b1 == ((x >> 48u64) & 0xffu64),
            b2 == ((x >> 40u64) & 0xffu64),
            b3 == ((x >> 32u64) & 0xffu64),
            b4 == ((x >> 24u64) & 0xffu64),
            b5 == ((x >> 16u64) & 0xffu64),
            b6 == ((x >> 8u64) & 0xffu64),
            b7 == (x & 0xffu64),
    ;
    assert(s.subrange(0, 1).drop_last() =~= s.subrange(0, 0));
    assert(s.subrange(0, 2).drop_last() =~= s.subrange(0, 1));
    assert(s.subrange(0, 3).drop_last() =~= s.subrange(0, 2));
    assert(s.subrange(0, 4).drop_last() =~= s.subrange(0, 3));
    assert(s.subrange(0, 5).drop_last() =~= s.subrange(0, 4));
    assert(s.subrange(0, 6).drop_last() =~= s.subrange(0, 5));
    assert(s.subrange(0, 7).drop_last() =~= s.subrange(0, 6));
    assert(s.drop_last() =~= s.subrange(0, 7));
    assert(be_value(s.subrange(0, 0)) == 0);
    assert(s.subrange(0, 1).last() == s[0]);
    assert(be_value(s.subrange(0, 1)) == b0);
    assert(be_value(s.subrange(0, 2)) == b0 * 256 + b1);
    assert(be_value(s.subrange(0, 3)) == (b0 * 256 + b1) * 256 + b2);
    assert(be_value(s.subrange(0, 4)) == ((b0 * 256 + b1) * 256 + b2) * 256 + b3);
    assert(be_value(s.subrange(0, 5)) == (((b0 * 256 + b1) * 256 + b2) * 256 + b3) * 256 + b4);
    assert(be_value(s.subrange(0, 6)) == ((((b0 * 256 + b1) * 256 + b2) * 256 + b3) * 256 + b4)
        * 256 + b5);
    assert(be_value(s.subrange(0, 7)) == (((((b0 * 256 + b1) * 256 + b2) * 256 + b3) * 256 + b4)
        * 256 + b5) * 256 + b6);
}

/// The big-endian form of a 256-bit value spells its number.
pub proof fn lemma_be_value_u256(v: uint::U256)
    ensures
        be_value(u256_be_bytes(v)) == u256_value(v),
{
    let w3 = u64_be_bytes(v.0[3]);
    let w2 = u64_be_bytes(v.0[2]);
    let w1 = u64_be_bytes(v.0[1]);
    let w0 = u64_be_bytes(v.0[0]);
    lemma_be_value_u64(v.0[3]);
    lemma_be_value_u64(v.0[2]);
    lemma_be_value_u64(v.0[1]);
    lemma_be_value_u64(v.0[0]);
    lemma_be_value_append(w3, w2);
    lemma_be_value_append(w3 + w2, w1);
    lemma_be_value_append(w3 + w2 + w1, w0);
    assert(pow(256, 8) == 0x1_0000_0000_0000_0000) by {
        reveal_with_fuel(pow, 9);
    }
    let m: int = 0x1_0000_0000_0000_0000;
    let (a, b, c, d) = (v.0[0] as int, v.0[1] as int, v.0[2] as int, v.0[3] as int);
    assert(((d * m + c) * m + b) * m + a == a + b * 0x1_0000_0000_0000_0000 + c
        * 0x1_0000_0000_0000_0000_0000_0000_0000_0000 + d
        * 0x1_0000_0000_0000_0000_0000_0000_0000_0000_0000_0000_0000_0000) by (nonlinear_arith)
        requires
            m == 0x1_0000_0000_0000_0000,
    ;
}

/// Relies on `uint::U256::to_big_endian`: it writes limb `3 - i` as eight
/// big-endian bytes at offset `8 * i` of a 32-byte buffer.
#[verifier::external_body]
fn u256_to_be(v: &uint::U256) -> (r: [u8; 32])
    ensures
        r@ == u256_be_bytes(*v),
{
    let mut bytes = [0u8; 32];
    v.to_big_endian(&mut bytes);
    bytes
}

/// Relies on `uint::U256::from_big_endian`: on a 32-byte slice it stores the
/// bytes in reverse order over the limbs (little-endian targets), which is the
/// inverse of `to_big_endian`.
#[verifier::external_body]
fn u256_from_be(bytes: &[u8; 32]) -> (r: uint::U256)
    ensures
        u256_be_bytes(r) == bytes@,
{
    uint::U256::from_big_endian(bytes)
}

/// Encodes `v` into its 32-byte big-endian wire form.
pub fn encode_u256(v: &uint::U256) -> (r: [u8; 32])
    ensures
        r@ == u256_be_bytes(*v),
        be_value(r@) == u256_value(*v),
{
    proof {
        lemma_be_value_u256(*v);
    }
    u256_to_be(v)
}

/// Decodes a 32-byte big-endian wire form; every bit pattern is a value.
pub fn decode_u256(bytes: &[u8; 32]) -> (r: uint::U256)
    ensures
        u256_be_bytes(r) == bytes@,
        u256_value(r) == be_value(bytes@),
{
    let r = u256_from_be(bytes);
    proof {
        lemma_be_value_u256(r);
    }
    r
}

/// Two 64-bit words with the same big-endian bytes are equal.
pub proof fn lemma_u64_be_bytes_injective(x: u64, y: u64)
    requires
        u64_be_bytes(x) == u64_be_bytes(y),
    ensures
        x == y,
{
    assert(u64_be_bytes(x)[0] == u64_be_bytes(y)[0]);
    assert(u64_be_bytes(x)[1] == u64_be_bytes(y)[1]);
    assert(u64_be_bytes(x)[2] == u64_be_bytes(y)[2]);
    assert(u64_be_bytes(x)[3] == u64_be_bytes(y)[3]);
    assert(u64_be_bytes(x)[4] == u64_be_bytes(y)[4]);
    assert(u64_be_bytes(x)[5] == u64_be_bytes(y)[5]);
    assert(u64_be_bytes(x)[6] == u64_be_bytes(y)[6]);
    assert(u64_be_bytes(x)[7] == u64_be_bytes(y)[7]);
    assert(x == y) by (bit_vector)
        requires
            ((x >> 56u64) & 0xffu64) as u8 == ((y >> 56u64) & 0xffu64) as u8,
            ((x >> 48u64) & 0xffu64) as u8 == ((y >> 48u64) & 0xffu64) as u8,
            ((x >> 40u64) & 0xffu64) as u8 == ((y >> 40u64) & 0xffu64) as u8,
            ((x >> 32u64) & 0xffu64) as u8 == ((y >> 32u64) & 0xffu64) as u8,
            ((x >> 24u64) & 0xffu64) as u8 == ((y >> 24u64) & 0xffu64) as u8,
            ((x >> 16u64) & 0xffu64) as u8 == ((y >> 16u64) & 0xffu64) as u8,
            ((x >> 8u64) & 0xffu64) as u8 == ((y >> 8u64) & 0xffu64) as u8,
            (x & 0xffu64) as u8 == (y & 0xffu64) as u8,
    ;
}

/// Every 256-bit value has exactly one big-endian form: equal forms mean equal values.
pub proof fn lemma_u256_be_bytes_injective(v: uint::U256, w: uint::U256)
    requires
        u256_be_bytes(v) == u256_be_bytes(w),
    ensures
        v == w,
{
    let a = u256_be_bytes(v);
    let b = u256_be_bytes(w);
    assert(a.subrange(0, 8) =~= u64_be_bytes(v.0[3]));
    assert(b.subrange(0, 8) =~= u64_be_bytes(w.0[3]));
    assert(a.subrange(8, 16) =~= u64_be_bytes(v.0[2]));
    assert(b.subrange(8, 16) =~= u64_be_bytes(w.0[2]));
    assert(a.subrange(16, 24) =~= u64_be_bytes(v.0[1]));
    assert(b.subrange(16, 24) =~= u64_be_bytes(w.0[1]));
    assert(a.subrange(24, 32) =~= u64_be_bytes(v.0[0]));
    assert(b.subrange(24, 32) =~= u64_be_bytes(w.0[0]));
    lemma_u64_be_bytes_injective(v.0[0], w.0[0]);
    lemma_u64_be_bytes_injective(v.0[1], w.0[1]);
    lemma_u64_be_bytes_injective(v.0[2], w.0[2]);
    lemma_u64_be_bytes_injective(v.0[3], w.0[3]);
    assert(v.0 =~= w.0);
}

/// Decoding the encoding of any 256-bit value gives the value back.
pub proof fn lemma_decode_encode(v: uint::U256, bytes: [u8; 32], back: uint::U256)
    requires
        bytes@ == u256_be_bytes(v),
        u256_be_bytes(back) == bytes@,
    ensures
        back == v,
{
    lemma_u256_be_bytes_injective(back, v);
}

/// Encoding the decoding of any 32 bytes gives the bytes back.
pub proof fn lemma_encode_decode(bytes: [u8; 32], v: uint::U256, back: [u8; 32])
    requires
        u256_be_bytes(v) == bytes@,
        back@ == u256_be_bytes(v),
    ensures
        back == bytes,
{
    assert(back =~= bytes);
}

/// The all-zero form, the content of a buffer that the host left untouched,
/// decodes to zero.
pub proof fn lemma_zero_bytes_decode_to_zero(v: uint::U256)
    requires
        u256_be_bytes(v) == zeros(32),
    ensures
        u256_value(v) == 0,
{
    let zero: u64 = 0;
    assert(((zero >> 56u64) & 0xffu64) as u8 == 0 && ((zero >> 48u64) & 0xffu64) as u8 == 0
        && ((zero >> 40u64) & 0xffu64) as u8 == 0 && ((zero >> 32u64) & 0xffu64) as u8 == 0
        && ((zero >> 24u64) & 0xffu64) as u8 == 0 && ((zero >> 16u64) & 0xffu64) as u8 == 0
        && ((zero >> 8u64) & 0xffu64) as u8 == 0 && (zero & 0xffu64) as u8 == 0) by (bit_vector)
        requires
            zero == 0,
    ;
    let z = u64_be_bytes(zero);
    assert(z =~= Seq::new(8, |i: int| 0u8));
    let a = u256_be_bytes(v);
    assert(a.subrange(0, 8) =~= u64_be_bytes(v.0[3]));
    assert(a.subrange(8, 16) =~= u64_be_bytes(v.0[2]));
    assert(a.subrange(16, 24) =~= u64_be_bytes(v.0[1]));
    assert(a.subrange(24, 32) =~= u64_be_bytes(v.0[0]));
    assert(a.subrange(0, 8) =~= z);
    assert(a.subrange(8, 16) =~= z);
    assert(a.subrange(16, 24) =~= z);
    assert(a.subrange(24, 32) =~= z);
    lemma_u64_be_bytes_injective(v.0[0], zero);
    lemma_u64_be_bytes_injective(v.0[1], zero);
    lemma_u64_be_bytes_injective(v.0[2], zero);
    lemma_u64_be_bytes_injective(v.0[3], zero);
}

} // verus!
