//! The fixed-width fields of the protocol, most significant byte first, and
//! the joining of byte strings.

use vstd::prelude::*;

verus! {

/// The two bytes of `x`, high byte first.
pub open spec fn spec_u16_be(x: u16) -> Seq<u8> {
    seq![(x / 0x100) as u8, (x % 0x100) as u8]
}

/// The 64 bits of `x`, read as an unsigned number.
pub open spec fn bit_pattern_64(x: i64) -> nat {
    if x >= 0 {
        x as nat
    } else {
        (x + 0x1_0000_0000_0000_0000) as nat
    }
}

/// The signed number whose 64 bits are `v`, for `v` below 2 to the 64.
pub open spec fn from_bit_pattern_64(v: nat) -> i64 {
    if v < 0x8000_0000_0000_0000 {
        v as i64
    } else {
        (v - 0x1_0000_0000_0000_0000) as i64
    }
}

/// The eight bytes of the unsigned number `v`, high byte first.
pub open spec fn spec_u64_be(v: nat) -> Seq<u8> {
    seq![
        (v / 0x100_0000_0000_0000 % 0x100) as u8,
        (v / 0x1_0000_0000_0000 % 0x100) as u8,
        (v / 0x100_0000_0000 % 0x100) as u8,
        (v / 0x1_0000_0000 % 0x100) as u8,
        (v / 0x100_0000 % 0x100) as u8,
        (v / 0x1_0000 % 0x100) as u8,
        (v / 0x100 % 0x100) as u8,
        (v % 0x100) as u8,
    ]
}

/// The unsigned number that eight bytes spell, high byte first.
pub open spec fn spec_u64_from_be(b: Seq<u8>) -> nat
    recommends
        b.len() == 8,
{
    (b[0] * 0x100_0000_0000_0000 + b[1] * 0x1_0000_0000_0000 + b[2] * 0x100_0000_0000 + b[3]
        * 0x1_0000_0000 + b[4] * 0x100_0000 + b[5] * 0x1_0000 + b[6] * 0x100 + b[7]) as nat
}

/// The eight bytes of `x` in two's complement, high byte first.
pub open spec fn spec_i64_be(x: i64) -> Seq<u8> {
    spec_u64_be(bit_pattern_64(x))
}

/// The signed number that eight bytes spell in two's complement, high byte first.
pub open spec fn spec_i64_from_be(b: Seq<u8>) -> i64
    recommends
        b.len() == 8,
{
    from_bit_pattern_64(spec_u64_from_be(b))
}

/// The eight bytes of a number below 2 to the 64 spell that number.
proof fn lemma_u64_be_digits(v: u64)
    by (bit_vector)
    ensures
        (v / 0x100_0000_0000_0000 % 0x100) * 0x100_0000_0000_0000 + (v / 0x1_0000_0000_0000
            % 0x100) * 0x1_0000_0000_0000 + (v / 0x100_0000_0000 % 0x100) * 0x100_0000_0000 + (v
            / 0x1_0000_0000 % 0x100) * 0x1_0000_0000 + (v / 0x100_0000 % 0x100) * 0x100_0000 + (v
            / 0x1_0000 % 0x100) * 0x1_0000 + (v / 0x100 % 0x100) * 0x100 + v % 0x100 == v,
{
}

/// The number that eight bytes spell is below 2 to the 64 and has those
/// bytes as its digits in base 256.
proof fn lemma_u64_be_spelled(b0: u8, b1: u8, b2: u8, b3: u8, b4: u8, b5: u8, b6: u8, b7: u8)
    by (bit_vector)
    ensures
        ({
            let v = b0 * 0x100_0000_0000_0000 + b1 * 0x1_0000_0000_0000 + b2 * 0x100_0000_0000
                + b3 * 0x1_0000_0000 + b4 * 0x100_0000 + b5 * 0x1_0000 + b6 * 0x100 + b7;
            &&& v < 0x1_0000_0000_0000_0000
            &&& v / 0x100_0000_0000_0000 % 0x100 == b0
            &&& v / 0x1_0000_0000_0000 % 0x100 == b1
            &&& v / 0x100_0000_0000 % 0x100 == b2
            &&& v / 0x1_0000_0000 % 0x100 == b3
            &&& v / 0x100_0000 % 0x100 == b4
            &&& v / 0x1_0000 % 0x100 == b5
            &&& v / 0x100 % 0x100 == b6
            &&& v % 0x100 == b7
        }),
{
}

/// Reading back the eight bytes of a number gives the number.
pub proof fn lemma_i64_be_round_trip(x: i64)
    ensures
        spec_i64_be(x).len() == 8,
        spec_i64_from_be(spec_i64_be(x)) == x,
{
    let v = bit_pattern_64(x);
    lemma_u64_be_digits(v as u64);
}

/// Eight bytes spell one number only: writing the number they spell gives
/// the same eight bytes.
pub proof fn lemma_i64_be_unique(b: Seq<u8>)
    requires
        b.len() == 8,
    ensures
        spec_i64_be(spec_i64_from_be(b)) == b,
{
    let v = spec_u64_from_be(b);
    lemma_u64_be_spelled(b[0], b[1], b[2], b[3], b[4], b[5], b[6], b[7]);
    assert(bit_pattern_64(from_bit_pattern_64(v)) == v);
    assert(spec_u64_be(v) =~= b);
}

/// Appends `src` to `out`.
pub fn append_bytes(out: &mut Vec<u8>, src: &[u8])
    ensures
        final(out)@ == old(out)@ + src@,
{
    let mut i: usize = 0;
    while i < src.len()
        invariant
            i <= src.len(),
            out@ == old(out)@ + src@.take(i as int),
        decreases src.len() - i,
    {
        out.push(src[i]);
        i += 1;
        assert(out@ =~= old(out)@ + src@.take(i as int));
    }
    assert(src@.take(src.len() as int) =~= src@);
}

/// Appends the two bytes of `x`, high byte first.
pub fn put_u16_be(out: &mut Vec<u8>, x: u16)
    ensures
        final(out)@ == old(out)@ + spec_u16_be(x),
{
    let high: u8 = #[verifier::truncate] ((x >> 8) as u8);
    let low: u8 = #[verifier::truncate] (x as u8);
    proof {
        assert((x >> 8) as u8 == x / 0x100 && x as u8 == x % 0x100) by (bit_vector);
    }
    out.push(high);
    out.push(low);
    assert(out@ =~= old(out)@ + spec_u16_be(x));
}

/// The byte of `v` that stands `shift` bits above the lowest.
fn byte_at(v: u64, shift: u32) -> (b: u8)
    requires
        shift == 0 || shift == 8 || shift == 16 || shift == 24 || shift == 32 || shift == 40
            || shift == 48 || shift == 56,
    ensures
        shift == 0 ==> b == v % 0x100,
        shift == 8 ==> b == v / 0x100 % 0x100,
        shift == 16 ==> b == v / 0x1_0000 % 0x100,
        shift == 24 ==> b == v / 0x100_0000 % 0x100,
        shift == 32 ==> b == v / 0x1_0000_0000 % 0x100,
        shift == 40 ==> b == v / 0x100_0000_0000 % 0x100,
        shift == 48 ==> b == v / 0x1_0000_0000_0000 % 0x100,
        shift == 56 ==> b == v / 0x100_0000_0000_0000 % 0x100,
{
    proof {
        assert((v >> 0u32) as u8 == v % 0x100 && (v >> 8u32) as u8 == v / 0x100 % 0x100 && (v
            >> 16u32) as u8 == v / 0x1_0000 % 0x100 && (v >> 24u32) as u8 == v / 0x100_0000
            % 0x100 && (v >> 32u32) as u8 == v / 0x1_0000_0000 % 0x100 && (v >> 40u32) as u8 == v
            / 0x100_0000_0000 % 0x100 && (v >> 48u32) as u8 == v / 0x1_0000_0000_0000 % 0x100
            && (v >> 56u32) as u8 == v / 0x100_0000_0000_0000 % 0x100) by (bit_vector);
    }
    #[verifier::truncate]
    ((v >> shift) as u8)
}

/// Appends the eight bytes of `x`, high byte first.
pub fn put_i64_be(out: &mut Vec<u8>, x: i64)
    ensures
        final(out)@ == old(out)@ + spec_i64_be(x),
{
    let v: u64 = #[verifier::truncate] (x as u64);
    proof {
        assert((x >= 0 ==> (x as u64) == x) && (x < 0 ==> (x as u64) == x
            + 0x1_0000_0000_0000_0000)) by (bit_vector);
    }
    out.push(byte_at(v, 56));
    out.push(byte_at(v, 48));
    out.push(byte_at(v, 40));
    out.push(byte_at(v, 32));
    out.push(byte_at(v, 24));
    out.push(byte_at(v, 16));
    out.push(byte_at(v, 8));
    out.push(byte_at(v, 0));
    assert(out@ =~= old(out)@ + spec_i64_be(x));
}

/// Reads eight bytes, high byte first, as a signed number; `None` where
/// `bytes` are not eight.
pub fn get_i64_be(bytes: &[u8]) -> (x: Option<i64>)
    ensures
        x == (if bytes@.len() == 8 {
            Some(spec_i64_from_be(bytes@))
        } else {
            None
        }),
{
    if bytes.len() != 8 {
        return None;
    }
    let mut v: u64 = 0;
    let mut i: usize = 0;
    while i < 8
        invariant
            i <= 8,
            bytes.len() == 8,
            v == spec_prefix_value(bytes@, i as nat),
            i < 8 ==> v < spec_prefix_bound(i as nat),
        decreases 8 - i,
    {
        let b: u8 = bytes[i];
        let ghost before = v;
        proof {
            reveal_with_fuel(spec_prefix_value, 9);
            reveal_with_fuel(spec_prefix_bound, 9);
            assert(before < 0x100_0000_0000_0000 ==> (before << 8u32) | (b as u64) == before
                * 0x100 + b) by (bit_vector);
        }
        v = (v << 8u32) | (b as u64);
        i += 1;
    }
    proof {
        reveal_with_fuel(spec_prefix_value, 9);
        assert((v < 0x8000_0000_0000_0000 ==> (v as i64) == v) && (v >= 0x8000_0000_0000_0000
            ==> (v as i64) == v - 0x1_0000_0000_0000_0000)) by (bit_vector);
    }
    Some(#[verifier::truncate] (v as i64))
}

/// The number that the first `k` bytes spell, high byte first.
spec fn spec_prefix_value(b: Seq<u8>, k: nat) -> nat
    decreases k,
{
    if k == 0 {
        0
    } else {
        spec_prefix_value(b, (k - 1) as nat) * 0x100 + b[k - 1] as nat
    }
}

/// 256 to the power `k`.
spec fn spec_prefix_bound(k: nat) -> nat
    decreases k,
{
    if k == 0 {
        1
    } else {
        0x100 * spec_prefix_bound((k - 1) as nat)
    }
}

} // verus!
