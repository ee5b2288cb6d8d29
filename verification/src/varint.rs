//! The protocol's variable-length integer: a 32-bit value in one to five
//! bytes, seven bits to a byte, lowest group first, the top bit of a byte
//! saying that another byte follows.

use vstd::prelude::*;
use crate::error::{Error, FramingFault};

verus! {

/// The most bytes a VarInt takes.
pub const MAX_VARINT_LEN: usize = 5;

/// The 32 bits of `n`, read as an unsigned number.
pub open spec fn bit_pattern(n: i32) -> nat {
    if n >= 0 {
        n as nat
    } else {
        (n + 0x1_0000_0000) as nat
    }
}

/// The signed number whose 32 bits are the low 32 bits of `v`.
pub open spec fn from_bit_pattern(v: nat) -> i32 {
    let w = v % 0x1_0000_0000;
    if w < 0x8000_0000 {
        w as i32
    } else {
        (w - 0x1_0000_0000) as i32
    }
}

/// 128 to the power `k`.
pub open spec fn pow128(k: nat) -> nat
    decreases k,
{
    if k == 0 {
        1
    } else {
        128 * pow128((k - 1) as nat)
    }
}

/// The groups of `v`, lowest first, each but the last with the continuation bit.
pub open spec fn spec_encode_groups(v: nat) -> Seq<u8>
    decreases v,
{
    if v < 128 {
        seq![v as u8]
    } else {
        seq![(v % 128 + 128) as u8] + spec_encode_groups(v / 128)
    }
}

/// The wire form of `n`.
pub open spec fn spec_encode(n: i32) -> Seq<u8> {
    spec_encode_groups(bit_pattern(n))
}

/// The fewest groups of seven bits that hold `v`.
pub open spec fn groups_needed(v: nat) -> nat {
    if v < 0x80 {
        1
    } else if v < 0x4000 {
        2
    } else if v < 0x20_0000 {
        3
    } else if v < 0x1000_0000 {
        4
    } else {
        5
    }
}

/// The number of bytes up to and including the first one without the
/// continuation bit, where one is found among the first `limit` bytes.
pub open spec fn spec_varint_end(bytes: Seq<u8>, limit: nat) -> Option<nat>
    decreases limit,
{
    if limit == 0 || bytes.len() == 0 {
        None
    } else if bytes[0] < 128 {
        Some(1)
    } else {
        match spec_varint_end(bytes.drop_first(), (limit - 1) as nat) {
            Some(k) => Some(k + 1),
            None => None,
        }
    }
}

/// The low seven bits of every byte, read as digits in base 128, lowest first.
pub open spec fn spec_group_sum(bytes: Seq<u8>) -> nat
    decreases bytes.len(),
{
    if bytes.len() == 0 {
        0
    } else {
        (bytes[0] % 128) as nat + 128 * spec_group_sum(bytes.drop_first())
    }
}

/// The value at the head of `bytes` and the number of bytes it takes, or
/// `None` where the first five bytes hold no end.
pub open spec fn spec_decode(bytes: Seq<u8>) -> Option<(i32, nat)> {
    match spec_varint_end(bytes, MAX_VARINT_LEN as nat) {
        Some(k) => Some((from_bit_pattern(spec_group_sum(bytes.take(k as int))), k)),
        None => None,
    }
}

/// The fault that decoding `bytes` ends in, where it ends in one: too long
/// where five bytes were there to read, cut short otherwise.
pub open spec fn spec_decode_fault(bytes: Seq<u8>) -> FramingFault {
    if bytes.len() >= MAX_VARINT_LEN {
        FramingFault::VarIntTooLong
    } else {
        FramingFault::UnexpectedEnd
    }
}

/// The powers of 128 that a VarInt reaches.
proof fn lemma_pow128_values()
    ensures
        pow128(0) == 1,
        pow128(1) == 0x80,
        pow128(2) == 0x4000,
        pow128(3) == 0x20_0000,
        pow128(4) == 0x1000_0000,
        pow128(5) == 0x8_0000_0000,
{
    reveal_with_fuel(pow128, 6);
}

/// Appending a byte adds its group at the next power of 128.
proof fn lemma_group_sum_push(bytes: Seq<u8>, b: u8)
    ensures
        spec_group_sum(bytes.push(b)) == spec_group_sum(bytes) + (b % 128) * pow128(bytes.len()),
    decreases bytes.len(),
{
    let longer = bytes.push(b);
    let group = (b % 128) as nat;
    if bytes.len() == 0 {
        assert(longer.drop_first() =~= Seq::<u8>::empty());
        assert(spec_group_sum(longer) == group + 128 * spec_group_sum(longer.drop_first()));
        assert(pow128(0) == 1);
        assert(group * pow128(0) == group) by (nonlinear_arith)
            requires
                pow128(0) == 1,
        ;
    } else {
        let tail = bytes.drop_first();
        assert(longer.drop_first() =~= tail.push(b));
        assert(longer[0] == bytes[0]);
        lemma_group_sum_push(tail, b);
        assert(128 * (group * pow128(tail.len())) == group * pow128(bytes.len()))
            by (nonlinear_arith)
            requires
                pow128(bytes.len()) == 128 * pow128(tail.len()),
        ;
    }
}

/// The groups of a sequence of `k` bytes stay below 128 to the `k`.
proof fn lemma_group_sum_bound(bytes: Seq<u8>)
    ensures
        spec_group_sum(bytes) < pow128(bytes.len()),
    decreases bytes.len(),
{
    if bytes.len() > 0 {
        lemma_group_sum_bound(bytes.drop_first());
    }
}

/// A VarInt ends within the bytes looked at, and every byte before its
/// last carries the continuation bit.
proof fn lemma_varint_end_shape(bytes: Seq<u8>, limit: nat)
    ensures
        match spec_varint_end(bytes, limit) {
            Some(k) => {
                &&& 1 <= k <= limit
                &&& k <= bytes.len()
                &&& bytes[k - 1] < 128
                &&& forall|j: int| 0 <= j < k - 1 ==> bytes[j] >= 128
            },
            None => forall|j: int| 0 <= j < limit && j < bytes.len() ==> bytes[j] >= 128,
        },
    decreases limit,
{
    if limit == 0 || bytes.len() == 0 {
    } else if bytes[0] < 128 {
    } else {
        let tail = bytes.drop_first();
        lemma_varint_end_shape(tail, (limit - 1) as nat);
        match spec_varint_end(tail, (limit - 1) as nat) {
            Some(k) => {
                assert forall|j: int| 0 <= j < k implies bytes[j] >= 128 by {
                    if j > 0 {
                        assert(bytes[j] == tail[j - 1]);
                    }
                }
            },
            None => {
                assert forall|j: int| 0 <= j < limit && j < bytes.len() implies bytes[j]
                    >= 128 by {
                    if j > 0 {
                        assert(bytes[j] == tail[j - 1]);
                    }
                }
            },
        }
    }
}

/// The first byte without the continuation bit ends the VarInt.
proof fn lemma_varint_end_found(bytes: Seq<u8>, limit: nat, k: nat)
    requires
        1 <= k <= limit,
        k <= bytes.len(),
        bytes[k - 1] < 128,
        forall|j: int| 0 <= j < k - 1 ==> bytes[j] >= 128,
    ensures
        spec_varint_end(bytes, limit) == Some(k),
    decreases limit,
{
    if k == 1 {
    } else {
        let tail = bytes.drop_first();
        assert(bytes[0] >= 128);
        assert forall|j: int| 0 <= j < k - 2 implies tail[j] >= 128 by {
            assert(tail[j] == bytes[j + 1]);
        }
        lemma_varint_end_found(tail, (limit - 1) as nat, (k - 1) as nat);
    }
}

/// Where every byte looked at carries the continuation bit, no VarInt ends.
proof fn lemma_varint_end_missing(bytes: Seq<u8>, limit: nat)
    requires
        forall|j: int| 0 <= j < limit && j < bytes.len() ==> bytes[j] >= 128,
    ensures
        spec_varint_end(bytes, limit) is None,
    decreases limit,
{
    if limit == 0 || bytes.len() == 0 {
    } else {
        let tail = bytes.drop_first();
        assert(bytes[0] >= 128);
        assert forall|j: int| 0 <= j < limit - 1 && j < tail.len() implies tail[j] >= 128 by {
            assert(tail[j] == bytes[j + 1]);
        }
        lemma_varint_end_missing(tail, (limit - 1) as nat);
    }
}

/// The encoding of `v` ends after its fewest groups, which carry `v`,
/// whatever bytes follow.
proof fn lemma_encode_groups_decode(v: nat, rest: Seq<u8>, limit: nat)
    requires
        v < 0x1_0000_0000,
        groups_needed(v) <= limit,
    ensures
        spec_encode_groups(v).len() == groups_needed(v),
        spec_varint_end(spec_encode_groups(v) + rest, limit) == Some(groups_needed(v)),
        spec_group_sum(spec_encode_groups(v)) == v,
        (spec_encode_groups(v) + rest).take(groups_needed(v) as int) == spec_encode_groups(v),
    decreases v,
{
    let enc = spec_encode_groups(v);
    if v < 128 {
        assert(enc =~= seq![v as u8]);
        assert((enc + rest)[0] == v as u8);
        assert(enc.drop_first() =~= Seq::<u8>::empty());
        assert(spec_group_sum(enc) == (enc[0] % 128) as nat + 128 * spec_group_sum(
            enc.drop_first(),
        ));
        assert((enc + rest).take(1) =~= enc);
    } else {
        let head = (v % 128 + 128) as u8;
        let tail = spec_encode_groups(v / 128);
        assert(enc =~= seq![head] + tail);
        lemma_encode_groups_decode(v / 128, rest, (limit - 1) as nat);
        assert((enc + rest)[0] == head);
        assert((enc + rest).drop_first() =~= tail + rest);
        assert(enc.drop_first() =~= tail);
        assert(head % 128 == v % 128);
        assert((enc + rest).take(groups_needed(v) as int) =~= enc);
    }
}

/// The head of bytes that hold a VarInt holds the same VarInt, where it
/// reaches to the VarInt's end, and otherwise none, for want of bytes.
pub proof fn lemma_decode_prefix(bytes: Seq<u8>, head: Seq<u8>)
    requires
        head.len() <= bytes.len(),
        head == bytes.take(head.len() as int),
        spec_decode(bytes) is Some,
    ensures
        match spec_decode(bytes) {
            Some((n, used)) => if used <= head.len() {
                spec_decode(head) == Some((n, used))
            } else {
                spec_decode(head) is None && head.len() < MAX_VARINT_LEN
            },
            None => true,
        },
{
    lemma_varint_end_shape(bytes, MAX_VARINT_LEN as nat);
    let used = spec_varint_end(bytes, MAX_VARINT_LEN as nat)->0;
    if used <= head.len() {
        lemma_varint_end_found(head, MAX_VARINT_LEN as nat, used);
        assert(head.take(used as int) =~= bytes.take(used as int));
    } else {
        lemma_varint_end_missing(head, MAX_VARINT_LEN as nat);
    }
}

/// Decoding what encoding wrote gives the number back, after exactly the
/// bytes that were written, whatever follows them.
pub proof fn lemma_decode_encode(n: i32, rest: Seq<u8>)
    ensures
        spec_decode(spec_encode(n) + rest) == Some((n, spec_encode(n).len())),
{
    let v = bit_pattern(n);
    lemma_encode_groups_decode(v, rest, MAX_VARINT_LEN as nat);
}

/// Decoding the encoding of any 32-bit number gives the number back.
pub proof fn lemma_round_trip(n: i32)
    ensures
        spec_decode(spec_encode(n)) == Some((n, spec_encode(n).len())),
{
    lemma_decode_encode(n, Seq::<u8>::empty());
    assert(spec_encode(n) + Seq::<u8>::empty() =~= spec_encode(n));
}

/// An encoding takes one to five bytes: as many as the fewest groups of
/// seven bits that hold the bit pattern.
pub proof fn lemma_encode_len(n: i32)
    ensures
        spec_encode(n).len() == groups_needed(bit_pattern(n)),
        1 <= spec_encode(n).len() <= MAX_VARINT_LEN,
{
    lemma_encode_groups_decode(bit_pattern(n), Seq::<u8>::empty(), MAX_VARINT_LEN as nat);
}

/// No bytes that decode to `n` are fewer than the encoding of `n`.
pub proof fn lemma_encode_minimal(bytes: Seq<u8>, n: i32, used: nat)
    requires
        spec_decode(bytes) == Some((n, used)),
    ensures
        spec_encode(n).len() <= used,
{
    lemma_encode_len(n);
    lemma_varint_end_shape(bytes, MAX_VARINT_LEN as nat);
    let head = bytes.take(used as int);
    lemma_group_sum_bound(head);
    lemma_pow128_values();
    if used < 5 {
        let sum = spec_group_sum(head);
        assert(pow128(used) <= 0x1000_0000) by {
            reveal_with_fuel(pow128, 6);
        }
        assert(sum < 0x1000_0000);
        assert(bit_pattern(from_bit_pattern(sum)) == sum);
        assert(groups_needed(sum) <= used) by {
            reveal_with_fuel(pow128, 6);
        }
    }
}

/// Encodes `n` as a VarInt.
pub fn convert_i32_to_varint(n: i32) -> (bytes: Vec<u8>)
    ensures
        bytes@ == spec_encode(n),
        1 <= bytes.len() <= MAX_VARINT_LEN,
{
    let mut rest: u32 = #[verifier::truncate] (n as u32);
    let mut bytes: Vec<u8> = Vec::with_capacity(5);
    proof {
        assert((n >= 0 ==> (n as u32) == n) && (n < 0 ==> (n as u32) == n + 0x1_0000_0000))
            by (bit_vector);
    }
    loop
        invariant
            bytes@ + spec_encode_groups(rest as nat) == spec_encode(n),
        decreases rest,
    {
        let ghost before = rest;
        proof {
            assert(((before & 0xFFFF_FF80 == 0) <==> before < 128) && before >> 7 == before / 128
                && before & 0x7F | 0x80 == before % 128 + 128) by (bit_vector);
        }
        if rest & 0xFFFF_FF80 == 0 {
            bytes.push(#[verifier::truncate] (rest as u8));
            proof {
                assert(bytes@ =~= spec_encode(n));
                lemma_encode_len(n);
            }
            return bytes;
        }
        bytes.push(#[verifier::truncate] ((rest & 0x7F | 0x80) as u8));
        rest >>= 7;
        assert(bytes@ + spec_encode_groups(rest as nat) =~= spec_encode(n));
    }
}

/// Decodes the VarInt at the head of `bytes`: its value and the number of
/// bytes it takes. Bytes after it are not looked at. Fails where none of
/// the first five bytes ends the value.
pub fn convert_varint_to_i32(bytes: &[u8]) -> (res: Result<(i32, usize), Error>)
    ensures
        match res {
            Ok((n, used)) => {
                &&& spec_decode(bytes@) == Some((n, used as nat))
                &&& 1 <= used <= MAX_VARINT_LEN
                &&& used <= bytes.len()
            },
            Err(e) => spec_decode(bytes@) is None && e == Error::Framing(
                spec_decode_fault(bytes@),
            ),
        },
{
    let mut value: u32 = 0;
    let mut i: usize = 0;
    while i < MAX_VARINT_LEN && i < bytes.len()
        invariant
            i <= MAX_VARINT_LEN,
            i <= bytes.len(),
            forall|j: int| 0 <= j < i ==> bytes@[j] >= 128,
            i < MAX_VARINT_LEN ==> value == spec_group_sum(bytes@.take(i as int)),
        decreases MAX_VARINT_LEN - i,
    {
        let b: u8 = bytes[i];
        let group: u32 = (b & 0x7F) as u32;
        let shift: u32 = 7 * (i as u32);
        let ghost before = value;
        let ghost head = bytes@.take(i as int);
        proof {
            lemma_group_sum_bound(head);
            lemma_group_sum_push(head, b);
            lemma_pow128_values();
            assert(bytes@.take(i + 1) =~= head.push(b));
            assert(b & 0x7F == b % 128 && ((b & 0x80 == 0) <==> b < 128)) by (bit_vector);
            lemma_accumulate(before, group, shift);
        }
        value = value | (group << shift);
        if b & 0x80 == 0 {
            proof {
                lemma_varint_end_found(bytes@, MAX_VARINT_LEN as nat, (i + 1) as nat);
                assert(value as i32 == from_bit_pattern(value as nat)) by {
                    lemma_signed(value);
                }
            }
            return Ok((#[verifier::truncate] (value as i32), i + 1));
        }
        i += 1;
    }
    proof {
        lemma_varint_end_missing(bytes@, MAX_VARINT_LEN as nat);
    }
    if i < MAX_VARINT_LEN {
        Err(Error::Framing(FramingFault::UnexpectedEnd))
    } else {
        Err(Error::Framing(FramingFault::VarIntTooLong))
    }
}

/// Or-ing a group in above the bits already set adds it at its power of
/// 128, within 32 bits.
proof fn lemma_accumulate(value: u32, group: u32, shift: u32)
    requires
        group < 128,
        shift == 0 || shift == 7 || shift == 14 || shift == 21 || shift == 28,
        value < pow128((shift / 7) as nat),
    ensures
        (value | (group << shift)) as nat == (value + group * pow128((shift / 7) as nat))
            % 0x1_0000_0000,
        shift < 28 ==> (value | (group << shift)) as nat == value + group * pow128(
            (shift / 7) as nat,
        ),
{
    lemma_pow128_values();
    if shift == 0 {
        assert(value | (group << 0u32) == group) by (bit_vector)
            requires
                value < 1,
        ;
    } else if shift == 7 {
        assert(value | (group << 7u32) == value + group * 0x80) by (bit_vector)
            requires
                value < 0x80,
                group < 128,
        ;
    } else if shift == 14 {
        assert(value | (group << 14u32) == value + group * 0x4000) by (bit_vector)
            requires
                value < 0x4000,
                group < 128,
        ;
    } else if shift == 21 {
        assert(value | (group << 21u32) == value + group * 0x20_0000) by (bit_vector)
            requires
                value < 0x20_0000,
                group < 128,
        ;
    } else {
        assert(value | (group << 28u32) == (value + group * 0x1000_0000) % 0x1_0000_0000)
            by (bit_vector)
            requires
                value < 0x1000_0000,
                group < 128,
        ;
    }
}

/// A cast to `i32` keeps the 32 bits.
proof fn lemma_signed(value: u32)
    ensures
        value as i32 == from_bit_pattern(value as nat),
{
    assert((value < 0x8000_0000 ==> (value as i32) == value) && (value >= 0x8000_0000 ==> (
    value as i32) == value - 0x1_0000_0000)) by (bit_vector);
}

} // verus!
