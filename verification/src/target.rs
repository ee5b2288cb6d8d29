//! The server to ask, as a user names it: a host, and a port after a
//! colon where it is not the usual one.

use vstd::prelude::*;
use vstd::string::StrSliceExecFns;
use crate::text::{chars_of, find_first};

verus! {

/// The port that a server listens on where none is named.
pub const DEFAULT_PORT: u16 = 25565;

/// A server to ask.
#[derive(Debug, Clone, PartialEq, Eq)]
pub struct Target {
    pub host: String,
    pub port: u16,
}

/// The number that a decimal digit stands for.
pub open spec fn spec_digit_value(c: char) -> Option<nat> {
    if c == '0' {
        Some(0)
    } else if c == '1' {
        Some(1)
    } else if c == '2' {
        Some(2)
    } else if c == '3' {
        Some(3)
    } else if c == '4' {
        Some(4)
    } else if c == '5' {
        Some(5)
    } else if c == '6' {
        Some(6)
    } else if c == '7' {
        Some(7)
    } else if c == '8' {
        Some(8)
    } else if c == '9' {
        Some(9)
    } else {
        None
    }
}

/// Whether every character is a decimal digit.
pub open spec fn spec_all_digits(text: Seq<char>) -> bool {
    forall|i: int| 0 <= i < text.len() ==> (#[trigger] spec_digit_value(text[i])) is Some
}

/// The number that decimal digits spell.
pub open spec fn spec_number(digits: Seq<char>) -> nat
    decreases digits.len(),
{
    if digits.len() == 0 {
        0
    } else {
        spec_number(digits.drop_last()) * 10 + spec_digit_value(digits.last()).unwrap_or(0)
    }
}

/// The number that `digits` spell, where they are decimal digits, at
/// least one, for a number that sixteen bits hold.
pub open spec fn spec_unsigned(digits: Seq<char>) -> Option<u16> {
    if digits.len() > 0 && spec_all_digits(digits) && spec_number(digits) <= u16::MAX {
        Some(spec_number(digits) as u16)
    } else {
        None
    }
}

/// The port that `text` names: decimal digits, at least one, a plus
/// sign before them or not, for a number that sixteen bits hold.
pub open spec fn spec_port(text: Seq<char>) -> Option<u16> {
    if text.len() > 0 && text[0] == '+' {
        spec_unsigned(text.skip(1))
    } else {
        spec_unsigned(text)
    }
}

/// The host and the port that `text` names. The host is what stands
/// before the first colon, the port what follows it; without a colon
/// the whole is the host, and the port the usual one.
pub open spec fn spec_target(text: Seq<char>) -> Option<(Seq<char>, u16)> {
    match text.index_of_first(':') {
        None => Some((text, DEFAULT_PORT)),
        Some(colon) => match spec_port(text.skip(colon + 1)) {
            Some(port) => Some((text.take(colon), port)),
            None => None,
        },
    }
}

/// More digits never spell a smaller number.
proof fn lemma_number_grows(digits: Seq<char>, head: int)
    requires
        0 <= head <= digits.len(),
    ensures
        spec_number(digits.take(head)) <= spec_number(digits),
    decreases digits.len() - head,
{
    if head == digits.len() {
        assert(digits.take(head) =~= digits);
    } else {
        let shorter = digits.drop_last();
        assert(shorter.take(head) =~= digits.take(head));
        lemma_number_grows(shorter, head);
    }
}

/// The number that a decimal digit stands for.
pub fn digit_value(c: char) -> (res: Option<u8>)
    ensures
        match res {
            Some(d) => spec_digit_value(c) == Some(d as nat) && d < 10,
            None => spec_digit_value(c) is None,
        },
{
    if c == '0' {
        Some(0)
    } else if c == '1' {
        Some(1)
    } else if c == '2' {
        Some(2)
    } else if c == '3' {
        Some(3)
    } else if c == '4' {
        Some(4)
    } else if c == '5' {
        Some(5)
    } else if c == '6' {
        Some(6)
    } else if c == '7' {
        Some(7)
    } else if c == '8' {
        Some(8)
    } else if c == '9' {
        Some(9)
    } else {
        None
    }
}

/// Reads a number of sixteen bits from its decimal digits.
pub fn parse_unsigned(digits: &[char]) -> (res: Option<u16>)
    ensures
        res == spec_unsigned(digits@),
{
    if digits.len() == 0 {
        return None;
    }
    let mut value: u32 = 0;
    let mut i: usize = 0;
    while i < digits.len()
        invariant
            0 < digits.len(),
            i <= digits.len(),
            spec_all_digits(digits@.take(i as int)),
            value == spec_number(digits@.take(i as int)),
            value <= u16::MAX,
        decreases digits.len() - i,
    {
        let ghost head = digits@.take(i + 1);
        proof {
            assert(head.drop_last() =~= digits@.take(i as int));
            assert(head.last() == digits@[i as int]);
        }
        let d: u8 = match digit_value(digits[i]) {
            Some(d) => d,
            None => {
                assert(!spec_all_digits(digits@)) by {
                    assert(spec_digit_value(digits@[i as int]) is None);
                }
                return None;
            },
        };
        value = value * 10 + d as u32;
        proof {
            assert forall|j: int| 0 <= j < head.len() implies (#[trigger] spec_digit_value(
                head[j],
            )) is Some by {
                if j < i {
                    assert(head[j] == digits@.take(i as int)[j]);
                }
            }
        }
        if value > u16::MAX as u32 {
            proof {
                lemma_number_grows(digits@, i + 1);
            }
            return None;
        }
        i += 1;
    }
    assert(digits@.take(digits.len() as int) =~= digits@);
    Some(value as u16)
}

/// Reads a port.
pub fn parse_port(text: &[char]) -> (res: Option<u16>)
    ensures
        res == spec_port(text@),
{
    if text.len() > 0 && text[0] == '+' {
        let digits = vstd::slice::slice_subrange(text, 1, text.len());
        assert(digits@ =~= text@.skip(1));
        parse_unsigned(digits)
    } else {
        parse_unsigned(text)
    }
}

/// Reads the host and the port that a user named.
pub fn parse_target(text: &str) -> (res: Option<Target>)
    ensures
        match res {
            Some(target) => spec_target(text@) == Some((target.host@, target.port)),
            None => spec_target(text@) is None,
        },
{
    let chars = chars_of(text);
    match find_first(chars.as_slice(), ':') {
        None => Some(Target { host: text.to_owned(), port: DEFAULT_PORT }),
        Some(colon) => {
            let after = vstd::slice::slice_subrange(chars.as_slice(), colon + 1, chars.len());
            assert(after@ =~= text@.skip(colon + 1));
            match parse_port(after) {
                Some(port) => {
                    let host = text.substring_char(0, colon);
                    assert(host@ =~= text@.take(colon as int));
                    Some(Target { host: host.to_owned(), port })
                },
                None => None,
            }
        },
    }
}

} // verus!
