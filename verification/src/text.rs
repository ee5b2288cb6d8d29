//! Small tools on text, by character.

use vstd::prelude::*;
use vstd::string::{StrSliceExecFns, StringExecFns};

verus! {

/// `width` spaces.
pub open spec fn spec_spaces(width: nat) -> Seq<char> {
    Seq::new(width, |i: int| ' ')
}

/// The digits of `n` in base ten, without leading zeros, `0` for zero.
pub open spec fn spec_decimal(n: nat) -> Seq<char>
    decreases n,
{
    if n < 10 {
        seq![spec_digit(n)]
    } else {
        spec_decimal(n / 10).push(spec_digit(n % 10))
    }
}

/// `n` in base ten, with a minus sign before it where it is negative.
pub open spec fn spec_signed_decimal(n: int) -> Seq<char> {
    if n < 0 {
        seq!['-'] + spec_decimal((-n) as nat)
    } else {
        spec_decimal(n as nat)
    }
}

/// The character of a digit.
pub open spec fn spec_digit(d: nat) -> char
    recommends
        d < 10,
{
    if d == 0 {
        '0'
    } else if d == 1 {
        '1'
    } else if d == 2 {
        '2'
    } else if d == 3 {
        '3'
    } else if d == 4 {
        '4'
    } else if d == 5 {
        '5'
    } else if d == 6 {
        '6'
    } else if d == 7 {
        '7'
    } else if d == 8 {
        '8'
    } else {
        '9'
    }
}

/// The first occurrence of a character is the one that none precedes.
pub proof fn lemma_first_is(text: Seq<char>, needle: char, at: int)
    requires
        0 <= at < text.len(),
        text[at] == needle,
        forall|j: int| 0 <= j < at ==> text[j] != needle,
    ensures
        text.index_of_first(needle) == Some(at),
{
    text.index_of_first_ensures(needle);
}

/// The last occurrence of a character is the one that none follows.
pub proof fn lemma_last_is(text: Seq<char>, needle: char, at: int)
    requires
        0 <= at < text.len(),
        text[at] == needle,
        forall|j: int| at < j < text.len() ==> text[j] != needle,
    ensures
        text.index_of_last(needle) == Some(at),
{
    text.index_of_last_ensures(needle);
}

/// A character that occurs nowhere has no first and no last occurrence.
pub proof fn lemma_absent(text: Seq<char>, needle: char)
    requires
        forall|j: int| 0 <= j < text.len() ==> text[j] != needle,
    ensures
        text.index_of_first(needle) is None,
        text.index_of_last(needle) is None,
        !text.contains(needle),
{
    text.index_of_first_ensures(needle);
    text.index_of_last_ensures(needle);
}

/// The characters of `s`, in order.
pub fn chars_of(s: &str) -> (chars: Vec<char>)
    ensures
        chars@ == s@,
{
    broadcast use vstd::string::group_string_axioms;

    let mut chars: Vec<char> = Vec::new();
    for c in rest: s.chars()
        invariant
            rest.seq() == s@,
            chars@ == s@.take(rest.index() as int),
    {
        chars.push(c);
        assert(chars@ =~= s@.take(rest.index() + 1));
    }
    assert(chars@ =~= s@);
    chars
}

/// Where `needle` first occurs in `chars`.
pub fn find_first(chars: &[char], needle: char) -> (res: Option<usize>)
    ensures
        match res {
            Some(at) => at < chars.len() && chars@.index_of_first(needle) == Some(at as int),
            None => chars@.index_of_first(needle) is None,
        },
{
    let mut i: usize = 0;
    while i < chars.len()
        invariant
            i <= chars.len(),
            forall|j: int| 0 <= j < i ==> chars@[j] != needle,
        decreases chars.len() - i,
    {
        if chars[i] == needle {
            proof {
                lemma_first_is(chars@, needle, i as int);
            }
            return Some(i);
        }
        i += 1;
    }
    proof {
        lemma_absent(chars@, needle);
    }
    None
}

/// Where `needle` last occurs in `chars`.
pub fn find_last(chars: &[char], needle: char) -> (res: Option<usize>)
    ensures
        match res {
            Some(at) => at < chars.len() && chars@.index_of_last(needle) == Some(at as int),
            None => chars@.index_of_last(needle) is None,
        },
{
    let mut i: usize = chars.len();
    while i > 0
        invariant
            i <= chars.len(),
            forall|j: int| i <= j < chars.len() ==> chars@[j] != needle,
        decreases i,
    {
        i -= 1;
        if chars[i] == needle {
            proof {
                lemma_last_is(chars@, needle, i as int);
            }
            return Some(i);
        }
    }
    proof {
        lemma_absent(chars@, needle);
    }
    None
}

/// Whether two texts are the same, character by character.
pub fn same_chars(a: &[char], b: &[char]) -> (same: bool)
    ensures
        same == (a@ == b@),
{
    if a.len() != b.len() {
        return false;
    }
    let mut i: usize = 0;
    while i < a.len()
        invariant
            a.len() == b.len(),
            i <= a.len(),
            forall|j: int| 0 <= j < i ==> a@[j] == b@[j],
        decreases a.len() - i,
    {
        if a[i] != b[i] {
            return false;
        }
        i += 1;
    }
    assert(a@ =~= b@);
    true
}

/// A string of `width` spaces.
pub fn spaces(width: usize) -> (s: String)
    ensures
        s@ == spec_spaces(width as nat),
{
    let mut s = String::new();
    let mut i: usize = 0;
    proof {
        reveal_strlit(" ");
    }
    while i < width
        invariant
            i <= width,
            " "@ == seq![' '],
            s@ == spec_spaces(i as nat),
        decreases width - i,
    {
        s.append(" ");
        i += 1;
        assert(s@ =~= spec_spaces(i as nat));
    }
    s
}

/// `n` in base ten.
pub fn decimal(n: u64) -> (s: String)
    ensures
        s@ == spec_decimal(n as nat),
    decreases n,
{
    let digits = "0123456789";
    proof {
        reveal_strlit("0123456789");
    }
    if n < 10 {
        let d: usize = n as usize;
        let one = digits.substring_char(d, d + 1);
        assert(one@ =~= seq![spec_digit(n as nat)]);
        String::from_str(one)
    } else {
        let mut s = decimal(n / 10);
        let d: usize = (n % 10) as usize;
        let one = digits.substring_char(d, d + 1);
        assert(one@ =~= seq![spec_digit((n % 10) as nat)]);
        s.append(one);
        assert(s@ =~= spec_decimal((n / 10) as nat).push(spec_digit((n % 10) as nat)));
        s
    }
}

/// `n` in base ten, with a minus sign before it where it is negative.
pub fn signed_decimal(n: i64) -> (s: String)
    ensures
        s@ == spec_signed_decimal(n as int),
{
    if n < 0 {
        proof {
            reveal_strlit("-");
        }
        let mut s = String::from_str("-");
        let size: u64 = ((-(n + 1)) as u64) + 1;
        let digits = decimal(size);
        s.append(digits.as_str());
        assert(s@ =~= seq!['-'] + spec_decimal((-n) as nat));
        s
    } else {
        decimal(n as u64)
    }
}

} // verus!
