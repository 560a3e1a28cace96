//! Character-level helpers: substring containment, case folding, decimal
//! numerals, and the grammar of device identifiers.

use vstd::prelude::*;
use vstd::string::*;

verus! {

/// `needle` stands in `hay` at offset `at`.
pub open spec fn occurs_at(hay: Seq<char>, needle: Seq<char>, at: int) -> bool {
    &&& 0 <= at
    &&& at + needle.len() <= hay.len()
    &&& hay.subrange(at, at + needle.len()) == needle
}

/// `needle` occurs somewhere in `hay` as a contiguous run of characters.
pub open spec fn contains_seq(hay: Seq<char>, needle: Seq<char>) -> bool {
    exists|at: int| occurs_at(hay, needle, at)
}

/// The lower-case form of a text, as the standard library computes it.
pub uninterp spec fn lowercase_of(s: Seq<char>) -> Seq<char>;

/// The character that writes the digit `d`.
pub open spec fn digit_char(d: nat) -> char
    recommends
        d < 10,
{
    seq!['0', '1', '2', '3', '4', '5', '6', '7', '8', '9'][d as int]
}

/// The decimal numeral of `n`, without sign or leading zeros.
pub open spec fn decimal_digits(n: nat) -> Seq<char>
    decreases n,
{
    if n < 10 {
        seq![digit_char(n)]
    } else {
        decimal_digits(n / 10).push(digit_char(n % 10))
    }
}

/// Trusted: `str::contains` with a string pattern. The standard library
/// documents that it is true exactly when the pattern matches a sub-slice of
/// the string; on the characters that is `contains_seq`.
#[verifier::external_body]
pub(crate) fn str_contains(hay: &str, needle: &str) -> (found: bool)
    ensures
        found == contains_seq(hay@, needle@),
{
    hay.contains(needle)
}

/// Trusted: `str::to_lowercase`. Its result follows Unicode's case tables and
/// depends on the text alone; the contract gives that result its name, and
/// adds that the empty text stays empty.
#[verifier::external_body]
pub(crate) fn lowercase(s: &str) -> (lower: String)
    ensures
        lower@ == lowercase_of(s@),
        s@.len() == 0 ==> lower@.len() == 0,
{
    s.to_lowercase()
}

/// Trusted: `u64::to_string`, which writes an unsigned integer in decimal,
/// most significant digit first, with no sign and no leading zeros.
#[verifier::external_body]
pub(crate) fn decimal_text(n: u64) -> (numeral: String)
    ensures
        numeral@ == decimal_digits(n as nat),
{
    n.to_string()
}

/// `c` is one of the ten ASCII digits.
pub open spec fn is_digit(c: char) -> bool {
    48 <= c as u32 && c as u32 <= 57
}

/// The number a string of digits denotes, most significant digit first.
pub open spec fn digits_value(digits: Seq<char>) -> nat
    decreases digits.len(),
{
    if digits.len() == 0 {
        0
    } else {
        digits_value(digits.drop_last()) * 10 + (digits.last() as u32 - 48) as nat
    }
}

/// Where the digits of a numeral begin: after one optional leading `+`.
pub open spec fn digits_start(s: Seq<char>) -> int {
    if s.len() > 0 && s[0] == '+' {
        1
    } else {
        0
    }
}

/// `s` is a non-negative integer numeral: an optional `+`, then one or more
/// ASCII digits and nothing else.
pub open spec fn is_numeral(s: Seq<char>) -> bool {
    &&& digits_start(s) < s.len()
    &&& forall|i: int| digits_start(s) <= i < s.len() ==> is_digit(#[trigger] s[i])
}

/// The number that a numeral denotes.
pub open spec fn numeral_value(s: Seq<char>) -> nat {
    digits_value(s.subrange(digits_start(s), s.len() as int))
}

/// What a user-supplied device identifier is taken to be.
#[derive(Clone, Copy, Debug, PartialEq, Eq, Structural)]
pub enum Identifier {
    /// A numeral whose value fits a device id.
    Index(u64),
    /// A numeral too large to be any device's id.
    Beyond,
    /// Anything else: a fragment of a name.
    Fragment,
}

/// The reading of an identifier, stated on its characters.
pub open spec fn identifier_kind(s: Seq<char>) -> Identifier {
    if !is_numeral(s) {
        Identifier::Fragment
    } else if numeral_value(s) <= u64::MAX {
        Identifier::Index(numeral_value(s) as u64)
    } else {
        Identifier::Beyond
    }
}

/// Reads an identifier as a numeral or as a name fragment.
pub fn classify(s: &str) -> (kind: Identifier)
    ensures
        kind == identifier_kind(s@),
{
    let n: usize = s.unicode_len();
    let start: usize = if n > 0 && s.get_char(0) == '+' {
        1
    } else {
        0
    };
    if start == n {
        return Identifier::Fragment;
    }
    let mut i: usize = start;
    let mut value: u64 = 0;
    let mut beyond: bool = false;
    while i < n
        invariant
            n == s@.len(),
            start == digits_start(s@),
            start <= i <= n,
            forall|j: int| start <= j < i ==> is_digit(#[trigger] s@[j]),
            !beyond ==> value == digits_value(s@.subrange(start as int, i as int)),
            beyond ==> digits_value(s@.subrange(start as int, i as int)) > u64::MAX,
        decreases n - i,
    {
        let c: char = s.get_char(i);
        let code: u32 = c as u32;
        if code < 48 || code > 57 {
            return Identifier::Fragment;
        }
        let d: u64 = (code - 48) as u64;
        proof {
            let before = s@.subrange(start as int, i as int);
            let after = s@.subrange(start as int, i + 1);
            assert(after.drop_last() =~= before);
            assert(after.last() == c);
            assert(digits_value(after) == digits_value(before) * 10 + d);
        }
        if !beyond {
            if value > (u64::MAX - d) / 10 {
                beyond = true;
            } else {
                value = value * 10 + d;
            }
        }
        i += 1;
    }
    if beyond {
        Identifier::Beyond
    } else {
        Identifier::Index(value)
    }
}

} // verus!
