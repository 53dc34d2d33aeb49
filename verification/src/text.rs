//! Decimal numerals: reading an unsigned integer from bytes and writing a
//! signed one as text.

use vstd::prelude::*;
use vstd::string::*;

verus! {

/// Whether a byte is one of the ASCII digits `0` to `9`.
pub open spec fn is_digit(b: u8) -> bool {
    48 <= b <= 57
}

/// The number a byte stands for: its digit, and zero for any other byte.
pub open spec fn digit_of(b: u8) -> nat {
    if is_digit(b) {
        (b - 48) as nat
    } else {
        0
    }
}

/// The number that a run of digits spells, most significant digit first.
pub open spec fn digits_value(s: Seq<u8>) -> nat
    decreases s.len(),
{
    if s.len() == 0 {
        0
    } else {
        digits_value(s.drop_last()) * 10 + digit_of(s.last())
    }
}

/// Whether every byte of the sequence is a digit.
pub open spec fn all_digits(s: Seq<u8>) -> bool {
    forall|i: int| 0 <= i < s.len() ==> is_digit(#[trigger] s[i])
}

/// The bytes that follow an optional leading plus sign.
pub open spec fn after_plus(s: Seq<u8>) -> Seq<u8> {
    if s.len() > 0 && s[0] == 43 {
        s.skip(1)
    } else {
        s
    }
}

/// The unsigned 64-bit integer that a text spells: an optional plus sign,
/// then one digit or more and nothing else, the number no larger than
/// `u64::MAX`. Every other text spells none.
pub open spec fn parse_u64_spec(s: Seq<u8>) -> Option<u64> {
    let d = after_plus(s);
    if d.len() > 0 && all_digits(d) && digits_value(d) <= u64::MAX {
        Some(digits_value(d) as u64)
    } else {
        None
    }
}

/// A longer run of digits spells no smaller a number than any of its
/// prefixes.
pub proof fn lemma_digits_value_prefix(s: Seq<u8>, k: int)
    requires
        0 <= k <= s.len(),
    ensures
        digits_value(s.take(k)) <= digits_value(s),
    decreases s.len() - k,
{
    if k == s.len() {
        assert(s.take(k) =~= s);
    } else {
        lemma_digits_value_prefix(s, k + 1);
        assert(s.take(k + 1).drop_last() =~= s.take(k));
    }
}

/// Reads an unsigned 64-bit integer from its decimal text.
pub fn parse_u64(bytes: &[u8]) -> (r: Option<u64>)
    ensures
        r == parse_u64_spec(bytes@),
{
    let n = bytes.len();
    let start: usize = if n > 0 && bytes[0] == 43u8 {
        1
    } else {
        0
    };
    let ghost d = after_plus(bytes@);
    if start == n {
        return None;
    }
    let mut value: u64 = 0;
    let mut i: usize = start;
    while i < n
        invariant
            start <= i <= n,
            n == bytes@.len(),
            d == after_plus(bytes@),
            d.len() == n - start,
            forall|j: int| 0 <= j < d.len() ==> d[j] == bytes@[j + start],
            all_digits(d.take(i - start)),
            value == digits_value(d.take(i - start)),
        decreases n - i,
    {
        let b = bytes[i];
        if b < 48 || b > 57 {
            assert(!is_digit(d[i - start]));
            return None;
        }
        let ghost next = d.take(i - start + 1);
        proof {
            assert(next.drop_last() =~= d.take(i - start));
            lemma_digits_value_prefix(d, i - start + 1);
        }
        let digit: u64 = (b - 48) as u64;
        let scaled = match value.checked_mul(10) {
            Some(v) => v,
            None => {
                return None;
            },
        };
        value = match scaled.checked_add(digit) {
            Some(v) => v,
            None => {
                return None;
            },
        };
        i += 1;
        assert(all_digits(d.take(i - start))) by {
            assert forall|j: int| 0 <= j < d.take(i - start).len() implies is_digit(
                #[trigger] d.take(i - start)[j],
            ) by {}
        }
    }
    assert(d.take(i - start) =~= d);
    Some(value)
}

/// The character that writes a digit.
pub open spec fn digit_char(d: nat) -> char {
    if d == 0 {
        '0'
    } else if d == 1 {
        '1'
    } else if d == 2 {
        '2'
    } else if d == 3 {
        '3'
    } else if d == 4 {
        '4'
    } else if d == 5 {
        '5'
    } else if d == 6 {
        '6'
    } else if d == 7 {
        '7'
    } else if d == 8 {
        '8'
    } else {
        '9'
    }
}

/// The decimal text of a natural number, without leading zeros.
pub open spec fn nat_text(n: nat) -> Seq<char>
    decreases n,
{
    if n < 10 {
        seq![digit_char(n)]
    } else {
        nat_text(n / 10).push(digit_char(n % 10))
    }
}

/// The decimal text of an integer: a minus sign before a negative one.
pub open spec fn int_text(n: int) -> Seq<char> {
    if n < 0 {
        seq!['-'] + nat_text((-n) as nat)
    } else {
        nat_text(n as nat)
    }
}

/// The text of one digit.
fn digit_str(d: u64) -> (r: &'static str)
    requires
        d < 10,
    ensures
        r@ == seq![digit_char(d as nat)],
{
    proof {
        reveal_strlit("0");
        reveal_strlit("1");
        reveal_strlit("2");
        reveal_strlit("3");
        reveal_strlit("4");
        reveal_strlit("5");
        reveal_strlit("6");
        reveal_strlit("7");
        reveal_strlit("8");
        reveal_strlit("9");
    }
    if d == 0 {
        "0"
    } else if d == 1 {
        "1"
    } else if d == 2 {
        "2"
    } else if d == 3 {
        "3"
    } else if d == 4 {
        "4"
    } else if d == 5 {
        "5"
    } else if d == 6 {
        "6"
    } else if d == 7 {
        "7"
    } else if d == 8 {
        "8"
    } else {
        "9"
    }
}

/// Writes an unsigned integer as decimal text.
pub fn u64_to_string(n: u64) -> (r: String)
    ensures
        r@ == nat_text(n as nat),
    decreases n,
{
    if n < 10 {
        String::from_str(digit_str(n))
    } else {
        let head = u64_to_string(n / 10);
        head.concat(digit_str(n % 10))
    }
}

/// Writes a signed integer as decimal text.
pub fn i64_to_string(n: i64) -> (r: String)
    ensures
        r@ == int_text(n as int),
{
    if n < 0 {
        let magnitude: u64 = (-(n as i128)) as u64;
        let digits = u64_to_string(magnitude);
        proof {
            reveal_strlit("-");
        }
        String::from_str("-").concat(digits.as_str())
    } else {
        u64_to_string(n as u64)
    }
}

} // verus!
