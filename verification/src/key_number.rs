//! The number that a channel key carries: the digits that the pattern
//! `lb(\d+)` finds in it, read as a decimal number. The pattern is matched by
//! the `regex` crate; the digits are read here.

use regex::Regex;
use vstd::prelude::*;
use vstd::string::is_ascii_spec_bytes;

verus! {

/// The text that capture group `group` of the regular expression `pattern`
/// takes at the leftmost match of the pattern in `haystack`. It is `None`
/// where the pattern does not compile, where it matches nowhere in the
/// haystack, and where the group takes no part in the match.
pub uninterp spec fn regex_capture(pattern: Seq<char>, haystack: Seq<char>, group: nat) -> Option<
    Seq<char>,
>;

/// Runs the `regex` crate: `Regex::new` on `pattern`, `Regex::captures` on
/// `haystack`, then `Captures::get` for `group` and `Match::as_str`. The
/// contract only gives the outcome its name, `regex_capture`; nothing is
/// claimed of what the pattern language means.
#[verifier::external_body]
fn capture(pattern: &str, haystack: &str, group: usize) -> (found: Option<String>)
    ensures
        found matches Some(text) ==> regex_capture(pattern@, haystack@, group as nat) == Some(
            text@,
        ),
        found is None ==> regex_capture(pattern@, haystack@, group as nat) is None,
{
    let re = Regex::new(pattern).ok()?;
    let caps = re.captures(haystack)?;
    let taken = caps.get(group)?;
    Some(taken.as_str().to_owned())
}

/// Whether `c` is one of the ten decimal digits `0` to `9`.
pub open spec fn is_digit(c: char) -> bool {
    '0' <= c <= '9'
}

/// The number that the digit `c` stands for.
pub open spec fn digit_value(c: char) -> nat {
    (c as nat - '0' as nat) as nat
}

/// Whether `s` holds decimal digits only.
pub open spec fn all_digits(s: Seq<char>) -> bool {
    forall|i: int| 0 <= i < s.len() ==> is_digit(#[trigger] s[i])
}

/// The number that a string of decimal digits denotes.
pub open spec fn decimal_value(s: Seq<char>) -> nat
    decreases s.len(),
{
    if s.len() == 0 {
        0
    } else {
        10 * decimal_value(s.drop_last()) + digit_value(s.last())
    }
}

/// `s` without its leading plus sign, if it has one.
pub open spec fn unsigned_part(s: Seq<char>) -> Seq<char> {
    if s.len() > 0 && s[0] == '+' {
        s.subrange(1, s.len() as int)
    } else {
        s
    }
}

/// The unsigned 32-bit number that `s` spells: an optional plus sign, then
/// one decimal digit or more and nothing else, with a value that fits.
pub open spec fn decimal_u32(s: Seq<char>) -> Option<u32> {
    let digits = unsigned_part(s);
    if digits.len() > 0 && all_digits(digits) && decimal_value(digits) <= u32::MAX {
        Some(decimal_value(digits) as u32)
    } else {
        None
    }
}

/// The pattern that finds the number in a key.
pub open spec fn number_pattern() -> Seq<char> {
    r"lb(\d+)"@
}

/// The number that `key` carries, if it carries one.
pub open spec fn key_number(key: Seq<char>) -> Option<u32> {
    match regex_capture(number_pattern(), key, 1) {
        Some(digits) => decimal_u32(digits),
        None => None,
    }
}

/// The value of a digit string never goes down when digits are added behind.
proof fn lemma_prefix_value(s: Seq<char>, n: int)
    requires
        0 <= n <= s.len(),
    ensures
        decimal_value(s.subrange(0, n)) <= decimal_value(s),
    decreases s.len() - n,
{
    if n == s.len() {
        assert(s.subrange(0, n) =~= s);
    } else {
        lemma_prefix_value(s, n + 1);
        assert(s.subrange(0, n + 1).drop_last() =~= s.subrange(0, n));
    }
}

/// Reads `text` as an unsigned 32-bit decimal number: an optional plus sign
/// and then digits `0` to `9` only, one at least. `None` for any other text
/// and for a number that does not fit.
pub fn parse_decimal(text: &str) -> (number: Option<u32>)
    ensures
        number == decimal_u32(text@),
{
    let ghost digits = unsigned_part(text@);
    if !text.is_ascii() {
        proof {
            let i = choose|i: int|
                0 <= i < text@.len() && !('\0' <= #[trigger] text@[i] <= '\u{7f}');
            if i > 0 && text@[0] == '+' {
                assert(!is_digit(digits[i - 1]));
            }
        }
        return None;
    }
    let bytes = text.as_bytes();
    proof {
        is_ascii_spec_bytes(text);
    }
    let n = bytes.len();
    let start: usize = if n > 0 && bytes[0] == 43 {
        1
    } else {
        0
    };
    if start == n {
        return None;
    }
    let mut value: u32 = 0;
    let mut i: usize = start;
    while i < n
        invariant
            start <= i <= n,
            n == text@.len(),
            n == bytes@.len(),
            digits == unsigned_part(text@),
            digits == text@.subrange(start as int, n as int),
            forall|j: int| 0 <= j < n ==> bytes@[j] == text@[j] as u8,
            forall|j: int| 0 <= j < n ==> '\0' <= #[trigger] text@[j] <= '\u{7f}',
            all_digits(digits.subrange(0, i - start)),
            value == decimal_value(digits.subrange(0, i - start)),
        decreases n - i,
    {
        let b = bytes[i];
        assert(text@[i as int] == digits[i - start]);
        if b < 48 || b > 57 {
            return None;
        }
        proof {
            let longer = digits.subrange(0, i - start + 1);
            assert(longer.drop_last() =~= digits.subrange(0, i - start));
            lemma_prefix_value(digits, i - start + 1);
        }
        let scaled = match value.checked_mul(10) {
            Some(v) => v,
            None => {
                return None;
            },
        };
        value = match scaled.checked_add((b - 48) as u32) {
            Some(v) => v,
            None => {
                return None;
            },
        };
        i += 1;
    }
    assert(digits.subrange(0, n - start) =~= digits);
    Some(value)
}

/// The number that `key` carries: the digits that the pattern `lb(\d+)`
/// captures at its leftmost match in the key, read as an unsigned 32-bit
/// decimal number. `None` where the pattern matches nowhere in the key and
/// where the digits spell no such number.
pub fn extract_number(key: &str) -> (number: Option<u32>)
    ensures
        number == key_number(key@),
{
    match capture(r"lb(\d+)", key, 1) {
        Some(digits) => parse_decimal(digits.as_str()),
        None => None,
    }
}

} // verus!
