//! Canonical text form of opaque identifiers.
//!
//! An identifier travels on the wire (in paths and bodies) as its decimal
//! digits, most significant first. Internally it is compared only for
//! equality. `format_id` and `parse_id` are exact inverses on every
//! identifier the store can issue (`lemma_id_round_trip`).

use vstd::prelude::*;
use vstd::string::StrSliceExecFns;
use vstd::string::StringExecFns;

verus! {

/// The character for a single decimal digit.
pub open spec fn digit_char(d: u64) -> char {
    if d == 0 {
        '0'
    } else if d == 1 {
        '1'
    } else if d == 2 {
        '2'
    } else if d == 3 {
        '3'
    } else if d == 4 {
        '4'
    } else if d == 5 {
        '5'
    } else if d == 6 {
        '6'
    } else if d == 7 {
        '7'
    } else if d == 8 {
        '8'
    } else {
        '9'
    }
}

/// The numeric value of a decimal digit character, if it is one.
pub open spec fn char_digit(c: char) -> Option<u64> {
    if c == '0' {
        Some(0u64)
    } else if c == '1' {
        Some(1u64)
    } else if c == '2' {
        Some(2u64)
    } else if c == '3' {
        Some(3u64)
    } else if c == '4' {
        Some(4u64)
    } else if c == '5' {
        Some(5u64)
    } else if c == '6' {
        Some(6u64)
    } else if c == '7' {
        Some(7u64)
    } else if c == '8' {
        Some(8u64)
    } else if c == '9' {
        Some(9u64)
    } else {
        None
    }
}

/// The canonical text of an identifier: its decimal digits.
pub open spec fn id_chars(n: u64) -> Seq<char>
    decreases n,
{
    if n < 10 {
        seq![digit_char(n)]
    } else {
        id_chars(n / 10).push(digit_char(n % 10))
    }
}

/// Every character of `s` is a decimal digit.
pub open spec fn all_digits(s: Seq<char>) -> bool {
    forall|i: int| 0 <= i < s.len() ==> char_digit(s[i]) is Some
}

/// The value of one character when read as a digit (0 for a non-digit).
pub open spec fn digit_val(c: char) -> int {
    match char_digit(c) {
        Some(d) => d as int,
        None => 0,
    }
}

/// The number denoted by a digit string, most significant digit first.
pub open spec fn digits_val(s: Seq<char>) -> int
    decreases s.len(),
{
    if s.len() == 0 {
        0
    } else {
        digits_val(s.drop_last()) * 10 + digit_val(s.last())
    }
}

/// What a path segment parses to: a well-formed identifier is a nonempty
/// all-digit string whose value fits the identifier space.
pub open spec fn parse_id_spec(s: Seq<char>) -> Option<u64> {
    if s.len() > 0 && all_digits(s) && digits_val(s) <= u64::MAX {
        Some(digits_val(s) as u64)
    } else {
        None
    }
}

proof fn lemma_digits_val_nonneg(s: Seq<char>)
    ensures
        digits_val(s) >= 0,
    decreases s.len(),
{
    if s.len() > 0 {
        lemma_digits_val_nonneg(s.drop_last());
    }
}

/// Reading more digits never shrinks the value.
proof fn lemma_digits_val_prefix(s: Seq<char>, i: int)
    requires
        0 <= i <= s.len(),
    ensures
        digits_val(s.take(i)) <= digits_val(s),
    decreases s.len(),
{
    if i == s.len() {
        assert(s.take(i) =~= s);
    } else {
        assert(s.take(i) =~= s.drop_last().take(i));
        lemma_digits_val_prefix(s.drop_last(), i);
        lemma_digits_val_nonneg(s.drop_last());
    }
}

fn digit_str(d: u64) -> (r: &'static str)
    requires
        d < 10,
    ensures
        r@ =~= seq![digit_char(d)],
{
    proof {
        reveal_strlit("0");
        reveal_strlit("1");
        reveal_strlit("2");
        reveal_strlit("3");
        reveal_strlit("4");
        reveal_strlit("5");
        reveal_strlit("6");
        reveal_strlit("7");
        reveal_strlit("8");
        reveal_strlit("9");
    }
    if d == 0 {
        "0"
    } else if d == 1 {
        "1"
    } else if d == 2 {
        "2"
    } else if d == 3 {
        "3"
    } else if d == 4 {
        "4"
    } else if d == 5 {
        "5"
    } else if d == 6 {
        "6"
    } else if d == 7 {
        "7"
    } else if d == 8 {
        "8"
    } else {
        "9"
    }
}

fn char_to_digit(c: char) -> (r: Option<u64>)
    ensures
        r == char_digit(c),
{
    if c == '0' {
        Some(0u64)
    } else if c == '1' {
        Some(1u64)
    } else if c == '2' {
        Some(2u64)
    } else if c == '3' {
        Some(3u64)
    } else if c == '4' {
        Some(4u64)
    } else if c == '5' {
        Some(5u64)
    } else if c == '6' {
        Some(6u64)
    } else if c == '7' {
        Some(7u64)
    } else if c == '8' {
        Some(8u64)
    } else if c == '9' {
        Some(9u64)
    } else {
        None
    }
}

/// Renders an identifier in its canonical text form.
pub fn format_id(n: u64) -> (r: String)
    ensures
        r@ == id_chars(n),
    decreases n,
{
    if n < 10 {
        let s = digit_str(n);
        s.to_owned()
    } else {
        let prefix = format_id(n / 10);
        let d = digit_str(n % 10);
        let r = prefix.concat(d);
        proof {
            assert(r@ =~= id_chars(n));
        }
        r
    }
}

/// Parses a path segment as an identifier; `None` on anything that is not
/// the decimal text of a value in the identifier space.
pub fn parse_id(s: &str) -> (r: Option<u64>)
    ensures
        r == parse_id_spec(s@),
{
    let len = s.unicode_len();
    if len == 0 {
        return None;
    }
    let mut val: u64 = 0;
    let mut i: usize = 0;
    while i < len
        invariant
            i <= len,
            len == s@.len(),
            all_digits(s@.take(i as int)),
            val == digits_val(s@.take(i as int)),
        decreases len - i,
    {
        let c = s.get_char(i);
        let ghost prev = s@.take(i as int);
        proof {
            assert(s@.take(i as int + 1).drop_last() =~= prev);
            assert(s@.take(i as int + 1).last() == s@[i as int]);
        }
        match char_to_digit(c) {
            None => {
                assert(char_digit(s@[i as int]) is None);
                return None;
            },
            Some(d) => {
                if val > (u64::MAX - d) / 10 {
                    proof {
                        assert(digits_val(s@.take(i as int + 1)) > u64::MAX);
                        lemma_digits_val_prefix(s@, i as int + 1);
                    }
                    return None;
                }
                proof {
                    assert(val * 10 + d <= u64::MAX);
                }
                val = val * 10 + d;
            },
        }
        i = i + 1;
    }
    proof {
        assert(s@.take(len as int) =~= s@);
    }
    Some(val)
}

/// The canonical text of an identifier is all digits and denotes the
/// identifier itself.
pub proof fn lemma_id_chars_val(n: u64)
    ensures
        all_digits(id_chars(n)),
        digits_val(id_chars(n)) == n,
        id_chars(n).len() >= 1,
    decreases n,
{
    if n < 10 {
        let s = id_chars(n);
        assert(s.drop_last() =~= Seq::<char>::empty());
        assert(s.last() == digit_char(n));
        assert(digits_val(Seq::<char>::empty()) == 0);
        assert(char_digit(digit_char(n)) == Some(n));
    } else {
        lemma_id_chars_val(n / 10);
        let prefix = id_chars(n / 10);
        let s = id_chars(n);
        assert(s.drop_last() =~= prefix);
        assert(s.last() == digit_char(n % 10));
        assert(char_digit(digit_char(n % 10)) == Some(n % 10));
        assert(digits_val(s) == digits_val(prefix) * 10 + digit_val(s.last()));
        assert forall|i: int| 0 <= i < s.len() implies char_digit(s[i]) is Some by {
            if i < prefix.len() {
                assert(s[i] == prefix[i]);
            }
        }
    }
}

/// Formatting an identifier and parsing the result gives the identifier
/// back: the two directions of the canonical text form agree.
pub proof fn lemma_id_round_trip(n: u64)
    ensures
        parse_id_spec(id_chars(n)) == Some(n),
{
    lemma_id_chars_val(n);
}

} // verus!
