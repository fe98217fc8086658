//! Decimal notation: how a fare is read from what the user typed, and how
//! numbers are written in a listing.

use vstd::prelude::*;
use vstd::string::*;

verus! {

/// Why a text is no fare.
#[derive(Clone, Copy, Debug, PartialEq, Eq)]
pub enum FareError {
    /// Nothing was entered.
    Empty,
    /// The text is not an optional `+` followed by decimal digits only.
    NotANumber,
    /// The number does not fit the 32 bits of a fare.
    TooLarge,
}

/// The character that writes the digit `d`.
pub open spec fn digit_char(d: nat) -> char
    recommends
        d < 10,
{
    if d == 0 {
        '0'
    } else if d == 1 {
        '1'
    } else if d == 2 {
        '2'
    } else if d == 3 {
        '3'
    } else if d == 4 {
        '4'
    } else if d == 5 {
        '5'
    } else if d == 6 {
        '6'
    } else if d == 7 {
        '7'
    } else if d == 8 {
        '8'
    } else {
        '9'
    }
}

/// Whether `c` is one of the ten ASCII digits.
pub open spec fn is_digit(c: char) -> bool {
    '0' <= c && c <= '9'
}

/// The digit that `c` writes.
pub open spec fn digit_value(c: char) -> nat
    recommends
        is_digit(c),
{
    (c as int - '0' as int) as nat
}

/// The decimal notation of `n`: no sign, no leading zero but for zero itself.
pub open spec fn decimal(n: nat) -> Seq<char>
    decreases n,
{
    if n < 10 {
        seq![digit_char(n)]
    } else {
        decimal(n / 10).push(digit_char(n % 10))
    }
}

/// Whether every character of `s` is a digit.
pub open spec fn all_digits(s: Seq<char>) -> bool {
    forall|i: int| 0 <= i < s.len() ==> is_digit(#[trigger] s[i])
}

/// The number that a sequence of digits writes, most significant first.
pub open spec fn value_of(s: Seq<char>) -> nat
    decreases s.len(),
{
    if s.len() == 0 {
        0
    } else {
        10 * value_of(s.drop_last()) + digit_value(s.last())
    }
}

/// The text without the `+` that may lead it.
pub open spec fn unsigned_part(text: Seq<char>) -> Seq<char> {
    if text.len() > 0 && text[0] == '+' {
        text.skip(1)
    } else {
        text
    }
}

/// The fare that `text` stands for: digits, with one `+` allowed in front,
/// that write a number of at most `u32::MAX`. Blanks, a `-` and digit
/// separators are not accepted.
pub open spec fn fare_of(text: Seq<char>) -> Result<u32, FareError> {
    let digits = unsigned_part(text);
    if text.len() == 0 {
        Err(FareError::Empty)
    } else if digits.len() == 0 || !all_digits(digits) {
        Err(FareError::NotANumber)
    } else if value_of(digits) > u32::MAX {
        Err(FareError::TooLarge)
    } else {
        Ok(value_of(digits) as u32)
    }
}

/// A number that digits write is at least the number that any of their
/// prefixes writes.
pub proof fn lemma_value_of_prefix(s: Seq<char>, k: int)
    requires
        0 <= k <= s.len(),
    ensures
        value_of(s.take(k)) <= value_of(s),
    decreases s.len(),
{
    if k == s.len() {
        assert(s.take(k) =~= s);
    } else {
        assert(s.drop_last().take(k) =~= s.take(k));
        lemma_value_of_prefix(s.drop_last(), k);
    }
}

/// The decimal notation of a number consists of digits and writes that number.
pub proof fn lemma_decimal_is_read_back(n: nat)
    ensures
        decimal(n).len() > 0,
        all_digits(decimal(n)),
        value_of(decimal(n)) == n,
    decreases n,
{
    if n < 10 {
        let s = decimal(n);
        assert(s.drop_last() =~= Seq::<char>::empty());
        assert(value_of(s.drop_last()) == 0);
        assert(s.last() == digit_char(n));
    } else {
        lemma_decimal_is_read_back(n / 10);
        let s = decimal(n);
        assert(s.drop_last() =~= decimal(n / 10));
        assert(s.last() == digit_char(n % 10));
        assert forall|i: int| 0 <= i < s.len() implies is_digit(#[trigger] s[i]) by {
            if i < s.len() - 1 {
                assert(s[i] == decimal(n / 10)[i]);
            }
        }
    }
}

/// A fare written in decimal notation is read back as the same fare.
pub proof fn lemma_fare_round_trip(fare: u32)
    ensures
        fare_of(decimal(fare as nat)) == Ok::<u32, FareError>(fare),
{
    lemma_decimal_is_read_back(fare as nat);
    let s = decimal(fare as nat);
    assert(is_digit(s[0]));
}

/// The one-character text of a digit.
fn digit_text(d: u8) -> (text: &'static str)
    requires
        d < 10,
    ensures
        text@ == seq![digit_char(d as nat)],
{
    proof {
        reveal_strlit("0");
        reveal_strlit("1");
        reveal_strlit("2");
        reveal_strlit("3");
        reveal_strlit("4");
        reveal_strlit("5");
        reveal_strlit("6");
        reveal_strlit("7");
        reveal_strlit("8");
        reveal_strlit("9");
    }
    let text = match d {
        0 => "0",
        1 => "1",
        2 => "2",
        3 => "3",
        4 => "4",
        5 => "5",
        6 => "6",
        7 => "7",
        8 => "8",
        _ => "9",
    };
    assert(text@ =~= seq![digit_char(d as nat)]);
    text
}

/// Writes `n` in decimal notation.
pub fn format_decimal(n: u128) -> (text: String)
    ensures
        text@ == decimal(n as nat),
    decreases n,
{
    if n < 10 {
        String::from_str(digit_text(n as u8))
    } else {
        let mut text = format_decimal(n / 10);
        text.append(digit_text((n % 10) as u8));
        text
    }
}

/// Reads a fare from what the user typed.
pub fn parse_fare(text: &str) -> (fare: Result<u32, FareError>)
    ensures
        fare == fare_of(text@),
{
    let len = text.unicode_len();
    if len == 0 {
        return Err(FareError::Empty);
    }
    let start: usize = if text.get_char(0) == '+' { 1 } else { 0 };
    let ghost digits = unsigned_part(text@);
    assert(digits.len() == len - start);
    assert(forall|j: int| 0 <= j < digits.len() ==> digits[j] == text@[start + j]);
    if start == len {
        return Err(FareError::NotANumber);
    }
    let mut i: usize = start;
    while i < len
        invariant
            start <= i <= len,
            0 < len == text@.len(),
            digits == unsigned_part(text@),
            digits.len() == len - start,
            forall|j: int| 0 <= j < digits.len() ==> digits[j] == text@[start + j],
            forall|j: int| 0 <= j < i - start ==> is_digit(#[trigger] digits[j]),
        decreases len - i,
    {
        let c = text.get_char(i);
        if !('0' <= c && c <= '9') {
            assert(!is_digit(digits[i - start]));
            return Err(FareError::NotANumber);
        }
        i = i + 1;
    }
    assert(all_digits(digits));
    let mut value: u64 = 0;
    let mut i: usize = start;
    while i < len
        invariant
            start <= i <= len,
            0 < len == text@.len(),
            digits == unsigned_part(text@),
            digits.len() == len - start,
            forall|j: int| 0 <= j < digits.len() ==> digits[j] == text@[start + j],
            all_digits(digits),
            value == value_of(digits.take(i - start)),
            value <= u32::MAX,
        decreases len - i,
    {
        let c = text.get_char(i);
        assert(is_digit(digits[i - start]));
        let digit: u64 = (c as u32 - '0' as u32) as u64;
        proof {
            let longer = digits.take(i - start + 1);
            assert(longer.drop_last() =~= digits.take(i - start));
            assert(longer.last() == c);
            assert(value_of(longer) == 10 * value + digit);
        }
        value = 10 * value + digit;
        i = i + 1;
        if value > 0xffff_ffff {
            proof {
                lemma_value_of_prefix(digits, i - start);
            }
            return Err(FareError::TooLarge);
        }
    }
    assert(digits.take(i - start) =~= digits);
    Ok(value as u32)
}

} // verus!
