//! Decimal digit runs: their value as a mathematical integer, and a bounded
//! executable parser for small numeric option values.

use vstd::prelude::*;
use vstd::string::StrSliceExecFns;

verus! {

/// A decimal digit character.
pub open spec fn is_digit_char(c: char) -> bool {
    48 <= c as u32 && c as u32 <= 57
}

/// The numeric value of one digit character.
pub open spec fn digit_val(c: char) -> int {
    c as u32 - 48
}

/// At least one character, and every character a decimal digit.
pub open spec fn all_digits(s: Seq<char>) -> bool {
    s.len() >= 1 && (forall|i: int| 0 <= i < s.len() ==> is_digit_char(#[trigger] s[i]))
}

/// The decimal value of a run of digit characters, most significant first.
pub open spec fn digits_value(s: Seq<char>) -> int
    decreases s.len(),
{
    if s.len() == 0 {
        0
    } else {
        digits_value(s.drop_last()) * 10 + digit_val(s.last())
    }
}

/// A run of digit characters never has a negative value.
pub proof fn lemma_digits_value_nonneg(s: Seq<char>)
    requires
        forall|i: int| 0 <= i < s.len() ==> is_digit_char(#[trigger] s[i]),
    ensures
        digits_value(s) >= 0,
    decreases s.len(),
{
    if s.len() > 0 {
        lemma_digits_value_nonneg(s.drop_last());
    }
}

/// Extending a digit prefix by one character multiplies its value by ten and
/// adds the new digit.
pub proof fn lemma_digits_value_step(s: Seq<char>, j: int)
    requires
        1 <= j <= s.len(),
    ensures
        digits_value(s.take(j)) == digits_value(s.take(j - 1)) * 10 + digit_val(s[j - 1]),
{
    assert(s.take(j).drop_last() =~= s.take(j - 1));
    assert(s.take(j).last() == s[j - 1]);
}

/// Over a run of digits, the value of a longer prefix is at least the value
/// of a shorter one.
pub proof fn lemma_digits_value_grows(s: Seq<char>, i: int, j: int)
    requires
        0 <= i <= j <= s.len(),
        forall|k: int| 0 <= k < j ==> is_digit_char(#[trigger] s[k]),
    ensures
        digits_value(s.take(j)) >= digits_value(s.take(i)),
    decreases j - i,
{
    if j > i {
        lemma_digits_value_grows(s, i, j - 1);
        lemma_digits_value_step(s, j);
        assert(forall|k: int| 0 <= k < s.take(j - 1).len() ==> is_digit_char(
            #[trigger] s.take(j - 1)[k],
        ));
        lemma_digits_value_nonneg(s.take(j - 1));
    }
}

/// The whole string is a digit run whose value fits in eight bits.
pub open spec fn parses_u8(s: Seq<char>) -> bool {
    all_digits(s) && digits_value(s) <= 255
}

/// Parses a string as an unsigned eight-bit decimal number; `None` exactly
/// when some character is not a digit, the string is empty, or the value is
/// over 255.
pub fn parse_u8_value(value: &str) -> (r: Option<u8>)
    ensures
        match r {
            Some(v) => parses_u8(value@) && v as int == digits_value(value@),
            None => !parses_u8(value@),
        },
{
    let n = value.unicode_len();
    if n == 0 {
        return None;
    }
    let mut acc: u16 = 0;
    let mut i: usize = 0;
    while i < n
        invariant
            0 <= i <= n,
            n == value@.len(),
            forall|k: int| 0 <= k < i ==> is_digit_char(#[trigger] value@[k]),
            acc as int == digits_value(value@.take(i as int)),
            acc <= 255,
        decreases n - i,
    {
        let c = value.get_char(i);
        let cu = c as u32;
        if !(48 <= cu && cu <= 57) {
            return None;
        }
        let d: u32 = cu - 48;
        let next: u32 = acc as u32 * 10 + d;
        proof {
            lemma_digits_value_step(value@, i as int + 1);
        }
        if next > 255 {
            proof {
                if all_digits(value@) {
                    lemma_digits_value_grows(value@, i as int + 1, value@.len() as int);
                    assert(value@.take(value@.len() as int) =~= value@);
                }
            }
            return None;
        }
        acc = next as u16;
        i += 1;
    }
    proof {
        assert(value@.take(n as int) =~= value@);
    }
    Some(acc as u8)
}

} // verus!
