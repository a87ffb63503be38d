//! Integers in decimal notation: written, and read back.

use vstd::prelude::*;

verus! {

/// The character of a decimal digit.
pub open spec fn digit_char(digit: int) -> char {
    ('0' as int + digit) as char
}

/// Whether a character is a decimal digit.
pub open spec fn is_digit(c: char) -> bool {
    '0' <= c <= '9'
}

/// The number that a decimal digit stands for.
pub open spec fn digit_value(c: char) -> int {
    c as int - '0' as int
}

/// The decimal digits of a natural number, without leading zeros.
pub open spec fn nat_digits(n: nat) -> Seq<char>
    decreases n,
{
    if n < 10 {
        seq![digit_char(n as int)]
    } else {
        nat_digits(n / 10).push(digit_char((n % 10) as int))
    }
}

/// An integer in decimal notation, with a minus sign if it is negative.
pub open spec fn int_text(n: int) -> Seq<char> {
    if n < 0 {
        seq!['-'] + nat_digits((-n) as nat)
    } else {
        nat_digits(n as nat)
    }
}

/// Whether every character is a decimal digit.
pub open spec fn all_digits(text: Seq<char>) -> bool {
    forall|i: int| 0 <= i < text.len() ==> is_digit(#[trigger] text[i])
}

/// The number that a run of decimal digits stands for.
pub open spec fn digits_value(text: Seq<char>) -> nat
    decreases text.len(),
{
    if text.len() == 0 {
        0
    } else {
        (digits_value(text.drop_last()) * 10 + digit_value(text.last())) as nat
    }
}

/// The digits of a number in decimal notation: what follows the sign, if
/// the notation begins with one.
pub open spec fn unsigned_part(text: Seq<char>) -> Seq<char> {
    if text.len() > 0 && (text[0] == '-' || text[0] == '+') {
        text.skip(1)
    } else {
        text
    }
}

/// The 64-bit integer that a text denotes: an optional sign, `+` or `-`,
/// then one decimal digit or more, and nothing else. A text of another
/// form, and a number that does not fit, denote nothing.
pub open spec fn parsed_i64(text: Seq<char>) -> Option<i64> {
    let digits = unsigned_part(text);
    let value = if text.len() > 0 && text[0] == '-' {
        -(digits_value(digits) as int)
    } else {
        digits_value(digits) as int
    };
    if digits.len() > 0 && all_digits(digits) && i64::MIN <= value <= i64::MAX {
        Some(value as i64)
    } else {
        None
    }
}

/// The text of one decimal digit.
fn digit_text(digit: u64) -> (text: &'static str)
    requires
        digit < 10,
    ensures
        text@ == seq![digit_char(digit as int)],
{
    proof {
        reveal_strlit("0");
        reveal_strlit("1");
        reveal_strlit("2");
        reveal_strlit("3");
        reveal_strlit("4");
        reveal_strlit("5");
        reveal_strlit("6");
        reveal_strlit("7");
        reveal_strlit("8");
        reveal_strlit("9");
    }
    let text = if digit == 0 {
        "0"
    } else if digit == 1 {
        "1"
    } else if digit == 2 {
        "2"
    } else if digit == 3 {
        "3"
    } else if digit == 4 {
        "4"
    } else if digit == 5 {
        "5"
    } else if digit == 6 {
        "6"
    } else if digit == 7 {
        "7"
    } else if digit == 8 {
        "8"
    } else {
        "9"
    };
    assert(text@ =~= seq![digit_char(digit as int)]);
    text
}

/// Appends the decimal digits of `n` to `text`.
pub fn append_digits(text: &mut String, n: u64)
    ensures
        final(text)@ == old(text)@ + nat_digits(n as nat),
    decreases n,
{
    if n >= 10 {
        append_digits(text, n / 10);
    }
    text.append(digit_text(n % 10));
    assert(text@ =~= old(text)@ + nat_digits(n as nat));
}

/// Appends `n` in decimal notation to `text`.
pub fn append_i64(text: &mut String, n: i64)
    ensures
        final(text)@ == old(text)@ + int_text(n as int),
{
    if n < 0 {
        proof {
            reveal_strlit("-");
        }
        text.append("-");
        let magnitude: u64 = if n == i64::MIN {
            0x8000_0000_0000_0000
        } else {
            (-n) as u64
        };
        append_digits(text, magnitude);
        assert(text@ =~= old(text)@ + int_text(n as int));
    } else {
        append_digits(text, n as u64);
    }
}

/// Appends `n` in decimal notation to `text`.
pub fn append_u32(text: &mut String, n: u32)
    ensures
        final(text)@ == old(text)@ + int_text(n as int),
{
    append_digits(text, n as u64);
}

/// Reads a 64-bit integer from the characters of `text` that begin at the
/// position `from`.
pub fn parse_i64_from(text: &Vec<char>, from: usize) -> (res: Option<i64>)
    requires
        from <= text.len(),
    ensures
        res == parsed_i64(text@.skip(from as int)),
{
    let ghost rest = text@.skip(from as int);
    if from == text.len() {
        return None;
    }
    let first = text[from];
    assert(rest[0] == first);
    let negative = first == '-';
    let start: usize = if first == '-' || first == '+' {
        from + 1
    } else {
        from
    };
    let ghost digits = unsigned_part(rest);
    assert(digits =~= text@.skip(start as int));
    if start == text.len() {
        return None;
    }
    // The magnitude of the smallest 64-bit integer is the largest magnitude
    // that can still become a 64-bit integer.
    let limit: u64 = 0x8000_0000_0000_0000;
    let mut magnitude: u64 = 0;
    let mut too_large = false;
    let mut at: usize = start;
    while at < text.len()
        invariant
            start <= at <= text.len(),
            from <= text.len(),
            digits == text@.skip(start as int),
            digits == unsigned_part(text@.skip(from as int)),
            limit == 0x8000_0000_0000_0000,
            all_digits(digits.take(at - start)),
            !too_large ==> magnitude == digits_value(digits.take(at - start)) && magnitude
                <= limit,
            too_large ==> digits_value(digits.take(at - start)) > limit,
        decreases text.len() - at,
    {
        let c = text[at];
        assert(digits[at - start] == c);
        if !('0' <= c && c <= '9') {
            assert(!is_digit(digits[at - start]));
            return None;
        }
        let digit = (c as u32 - '0' as u32) as u64;
        proof {
            let longer = digits.take(at - start + 1);
            assert(longer.drop_last() =~= digits.take(at - start));
            assert(longer.last() == c);
            assert forall|i: int| 0 <= i < longer.len() implies is_digit(
                #[trigger] longer[i],
            ) by {
                if i < at - start {
                    assert(digits.take(at - start)[i] == longer[i]);
                }
            }
        }
        if !too_large {
            // Ten times the magnitude and one digit more is at most ten
            // times the limit and nine, which fits.
            let next: u128 = magnitude as u128 * 10 + digit as u128;
            if next > limit as u128 {
                too_large = true;
            } else {
                magnitude = next as u64;
            }
        }
        at += 1;
    }
    assert(digits.take(at - start) =~= digits);
    if too_large {
        None
    } else if negative {
        if magnitude == limit {
            Some(i64::MIN)
        } else {
            Some(-(magnitude as i64))
        }
    } else if magnitude == limit {
        None
    } else {
        Some(magnitude as i64)
    }
}

/// Reads a 64-bit integer as the standard library reads one: an optional
/// sign, then decimal digits, and nothing else.
pub fn parse_i64(text: &str) -> (res: Option<i64>)
    ensures
        res == parsed_i64(text@),
{
    let chars = crate::text::chars_of(text);
    assert(chars@.skip(0) =~= chars@);
    parse_i64_from(&chars, 0)
}

/// The digits of a natural number are digits, and there is at least one.
pub proof fn lemma_nat_digits_are_digits(n: nat)
    ensures
        nat_digits(n).len() > 0,
        all_digits(nat_digits(n)),
    decreases n,
{
    if n >= 10 {
        lemma_nat_digits_are_digits(n / 10);
        assert forall|i: int| 0 <= i < nat_digits(n).len() implies is_digit(
            #[trigger] nat_digits(n)[i],
        ) by {
            if i < nat_digits(n / 10).len() {
                assert(nat_digits(n)[i] == nat_digits(n / 10)[i]);
            }
        }
    }
}

/// The digits of a natural number stand for that number.
pub proof fn lemma_digits_value_of_nat_digits(n: nat)
    ensures
        digits_value(nat_digits(n)) == n,
    decreases n,
{
    if n < 10 {
        assert(nat_digits(n).drop_last() =~= Seq::<char>::empty());
        assert(digits_value(nat_digits(n).drop_last()) == 0);
    } else {
        lemma_digits_value_of_nat_digits(n / 10);
        assert(nat_digits(n).drop_last() =~= nat_digits(n / 10));
    }
}

/// Reading undoes writing: the decimal notation of a 64-bit integer
/// denotes that integer.
pub proof fn law_parse_undoes_write(n: i64)
    ensures
        parsed_i64(int_text(n as int)) == Some(n),
{
    let text = int_text(n as int);
    if n < 0 {
        let magnitude = (-(n as int)) as nat;
        lemma_nat_digits_are_digits(magnitude);
        lemma_digits_value_of_nat_digits(magnitude);
        assert(text[0] == '-');
        assert(unsigned_part(text) =~= nat_digits(magnitude));
    } else {
        lemma_nat_digits_are_digits(n as nat);
        lemma_digits_value_of_nat_digits(n as nat);
        assert(is_digit(nat_digits(n as nat)[0]));
        assert(unsigned_part(text) =~= nat_digits(n as nat));
    }
}

} // verus!
