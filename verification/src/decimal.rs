//! Decimal numerals: how a length, a checksum or a buffer size is written
//! and read.

use vstd::prelude::*;

verus! {

/// The character of a digit below ten.
pub open spec fn digit_char(digit: nat) -> char {
    if digit == 0 {
        '0'
    } else if digit == 1 {
        '1'
    } else if digit == 2 {
        '2'
    } else if digit == 3 {
        '3'
    } else if digit == 4 {
        '4'
    } else if digit == 5 {
        '5'
    } else if digit == 6 {
        '6'
    } else if digit == 7 {
        '7'
    } else if digit == 8 {
        '8'
    } else {
        '9'
    }
}

/// The decimal numeral of `value`, without leading zeros.
pub open spec fn decimal(value: nat) -> Seq<char>
    decreases value,
{
    if value < 10 {
        seq![digit_char(value)]
    } else {
        decimal(value / 10).push(digit_char(value % 10))
    }
}

/// Whether `c` is one of the ten digits.
pub open spec fn is_digit(c: char) -> bool {
    '0' <= c <= '9'
}

/// The value of a digit character.
pub open spec fn digit_value(c: char) -> nat {
    (c as u32 - '0' as u32) as nat
}

/// Whether `text` is a row of one or more digits.
pub open spec fn is_numeral(text: Seq<char>) -> bool {
    text.len() > 0 && forall|i: int| 0 <= i < text.len() ==> is_digit(#[trigger] text[i])
}

/// The number that a row of digits stands for.
pub open spec fn numeral_value(text: Seq<char>) -> nat
    decreases text.len(),
{
    if text.len() == 0 {
        0
    } else {
        numeral_value(text.drop_last()) * 10 + digit_value(text.last())
    }
}

/// The text without a plus sign in front.
pub open spec fn unsigned(text: Seq<char>) -> Seq<char> {
    if text.len() > 0 && text[0] == '+' {
        text.skip(1)
    } else {
        text
    }
}

/// The positive number that `text` stands for: a row of digits, with or
/// without a plus sign in front, whose value is above zero and fits the
/// machine's word. Any other text stands for none.
pub open spec fn positive_of(text: Seq<char>) -> Option<usize> {
    let digits = unsigned(text);
    if is_numeral(digits) && 0 < numeral_value(digits) <= usize::MAX {
        Some(numeral_value(digits) as usize)
    } else {
        None
    }
}

/// A row of digits stands for at least as much as any of its beginnings.
pub proof fn lemma_numeral_grows(text: Seq<char>, count: int)
    requires
        0 <= count <= text.len(),
    ensures
        numeral_value(text.take(count)) <= numeral_value(text),
    decreases text.len(),
{
    if count == text.len() {
        assert(text.take(count) =~= text);
    } else {
        assert(text.drop_last().take(count) =~= text.take(count));
        lemma_numeral_grows(text.drop_last(), count);
    }
}

/// The decimal numeral of a number is a row of digits that stands for the
/// number.
pub proof fn lemma_decimal_is_numeral(value: nat)
    ensures
        is_numeral(decimal(value)),
        numeral_value(decimal(value)) == value,
    decreases value,
{
    let text = decimal(value);
    if value < 10 {
        assert(text.drop_last() =~= Seq::<char>::empty());
        assert(numeral_value(text.drop_last()) == 0);
        assert(text.last() == digit_char(value));
    } else {
        lemma_decimal_is_numeral(value / 10);
        assert(text.drop_last() =~= decimal(value / 10));
        assert(text.last() == digit_char(value % 10));
        assert forall|i: int| 0 <= i < text.len() implies is_digit(#[trigger] text[i]) by {
            if i < text.len() - 1 {
                assert(text[i] == decimal(value / 10)[i]);
            }
        }
    }
}

/// Reading the decimal numeral of a positive number that fits the machine's
/// word gives the number back.
pub proof fn lemma_decimal_reads_back(value: usize)
    requires
        value > 0,
    ensures
        positive_of(decimal(value as nat)) == Some(value),
{
    lemma_decimal_is_numeral(value as nat);
    assert(is_digit(decimal(value as nat)[0]));
}

/// The one-character text of a digit.
fn digit_text(digit: usize) -> (text: &'static str)
    requires
        digit < 10,
    ensures
        text@ == seq![digit_char(digit as nat)],
{
    proof {
        reveal_strlit("0");
        reveal_strlit("1");
        reveal_strlit("2");
        reveal_strlit("3");
        reveal_strlit("4");
        reveal_strlit("5");
        reveal_strlit("6");
        reveal_strlit("7");
        reveal_strlit("8");
        reveal_strlit("9");
    }
    let text: &'static str = if digit == 0 {
        "0"
    } else if digit == 1 {
        "1"
    } else if digit == 2 {
        "2"
    } else if digit == 3 {
        "3"
    } else if digit == 4 {
        "4"
    } else if digit == 5 {
        "5"
    } else if digit == 6 {
        "6"
    } else if digit == 7 {
        "7"
    } else if digit == 8 {
        "8"
    } else {
        "9"
    };
    assert(text@ =~= seq![digit_char(digit as nat)]);
    text
}

/// Appends the decimal numeral of `value` to `text`.
pub fn append_decimal(text: &mut String, value: usize)
    ensures
        final(text)@ == old(text)@ + decimal(value as nat),
    decreases value,
{
    if value >= 10 {
        append_decimal(text, value / 10);
    }
    text.append(digit_text(value % 10));
    assert(text@ =~= old(text)@ + decimal(value as nat));
}

/// Reads a positive number: digits, with or without a plus sign in front.
/// Zero, a number beyond the machine's word and any other text yield
/// `None`.
pub fn parse_positive(text: &str) -> (value: Option<usize>)
    ensures
        value == positive_of(text@),
{
    let count: usize = text.unicode_len();
    let start: usize = if count > 0 && text.get_char(0) == '+' { 1 } else { 0 };
    let ghost digits: Seq<char> = unsigned(text@);
    assert(digits =~= text@.skip(start as int));
    if start == count {
        return None;
    }
    let mut total: usize = 0;
    let mut i: usize = start;
    while i < count
        invariant
            start <= i <= count,
            count == text@.len(),
            digits == text@.skip(start as int),
            digits == unsigned(text@),
            forall|k: int| 0 <= k < i - start ==> is_digit(#[trigger] digits[k]),
            total == numeral_value(digits.take(i - start)),
        decreases count - i,
    {
        let c: char = text.get_char(i);
        assert(c == digits[i - start]);
        if c < '0' || c > '9' {
            assert(!is_digit(digits[i - start]));
            return None;
        }
        let digit: usize = (c as u32 - '0' as u32) as usize;
        proof {
            let longer = digits.take(i - start + 1);
            assert(longer.drop_last() =~= digits.take(i - start));
            assert(longer.last() == c);
            assert(numeral_value(longer) == total * 10 + digit);
            lemma_numeral_grows(digits, i - start + 1);
        }
        if total > (usize::MAX - digit) / 10 {
            assert(total * 10 + digit > usize::MAX);
            return None;
        }
        total = total * 10 + digit;
        i = i + 1;
    }
    assert(digits.take(i - start) =~= digits);
    if total == 0 {
        None
    } else {
        Some(total)
    }
}

} // verus!
