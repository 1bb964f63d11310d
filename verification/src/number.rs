//! Whole numbers as text: what is accepted and what is written.

use crate::text::chars_of;
use vstd::prelude::*;

verus! {

/// Why a text is not a whole number in range.
#[derive(Debug, Clone, Copy, PartialEq, Eq, Structural)]
pub enum IntError {
    /// There is nothing to read.
    Empty,
    /// A character stands where a digit should.
    InvalidDigit,
    /// The number is above the greatest one allowed.
    TooLarge,
}

/// The value of a decimal digit.
pub open spec fn decimal_value(c: char) -> Option<nat> {
    if '0' <= c <= '9' {
        Some((c as nat - '0' as nat) as nat)
    } else {
        None
    }
}

/// The value of a hexadecimal digit of either case.
pub open spec fn hex_value(c: char) -> Option<nat> {
    if '0' <= c <= '9' {
        Some((c as nat - '0' as nat) as nat)
    } else if 'a' <= c <= 'f' {
        Some((c as nat - 'a' as nat + 10) as nat)
    } else if 'A' <= c <= 'F' {
        Some((c as nat - 'A' as nat + 10) as nat)
    } else {
        None
    }
}

/// Reads decimal digits from left to right and stops at the first fault.
pub open spec fn read_digits(s: Seq<char>, max: nat) -> Result<nat, IntError>
    decreases s.len(),
{
    if s.len() == 0 {
        Ok(0)
    } else {
        match (read_digits(s.drop_last(), max), decimal_value(s.last())) {
            (Err(error), _) => Err(error),
            (Ok(_), None) => Err(IntError::InvalidDigit),
            (Ok(high), Some(digit)) => if high * 10 + digit <= max {
                Ok(high * 10 + digit)
            } else {
                Err(IntError::TooLarge)
            },
        }
    }
}

/// The number that `s` stands for: decimal digits, after an optional plus sign, up to `max`.
pub open spec fn read_number(s: Seq<char>, max: nat) -> Result<nat, IntError> {
    if s.len() == 0 {
        Err(IntError::Empty)
    } else if s[0] == '+' {
        if s.len() == 1 {
            Err(IntError::InvalidDigit)
        } else {
            read_digits(s.skip(1), max)
        }
    } else {
        read_digits(s, max)
    }
}

/// The decimal digit of a value below ten.
pub open spec fn decimal_digit(value: nat) -> char {
    (value + '0' as nat) as char
}

/// The lower-case hexadecimal digit of a value below sixteen.
pub open spec fn hex_digit(value: nat) -> char {
    if value < 10 {
        (value + '0' as nat) as char
    } else {
        (value - 10 + 'a' as nat) as char
    }
}

/// `value` in decimal, without leading zeros.
pub open spec fn decimal(value: nat) -> Seq<char>
    decreases value,
{
    if value < 10 {
        seq![decimal_digit(value)]
    } else {
        decimal(value / 10).push(decimal_digit(value % 10))
    }
}

impl IntError {
    /// What is wrong, in words.
    pub open spec fn text(self) -> Seq<char> {
        match self {
            IntError::Empty => "cannot parse integer from empty string"@,
            IntError::InvalidDigit => "invalid digit found in string"@,
            IntError::TooLarge => "number too large to fit in target type"@,
        }
    }

    /// What is wrong, in words.
    pub fn as_str(&self) -> (words: &'static str)
        ensures
            words@ == self.text(),
    {
        match self {
            IntError::Empty => "cannot parse integer from empty string",
            IntError::InvalidDigit => "invalid digit found in string",
            IntError::TooLarge => "number too large to fit in target type",
        }
    }
}

/// The value of a decimal digit.
pub fn decimal_digit_value(c: char) -> (value: Option<u8>)
    ensures
        match value {
            Some(digit) => decimal_value(c) == Some(digit as nat),
            None => decimal_value(c) is None,
        },
{
    if '0' <= c && c <= '9' {
        Some((c as u32 - '0' as u32) as u8)
    } else {
        None
    }
}

/// The value of a hexadecimal digit of either case.
pub fn hex_digit_value(c: char) -> (value: Option<u8>)
    ensures
        match value {
            Some(digit) => hex_value(c) == Some(digit as nat) && digit < 16,
            None => hex_value(c) is None,
        },
{
    if '0' <= c && c <= '9' {
        Some((c as u32 - '0' as u32) as u8)
    } else if 'a' <= c && c <= 'f' {
        Some((c as u32 - 'a' as u32 + 10) as u8)
    } else if 'A' <= c && c <= 'F' {
        Some((c as u32 - 'A' as u32 + 10) as u8)
    } else {
        None
    }
}

proof fn lemma_read_digits_prefix_fault(s: Seq<char>, max: nat, k: int)
    requires
        0 <= k <= s.len(),
        read_digits(s.take(k), max) is Err,
    ensures
        read_digits(s, max) == read_digits(s.take(k), max),
    decreases s.len() - k,
{
    if k < s.len() {
        assert(s.drop_last().take(k) =~= s.take(k));
        lemma_read_digits_prefix_fault(s.drop_last(), max, k);
    } else {
        assert(s.take(k) =~= s);
    }
}

/// The number that `s` stands for, up to `max`.
pub fn parse_number(s: &str, max: u64) -> (number: Result<u64, IntError>)
    ensures
        match number {
            Ok(value) => read_number(s@, max as nat) == Ok::<nat, IntError>(value as nat) && value
                <= max,
            Err(error) => read_number(s@, max as nat) == Err::<nat, IntError>(error),
        },
{
    let chars = chars_of(s);
    if chars.len() == 0 {
        return Err(IntError::Empty);
    }
    let from: usize = if chars[0] == '+' {
        1
    } else {
        0
    };
    if from == chars.len() {
        return Err(IntError::InvalidDigit);
    }
    let ghost digits = s@.skip(from as int);
    assert(s@.skip(0) =~= s@);
    let mut value: u64 = 0;
    for i in from..chars.len()
        invariant
            chars@ == s@,
            from <= chars.len(),
            digits == s@.skip(from as int),
            read_number(s@, max as nat) == read_digits(digits, max as nat),
            read_digits(digits.take(i - from), max as nat) == Ok::<nat, IntError>(value as nat),
            value <= max,
    {
        let ghost next = digits.take(i - from + 1);
        proof {
            assert(next.drop_last() =~= digits.take(i - from));
            assert(next.last() == s@[i as int]);
            if read_digits(next, max as nat) is Err {
                lemma_read_digits_prefix_fault(digits, max as nat, i - from + 1);
            }
        }
        match decimal_digit_value(chars[i]) {
            None => {
                return Err(IntError::InvalidDigit);
            },
            Some(digit) => {
                let wide: u128 = value as u128 * 10 + digit as u128;
                if wide > max as u128 {
                    return Err(IntError::TooLarge);
                }
                value = wide as u64;
            },
        }
    }
    assert(digits.take(digits.len() as int) =~= digits);
    Ok(value)
}

/// The number in decimal digits.
pub fn decimal_string(value: u64) -> (digits: String)
    ensures
        digits@ == decimal(value as nat),
    decreases value,
{
    let low = decimal_digit_str((value % 10) as u8);
    if value < 10 {
        assert(low@ =~= decimal(value as nat));
        low.to_owned()
    } else {
        let high = decimal_string(value / 10);
        let digits = high.concat(low);
        assert(digits@ =~= decimal(value as nat));
        digits
    }
}

/// The decimal digit of a value below ten, as text.
fn decimal_digit_str(value: u8) -> (digit: &'static str)
    requires
        value < 10,
    ensures
        digit@ == seq![decimal_digit(value as nat)],
{
    let digit = hex_digit_str(value);
    assert(digit@ =~= seq![decimal_digit(value as nat)]);
    digit
}

/// The lower-case hexadecimal digit of a value below sixteen, as text.
pub fn hex_digit_str(value: u8) -> (digit: &'static str)
    requires
        value < 16,
    ensures
        digit@ == seq![hex_digit(value as nat)],
{
    proof {
        reveal_strlit("0");
        reveal_strlit("1");
        reveal_strlit("2");
        reveal_strlit("3");
        reveal_strlit("4");
        reveal_strlit("5");
        reveal_strlit("6");
        reveal_strlit("7");
        reveal_strlit("8");
        reveal_strlit("9");
        reveal_strlit("a");
        reveal_strlit("b");
        reveal_strlit("c");
        reveal_strlit("d");
        reveal_strlit("e");
        reveal_strlit("f");
    }
    let digit = match value {
        0 => "0",
        1 => "1",
        2 => "2",
        3 => "3",
        4 => "4",
        5 => "5",
        6 => "6",
        7 => "7",
        8 => "8",
        9 => "9",
        10 => "a",
        11 => "b",
        12 => "c",
        13 => "d",
        14 => "e",
        _ => "f",
    };
    assert(digit@ =~= seq![hex_digit(value as nat)]);
    digit
}

/// Reading back what `decimal` writes gives the number, wherever it is allowed.
pub proof fn decimal_round_trip(value: nat, max: nat)
    requires
        value <= max,
    ensures
        read_number(decimal(value), max) == Ok::<nat, IntError>(value),
{
    lemma_decimal_digits(value, max);
}

/// The decimal form of a number is digits without a leading zero, and reads back.
pub proof fn lemma_decimal_digits(value: nat, max: nat)
    requires
        value <= max,
    ensures
        decimal(value).len() > 0,
        decimal(value).len() > 1 ==> decimal(value)[0] != '0',
        forall|i: int| 0 <= i < decimal(value).len() ==> decimal_value(decimal(value)[i]) is Some,
        read_digits(decimal(value), max) == Ok::<nat, IntError>(value),
        value > 0 ==> decimal(value)[0] != '0',
    decreases value,
{
    let s = decimal(value);
    if value < 10 {
        assert(read_digits(s.drop_last(), max) == Ok::<nat, IntError>(0));
    } else {
        lemma_decimal_digits(value / 10, max);
        assert(s.drop_last() =~= decimal(value / 10));
        assert(s[0] == decimal(value / 10)[0]);
        assert forall|i: int| 0 <= i < s.len() implies decimal_value(s[i]) is Some by {
            if i < s.len() - 1 {
                assert(s[i] == decimal(value / 10)[i]);
            }
        }
    }
}

/// Digits without a leading zero are the decimal form of their value.
pub proof fn lemma_digits_are_decimal(s: Seq<char>, max: nat)
    requires
        s.len() == 1 || (s.len() > 1 && s[0] != '0'),
        read_digits(s, max) is Ok,
    ensures
        s == decimal(read_digits(s, max)->Ok_0),
        s[0] != '0' ==> read_digits(s, max)->Ok_0 > 0,
    decreases s.len(),
{
    if s.len() > 1 {
        lemma_digits_are_decimal(s.drop_last(), max);
    } else {
        assert(read_digits(s.drop_last(), max) == Ok::<nat, IntError>(0));
    }
    assert(s =~= decimal(read_digits(s, max)->Ok_0));
}

/// Writing a hexadecimal digit and reading it back gives the value.
pub proof fn hex_digit_round_trip(value: nat)
    requires
        value < 16,
    ensures
        hex_value(hex_digit(value)) == Some(value),
{
}

/// A number of zeros.
pub open spec fn zeros(count: nat) -> Seq<char> {
    Seq::new(count, |i: int| '0')
}

proof fn lemma_zeros_do_not_count(count: nat, s: Seq<char>, max: nat)
    ensures
        read_digits(zeros(count) + s, max) == read_digits(s, max),
    decreases count + s.len(),
{
    let whole = zeros(count) + s;
    if s.len() > 0 {
        assert(whole.drop_last() =~= zeros(count) + s.drop_last());
        lemma_zeros_do_not_count(count, s.drop_last(), max);
    } else if count > 0 {
        assert(whole.drop_last() =~= zeros((count - 1) as nat) + s);
        assert(whole.last() == '0');
        lemma_zeros_do_not_count((count - 1) as nat, s, max);
    } else {
        assert(whole =~= s);
    }
}

proof fn lemma_decimal_too_large(value: nat, max: nat)
    requires
        value > max,
    ensures
        read_digits(decimal(value), max) == Err::<nat, IntError>(IntError::TooLarge),
        decimal(value).len() > 0,
        decimal_value(decimal(value)[0]) is Some,
    decreases value,
{
    let s = decimal(value);
    if value < 10 {
        assert(read_digits(s.drop_last(), max) == Ok::<nat, IntError>(0));
    } else {
        assert(s.drop_last() =~= decimal(value / 10));
        assert(s[0] == decimal(value / 10)[0]);
        if value / 10 > max {
            lemma_decimal_too_large(value / 10, max);
        } else {
            lemma_decimal_digits(value / 10, max);
        }
    }
}

/// A number is read whether or not a plus sign or zeros stand before it, up to the greatest one
/// allowed; a greater one is refused as too large.
pub proof fn numbers_are_read(sign: bool, count: nat, value: nat, max: nat)
    ensures
        ({
            let digits = zeros(count) + decimal(value);
            read_number(
                if sign {
                    seq!['+'] + digits
                } else {
                    digits
                },
                max,
            )
        }) == if value <= max {
            Ok::<nat, IntError>(value)
        } else {
            Err(IntError::TooLarge)
        },
{
    let digits = zeros(count) + decimal(value);
    lemma_zeros_do_not_count(count, decimal(value), max);
    if value <= max {
        lemma_decimal_digits(value, max);
    } else {
        lemma_decimal_too_large(value, max);
    }
    assert((seq!['+'] + digits).skip(1) =~= digits);
    assert(digits.len() > 0);
    assert(digits[0] != '+') by {
        if count > 0 {
            assert(digits[0] == '0');
        } else {
            assert(digits[0] == decimal(value)[0]);
        }
    }
}

proof fn lemma_faults_stay(head: Seq<char>, tail: Seq<char>, max: nat)
    requires
        read_digits(head, max) is Err,
    ensures
        read_digits(head + tail, max) == read_digits(head, max),
    decreases tail.len(),
{
    let whole = head + tail;
    if tail.len() > 0 {
        assert(whole.drop_last() =~= head + tail.drop_last());
        lemma_faults_stay(head, tail.drop_last(), max);
    } else {
        assert(whole =~= head);
    }
}

/// A character that is no digit is refused where the digits before it are read; nothing, and
/// a plus sign alone, are refused too.
pub proof fn other_characters_are_refused(
    sign: bool,
    count: nat,
    value: nat,
    fault: char,
    tail: Seq<char>,
    max: nat,
)
    requires
        value <= max,
        fault < '0' || fault > '9',
    ensures
        ({
            let text = zeros(count) + decimal(value) + seq![fault] + tail;
            read_number(
                if sign {
                    seq!['+'] + text
                } else {
                    text
                },
                max,
            )
        }) == Err::<nat, IntError>(IntError::InvalidDigit),
        fault != '+' ==> read_number(seq![fault] + tail, max) == Err::<nat, IntError>(
            IntError::InvalidDigit,
        ),
        read_number(seq!['+', fault] + tail, max) == Err::<nat, IntError>(IntError::InvalidDigit),
        read_number(seq!['+'], max) == Err::<nat, IntError>(IntError::InvalidDigit),
        read_number(seq![], max) == Err::<nat, IntError>(IntError::Empty),
{
    let digits = zeros(count) + decimal(value);
    lemma_zeros_do_not_count(count, decimal(value), max);
    lemma_decimal_digits(value, max);
    let head = digits + seq![fault];
    assert(head.drop_last() =~= digits);
    lemma_faults_stay(head, tail, max);
    let text = digits + seq![fault] + tail;
    assert((seq!['+'] + text).skip(1) =~= text);
    assert(digits.len() > 0);
    assert(text[0] != '+') by {
        assert(text[0] == digits[0]);
        if count > 0 {
            assert(digits[0] == '0');
        } else {
            assert(digits[0] == decimal(value)[0]);
        }
    }
    let alone = seq![fault];
    assert(alone.drop_last() =~= seq![]);
    lemma_faults_stay(alone, tail, max);
    assert((seq!['+', fault] + tail).skip(1) =~= alone + tail);
}

/// A number that is too large stays so, whatever stands behind it.
pub proof fn too_large_stays_too_large(sign: bool, count: nat, value: nat, tail: Seq<char>, max: nat)
    requires
        value > max,
    ensures
        ({
            let text = zeros(count) + decimal(value) + tail;
            read_number(
                if sign {
                    seq!['+'] + text
                } else {
                    text
                },
                max,
            )
        }) == Err::<nat, IntError>(IntError::TooLarge),
{
    let digits = zeros(count) + decimal(value);
    lemma_zeros_do_not_count(count, decimal(value), max);
    lemma_decimal_too_large(value, max);
    lemma_faults_stay(digits, tail, max);
    let text = digits + tail;
    assert((seq!['+'] + text).skip(1) =~= text);
    assert(text[0] != '+') by {
        assert(text[0] == digits[0]);
        if count > 0 {
            assert(digits[0] == '0');
        } else {
            assert(digits[0] == decimal(value)[0]);
        }
    }
}

/// One more digit makes a number ten times as large, and adds itself.
pub proof fn decimal_is_positional(value: nat, digit: nat)
    requires
        digit < 10,
    ensures
        value > 0 ==> decimal(value * 10 + digit) == decimal(value).push(decimal_digit(digit)),
        decimal(digit) == seq![decimal_digit(digit)],
        decimal_value(decimal_digit(digit)) == Some(digit),
{
    if value > 0 {
        assert((value * 10 + digit) / 10 == value);
        assert((value * 10 + digit) % 10 == digit);
    }
}

/// Hexadecimal digits are read in either case, and nothing else is read as one.
pub proof fn hex_digits_have_two_cases(c: char)
    ensures
        'a' <= c <= 'f' ==> hex_value(c) == Some((c as nat - 87) as nat),
        'A' <= c <= 'F' ==> hex_value(c) == Some((c as nat - 55) as nat),
        '0' <= c <= '9' ==> hex_value(c) == Some((c as nat - 48) as nat),
        hex_value(c) is Some ==> ('0' <= c <= '9') || ('a' <= c <= 'f') || ('A' <= c <= 'F'),
{
}

} // verus!
