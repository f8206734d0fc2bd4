use vstd::prelude::*;
use vstd::string::StrSliceExecFns;
use vstd::string::StringExecFns;

verus! {

/// Why a text is not a whole number that fits in 32 bits.
#[derive(Debug, Clone, Copy, PartialEq, Eq, Structural)]
pub enum NumberFault {
    /// The text has no characters.
    Empty,
    /// The text has no digit, or a character that is neither a digit nor a leading sign.
    InvalidDigit,
    /// The number is above the largest value.
    TooLarge,
    /// The number is below the smallest value.
    TooSmall,
}

/// Whether a character is one of the ten decimal digits.
pub open spec fn is_digit(c: char) -> bool {
    '0' <= c && c <= '9'
}

/// The number that a decimal digit stands for.
pub open spec fn digit_value(c: char) -> int {
    c as int - '0' as int
}

/// The number that a row of decimal digits writes, the last digit counting once.
pub open spec fn digits_value(digits: Seq<char>) -> int
    decreases digits.len(),
{
    if digits.len() == 0 {
        0
    } else {
        10 * digits_value(digits.drop_last()) + digit_value(digits.last())
    }
}

/// Whether every character is a decimal digit.
pub open spec fn all_digits(digits: Seq<char>) -> bool {
    forall|i: int| 0 <= i < digits.len() ==> is_digit(#[trigger] digits[i])
}

/// Whether the text starts with a sign.
pub open spec fn has_sign(text: Seq<char>) -> bool {
    text.len() > 0 && (text[0] == '-' || text[0] == '+')
}

/// Whether the text starts with a minus sign.
pub open spec fn is_negative(text: Seq<char>) -> bool {
    text.len() > 0 && text[0] == '-'
}

/// The text without its leading sign, if it has one.
pub open spec fn digits_of(text: Seq<char>) -> Seq<char> {
    if has_sign(text) {
        text.skip(1)
    } else {
        text
    }
}

/// The number that the digits behind the sign write, negated behind a minus sign.
pub open spec fn signed_value(text: Seq<char>) -> int {
    if is_negative(text) {
        -digits_value(digits_of(text))
    } else {
        digits_value(digits_of(text))
    }
}

/// What a row of characters reads as, character by character from the
/// left: each has to be a digit, and the number read so far has to stay
/// within 32 bits. The first character at which one of the two fails
/// decides the fault; where both fail at one character, it is no digit.
pub open spec fn read_digits(digits: Seq<char>, negative: bool) -> Result<int, NumberFault>
    decreases digits.len(),
{
    if digits.len() == 0 {
        Ok(0)
    } else {
        match read_digits(digits.drop_last(), negative) {
            Err(fault) => Err(fault),
            Ok(before) => if !is_digit(digits.last()) {
                Err(NumberFault::InvalidDigit)
            } else {
                let number = if negative {
                    10 * before - digit_value(digits.last())
                } else {
                    10 * before + digit_value(digits.last())
                };
                if number > i32::MAX {
                    Err(NumberFault::TooLarge)
                } else if number < i32::MIN {
                    Err(NumberFault::TooSmall)
                } else {
                    Ok(number)
                }
            },
        }
    }
}

/// What a text means as a 32-bit whole number: an optional `+` or `-`, then
/// one or more decimal digits and nothing else, the value within range. A
/// text that is no such number has the fault that reading it from the left
/// meets first.
pub open spec fn read_i32(text: Seq<char>) -> Result<i32, NumberFault> {
    if text.len() == 0 {
        Err(NumberFault::Empty)
    } else if digits_of(text).len() == 0 {
        Err(NumberFault::InvalidDigit)
    } else {
        match read_digits(digits_of(text), is_negative(text)) {
            Ok(number) => Ok(number as i32),
            Err(fault) => Err(fault),
        }
    }
}

impl NumberFault {
    /// The fault in words.
    pub open spec fn words(self) -> Seq<char> {
        match self {
            NumberFault::Empty => "cannot parse integer from empty string"@,
            NumberFault::InvalidDigit => "invalid digit found in string"@,
            NumberFault::TooLarge => "number too large to fit in target type"@,
            NumberFault::TooSmall => "number too small to fit in target type"@,
        }
    }

    /// Writes the fault in words.
    pub fn message(&self) -> (text: String)
        ensures
            text@ == self.words(),
    {
        match self {
            NumberFault::Empty => String::from_str("cannot parse integer from empty string"),
            NumberFault::InvalidDigit => String::from_str("invalid digit found in string"),
            NumberFault::TooLarge => String::from_str("number too large to fit in target type"),
            NumberFault::TooSmall => String::from_str("number too small to fit in target type"),
        }
    }
}

proof fn lemma_digits_value_nonnegative(digits: Seq<char>)
    requires
        all_digits(digits),
    ensures
        0 <= digits_value(digits),
    decreases digits.len(),
{
    if digits.len() > 0 {
        assert(is_digit(digits.last()));
        lemma_digits_value_nonnegative(digits.drop_last());
    }
}

/// A row of characters reads as a number exactly where all of them are
/// digits and the number they write, negated where asked, is within 32
/// bits. It then reads as that number.
pub proof fn lemma_read_digits(digits: Seq<char>, negative: bool)
    ensures
        match read_digits(digits, negative) {
            Ok(number) => all_digits(digits) && i32::MIN <= number <= i32::MAX && number == (
            if negative {
                -digits_value(digits)
            } else {
                digits_value(digits)
            }),
            Err(_) => !all_digits(digits) || (if negative {
                -digits_value(digits) < i32::MIN
            } else {
                digits_value(digits) > i32::MAX
            }),
        },
    decreases digits.len(),
{
    if digits.len() > 0 {
        let front = digits.drop_last();
        lemma_read_digits(front, negative);
        if all_digits(digits) {
            assert forall|i: int| 0 <= i < front.len() implies is_digit(#[trigger] front[i]) by {
                assert(front[i] == digits[i]);
            }
            assert(is_digit(digits.last()));
            lemma_digits_value_nonnegative(front);
        } else if all_digits(front) {
            if is_digit(digits.last()) {
                assert forall|i: int| 0 <= i < digits.len() implies is_digit(
                    #[trigger] digits[i],
                ) by {
                    if i < front.len() {
                        assert(front[i] == digits[i]);
                    }
                }
            }
        }
    }
}

/// A text means a number exactly where it is an optional sign and then one
/// or more digits that write a number within 32 bits, and means that number.
pub proof fn lemma_read_i32(text: Seq<char>)
    ensures
        read_i32(text) is Ok <==> digits_of(text).len() > 0 && all_digits(digits_of(text))
            && i32::MIN <= signed_value(text) <= i32::MAX,
        read_i32(text) matches Ok(number) ==> number == signed_value(text),
{
    lemma_read_digits(digits_of(text), is_negative(text));
}

/// Reads a whole number from a text, as `read_i32` defines it.
pub fn parse_i32(text: &str) -> (number: Result<i32, NumberFault>)
    ensures
        number == read_i32(text@),
{
    let n: usize = text.unicode_len();
    if n == 0 {
        return Err(NumberFault::Empty);
    }
    let first: char = text.get_char(0);
    let negative: bool = first == '-';
    let start: usize = if first == '-' || first == '+' {
        1
    } else {
        0
    };
    let ghost digits = digits_of(text@);
    assert(digits == text@.skip(start as int));
    if start == n {
        return Err(NumberFault::InvalidDigit);
    }
    let mut number: i64 = 0;
    let mut k: usize = start;
    assert(digits.take(0) =~= Seq::<char>::empty());
    while k < n
        invariant
            start <= k <= n,
            n == text@.len(),
            start < n,
            digits == text@.skip(start as int),
            digits == digits_of(text@),
            negative == is_negative(text@),
            i32::MIN <= number <= i32::MAX,
            read_digits(digits.take(k - start), negative) == Ok::<int, NumberFault>(number as int),
        decreases n - k,
    {
        let c: char = text.get_char(k);
        let ghost longer = digits.take(k - start + 1);
        proof {
            assert(digits[k - start] == c);
            assert(longer.drop_last() =~= digits.take(k - start));
            assert(longer.last() == c);
            lemma_fault_stays(digits, k - start + 1, negative);
        }
        if !('0' <= c && c <= '9') {
            assert(digits.take(digits.len() as int) =~= digits);
            return Err(NumberFault::InvalidDigit);
        }
        let d: i64 = (c as u32 - '0' as u32) as i64;
        let grown: i64 = if negative {
            number * 10 - d
        } else {
            number * 10 + d
        };
        if grown > 2147483647 {
            assert(digits.take(digits.len() as int) =~= digits);
            return Err(NumberFault::TooLarge);
        }
        if grown < -2147483648 {
            assert(digits.take(digits.len() as int) =~= digits);
            return Err(NumberFault::TooSmall);
        }
        number = grown;
        k = k + 1;
    }
    assert(digits.take(n - start) =~= digits);
    Ok(number as i32)
}

/// A fault that reading meets in the first characters is the fault of the
/// whole row.
proof fn lemma_fault_stays(digits: Seq<char>, k: int, negative: bool)
    requires
        0 <= k <= digits.len(),
    ensures
        read_digits(digits.take(k), negative) is Err ==> read_digits(digits, negative)
            == read_digits(digits.take(k), negative),
    decreases digits.len() - k,
{
    if k < digits.len() {
        lemma_fault_stays(digits, k + 1, negative);
        assert(digits.take(k + 1).drop_last() =~= digits.take(k));
    } else {
        assert(digits.take(k) =~= digits);
    }
}

/// The character that writes one decimal digit.
pub open spec fn digit_char(digit: nat) -> char {
    if digit == 0 {
        '0'
    } else if digit == 1 {
        '1'
    } else if digit == 2 {
        '2'
    } else if digit == 3 {
        '3'
    } else if digit == 4 {
        '4'
    } else if digit == 5 {
        '5'
    } else if digit == 6 {
        '6'
    } else if digit == 7 {
        '7'
    } else if digit == 8 {
        '8'
    } else {
        '9'
    }
}

/// The decimal digits that write a number, without leading zeros.
pub open spec fn decimal_digits(number: nat) -> Seq<char>
    decreases number,
{
    if number < 10 {
        seq![digit_char(number)]
    } else {
        decimal_digits(number / 10).push(digit_char(number % 10))
    }
}

/// A whole number as it is written: a minus sign where it is negative, then its digits.
pub open spec fn decimal_text(number: int) -> Seq<char> {
    if number < 0 {
        seq!['-'] + decimal_digits((-number) as nat)
    } else {
        decimal_digits(number as nat)
    }
}

/// The text of one decimal digit.
fn digit_text(digit: u64) -> (text: &'static str)
    requires
        digit < 10,
    ensures
        text@ == seq![digit_char(digit as nat)],
{
    proof {
        reveal_strlit("0");
        reveal_strlit("1");
        reveal_strlit("2");
        reveal_strlit("3");
        reveal_strlit("4");
        reveal_strlit("5");
        reveal_strlit("6");
        reveal_strlit("7");
        reveal_strlit("8");
        reveal_strlit("9");
    }
    let text = if digit == 0 {
        "0"
    } else if digit == 1 {
        "1"
    } else if digit == 2 {
        "2"
    } else if digit == 3 {
        "3"
    } else if digit == 4 {
        "4"
    } else if digit == 5 {
        "5"
    } else if digit == 6 {
        "6"
    } else if digit == 7 {
        "7"
    } else if digit == 8 {
        "8"
    } else {
        "9"
    };
    assert(text@ =~= seq![digit_char(digit as nat)]);
    text
}

/// Writes the digits of a number.
fn digits_to_text(number: u64) -> (text: String)
    ensures
        text@ == decimal_digits(number as nat),
    decreases number,
{
    if number < 10 {
        String::from_str(digit_text(number))
    } else {
        let mut text = digits_to_text(number / 10);
        text.append(digit_text(number % 10));
        assert(text@ =~= decimal_digits(number as nat));
        text
    }
}

/// Writes a whole number in decimal digits.
pub fn number_to_text(number: i64) -> (text: String)
    ensures
        text@ == decimal_text(number as int),
{
    if number < 0 {
        let magnitude: u64 = if number == i64::MIN {
            9223372036854775808u64
        } else {
            (0 - number) as u64
        };
        proof {
            reveal_strlit("-");
        }
        let text = String::from_str("-").concat(digits_to_text(magnitude).as_str());
        assert(text@ =~= decimal_text(number as int));
        text
    } else {
        digits_to_text(number as u64)
    }
}

/// The digits that write a number are digits, and are worth the number.
proof fn lemma_decimal_digits(number: nat)
    ensures
        decimal_digits(number).len() > 0,
        all_digits(decimal_digits(number)),
        digits_value(decimal_digits(number)) == number,
    decreases number,
{
    if number >= 10 {
        lemma_decimal_digits(number / 10);
        let front = decimal_digits(number / 10);
        let all = decimal_digits(number);
        assert(all.drop_last() == front);
        assert(all.last() == digit_char(number % 10));
        assert(digit_value(digit_char(number % 10)) == number % 10);
        assert forall|i: int| 0 <= i < all.len() implies is_digit(#[trigger] all[i]) by {
            if i < front.len() {
                assert(all[i] == front[i]);
            }
        }
    } else {
        let all = decimal_digits(number);
        assert(all.drop_last() == Seq::<char>::empty());
        assert(all.last() == digit_char(number));
        assert(digit_value(digit_char(number)) == number);
        assert(digits_value(all.drop_last()) == 0);
    }
}

/// A number that is written and read again is the number it was.
pub proof fn lemma_written_number_reads_back(number: i32)
    ensures
        read_i32(decimal_text(number as int)) == Ok::<i32, NumberFault>(number),
{
    let text = decimal_text(number as int);
    if number < 0 {
        let digits = decimal_digits((-number) as nat);
        lemma_decimal_digits((-number) as nat);
        assert(text[0] == '-');
        assert(text.skip(1) =~= digits);
        lemma_read_digits(digits, true);
    } else {
        let digits = decimal_digits(number as nat);
        lemma_decimal_digits(number as nat);
        assert(is_digit(digits[0]));
        assert(text =~= digits);
        lemma_read_digits(digits, false);
    }
}

} // verus!
