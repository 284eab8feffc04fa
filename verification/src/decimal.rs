//! Unsigned numbers as decimal text, in both directions.
//!
//! The handshake message carries its numbers as decimal digits. This module
//! says what the digits of a number are, what number a run of digits stands
//! for, and which texts are read as a number at all.

use vstd::prelude::*;
use vstd::std_specs::iter::IteratorSpec;
use vstd::string::*;

verus! {

/// Why a text was not read as a number.
#[derive(Clone, Copy, Debug, PartialEq, Eq, Structural)]
pub enum NumberError {
    /// The text has no characters.
    Empty,
    /// The text holds a character that is no decimal digit where a digit was
    /// expected, or it is a sign with nothing after it.
    InvalidDigit,
    /// The digits stand for a number above the largest that fits.
    Overflow,
}

impl NumberError {
    /// What the error is called in a diagnostic.
    pub open spec fn text(self) -> Seq<char> {
        match self {
            NumberError::Empty => "cannot parse integer from empty string"@,
            NumberError::InvalidDigit => "invalid digit found in string"@,
            NumberError::Overflow => "number too large to fit in target type"@,
        }
    }

    /// What the error is called in a diagnostic.
    pub fn message(&self) -> (r: &'static str)
        ensures
            r@ == self.text(),
    {
        match self {
            NumberError::Empty => "cannot parse integer from empty string",
            NumberError::InvalidDigit => "invalid digit found in string",
            NumberError::Overflow => "number too large to fit in target type",
        }
    }
}

/// Whether `c` is one of the ten decimal digits.
pub open spec fn is_digit(c: char) -> bool {
    '0' <= c <= '9'
}

/// The number that the digit `c` stands for.
pub open spec fn digit_value(c: char) -> nat
    recommends
        is_digit(c),
{
    (c as nat - '0' as nat) as nat
}

/// The digit that stands for `d`.
pub open spec fn digit_char(d: nat) -> char
    recommends
        d < 10,
{
    if d == 0 {
        '0'
    } else if d == 1 {
        '1'
    } else if d == 2 {
        '2'
    } else if d == 3 {
        '3'
    } else if d == 4 {
        '4'
    } else if d == 5 {
        '5'
    } else if d == 6 {
        '6'
    } else if d == 7 {
        '7'
    } else if d == 8 {
        '8'
    } else {
        '9'
    }
}

/// Whether every character of `s` is a decimal digit.
pub open spec fn all_digits(s: Seq<char>) -> bool {
    forall|i: int| 0 <= i < s.len() ==> is_digit(#[trigger] s[i])
}

/// The decimal digits of `n`, most significant first, without leading zeros.
pub open spec fn decimal(n: nat) -> Seq<char>
    decreases n,
{
    if n < 10 {
        seq![digit_char(n)]
    } else {
        decimal(n / 10).push(digit_char(n % 10))
    }
}

/// The number that a run of decimal digits stands for, the first digit being
/// the most significant. The empty run stands for zero.
pub open spec fn digits_value(s: Seq<char>) -> nat
    decreases s.len(),
{
    if s.len() == 0 {
        0
    } else {
        10 * digits_value(s.drop_last()) + digit_value(s.last())
    }
}

/// How many decimal digits `s` begins with.
pub open spec fn digit_run(s: Seq<char>) -> nat
    decreases s.len(),
{
    if s.len() == 0 || !is_digit(s[0]) {
        0
    } else {
        1 + digit_run(s.drop_first())
    }
}

/// `s` without the plus sign that it may begin with.
pub open spec fn unsigned_part(s: Seq<char>) -> Seq<char> {
    if s.len() > 0 && s[0] == '+' {
        s.drop_first()
    } else {
        s
    }
}

/// What a text is read as, where `max` is the largest number that fits.
///
/// A number is an optional plus sign followed by one or more decimal digits
/// and nothing else. The text is read from the left, and the first thing that
/// is wrong with it decides the error: the digits before the first character
/// that is no digit overflow, or else that character is reported.
pub open spec fn parse_number(s: Seq<char>, max: nat) -> Result<nat, NumberError> {
    let body = unsigned_part(s);
    let digits = body.take(digit_run(body) as int);
    if s.len() == 0 {
        Err(NumberError::Empty)
    } else if body.len() == 0 {
        Err(NumberError::InvalidDigit)
    } else if digits_value(digits) > max {
        Err(NumberError::Overflow)
    } else if digits.len() < body.len() {
        Err(NumberError::InvalidDigit)
    } else {
        Ok(digits_value(digits))
    }
}

/// A run of digits followed by one more digit stands for ten times the run's
/// number plus the new digit.
pub proof fn lemma_digits_value_push(s: Seq<char>, c: char)
    ensures
        digits_value(s.push(c)) == 10 * digits_value(s) + digit_value(c),
{
    assert(s.push(c).drop_last() =~= s);
    assert(s.push(c).last() == c);
}

/// A longer run of digits never stands for a smaller number than the part of
/// it that was read first.
pub proof fn lemma_digits_value_prefix(s: Seq<char>, j: int)
    requires
        0 <= j <= s.len(),
    ensures
        digits_value(s.take(j)) <= digits_value(s),
    decreases s.len(),
{
    if j == s.len() {
        assert(s.take(j) =~= s);
    } else {
        assert(s.drop_last().take(j) =~= s.take(j));
        lemma_digits_value_prefix(s.drop_last(), j);
    }
}

/// The run of digits at the start of `s` ends at `j` when everything before
/// `j` is a digit and `s` ends there or goes on with something else.
pub proof fn lemma_digit_run_is(s: Seq<char>, j: int)
    requires
        0 <= j <= s.len(),
        all_digits(s.take(j)),
        j == s.len() || !is_digit(s[j]),
    ensures
        digit_run(s) == j,
    decreases j,
{
    if j > 0 {
        assert(s.take(j)[0] == s[0]);
        assert forall|i: int| 0 <= i < j - 1 implies is_digit(#[trigger] s.drop_first().take(j - 1)[i]) by {
            assert(s.drop_first().take(j - 1)[i] == s.take(j)[i + 1]);
        }
        lemma_digit_run_is(s.drop_first(), j - 1);
    }
}

/// The run of digits at the start of `s` is no shorter than any stretch of
/// digits that `s` begins with.
pub proof fn lemma_digit_run_at_least(s: Seq<char>, j: int)
    requires
        0 <= j <= s.len(),
        all_digits(s.take(j)),
    ensures
        j <= digit_run(s) <= s.len(),
    decreases s.len(),
{
    if s.len() > 0 && is_digit(s[0]) {
        if j > 0 {
            assert forall|i: int| 0 <= i < j - 1 implies is_digit(#[trigger] s.drop_first().take(j - 1)[i]) by {
                assert(s.drop_first().take(j - 1)[i] == s.take(j)[i + 1]);
            }
            lemma_digit_run_at_least(s.drop_first(), j - 1);
        } else {
            assert(s.drop_first().take(0) =~= Seq::<char>::empty());
            lemma_digit_run_at_least(s.drop_first(), 0);
        }
    } else if j > 0 {
        assert(s.take(j)[0] == s[0]);
    }
}

/// The digits of a number are digits, there is at least one of them, and
/// they stand for that number.
pub proof fn lemma_decimal_digits(n: nat)
    ensures
        decimal(n).len() >= 1,
        all_digits(decimal(n)),
        digits_value(decimal(n)) == n,
    decreases n,
{
    if n < 10 {
        let s = decimal(n);
        assert(s.drop_last() =~= Seq::<char>::empty());
        assert(s.last() == digit_char(n));
        assert(digits_value(s.drop_last()) == 0);
    } else {
        lemma_decimal_digits(n / 10);
        lemma_digits_value_push(decimal(n / 10), digit_char(n % 10));
    }
}

/// Reading the digits of a number gives the number back, as long as it fits.
pub proof fn lemma_parse_decimal(n: nat, max: nat)
    requires
        n <= max,
    ensures
        parse_number(decimal(n), max) == Ok::<nat, NumberError>(n),
{
    let s = decimal(n);
    lemma_decimal_digits(n);
    assert(is_digit(s[0]));
    assert(unsigned_part(s) == s);
    assert(s.take(s.len() as int) =~= s);
    lemma_digit_run_is(s, s.len() as int);
}

/// The digit `d` as a text of one character.
fn digit_text(d: u64) -> (r: &'static str)
    requires
        d < 10,
    ensures
        r@ == seq![digit_char(d as nat)],
{
    proof {
        reveal_strlit("0");
        reveal_strlit("1");
        reveal_strlit("2");
        reveal_strlit("3");
        reveal_strlit("4");
        reveal_strlit("5");
        reveal_strlit("6");
        reveal_strlit("7");
        reveal_strlit("8");
        reveal_strlit("9");
    }
    let r = if d == 0 {
        "0"
    } else if d == 1 {
        "1"
    } else if d == 2 {
        "2"
    } else if d == 3 {
        "3"
    } else if d == 4 {
        "4"
    } else if d == 5 {
        "5"
    } else if d == 6 {
        "6"
    } else if d == 7 {
        "7"
    } else if d == 8 {
        "8"
    } else {
        "9"
    };
    assert(r@ =~= seq![digit_char(d as nat)]);
    r
}

/// Writes `n` in decimal digits.
pub fn decimal_string(n: u64) -> (r: String)
    ensures
        r@ == decimal(n as nat),
    decreases n,
{
    if n < 10 {
        String::from_str(digit_text(n))
    } else {
        let mut r = decimal_string(n / 10);
        r.append(digit_text(n % 10));
        assert(r@ =~= decimal((n / 10) as nat).push(digit_char((n % 10) as nat)));
        r
    }
}

/// Reads `s` as a `usize`: an optional plus sign, then decimal digits only.
pub fn parse_usize(s: &str) -> (r: Result<usize, NumberError>)
    ensures
        match r {
            Ok(v) => parse_number(s@, usize::MAX as nat) == Ok::<nat, NumberError>(v as nat),
            Err(e) => parse_number(s@, usize::MAX as nat) == Err::<nat, NumberError>(e),
        },
{
    let ghost body = unsigned_part(s@);
    let mut value: usize = 0;
    let ghost mut seen: int = 0;
    let mut any_digit = false;
    let mut signed = false;
    let mut started = false;
    for c in it: s.chars()
        invariant
            it.seq() == s@,
            body == unsigned_part(s@),
            started == (it.index() > 0),
            signed == (it.index() > 0 && s@[0] == '+'),
            seen + (if signed { 1int } else { 0int }) == it.index(),
            any_digit == (seen > 0),
            all_digits(body.take(seen)),
            value == digits_value(body.take(seen)),
    {
        let ghost k = it.index() as int;
        assert(c == s@[k]);
        if !started && c == '+' {
            signed = true;
            assert(body.take(0) =~= Seq::<char>::empty());
        } else if c < '0' || c > '9' {
            proof {
                assert(body[seen] == c);
                lemma_digit_run_is(body, seen);
            }
            return Err(NumberError::InvalidDigit);
        } else {
            let d: usize = (c as u32 - '0' as u32) as usize;
            proof {
                assert(body[seen] == c);
                assert(body.take(seen + 1) =~= body.take(seen).push(c));
                lemma_digits_value_push(body.take(seen), c);
                assert(d == digit_value(c));
            }
            if value > (usize::MAX - d) / 10 {
                proof {
                    let run = digit_run(body) as int;
                    lemma_digit_run_at_least(body, seen + 1);
                    assert(body.take(run).take(seen + 1) =~= body.take(seen + 1));
                    lemma_digits_value_prefix(body.take(run), seen + 1);
                }
                return Err(NumberError::Overflow);
            }
            value = value * 10 + d;
            any_digit = true;
            proof {
                seen = seen + 1;
            }
        }
        started = true;
    }
    proof {
        assert(body.len() == seen);
        assert(body.take(seen) =~= body);
        lemma_digit_run_is(body, seen);
    }
    if !started {
        Err(NumberError::Empty)
    } else if !any_digit {
        Err(NumberError::InvalidDigit)
    } else {
        Ok(value)
    }
}

} // verus!
