//! Unsigned decimal numbers in text: reading a `u32` and writing one.

use crate::text::{chars_of, with_char};
use vstd::prelude::*;
use vstd::string::*;

verus! {

/// Why a text is no `u32`.
#[derive(Clone, Copy, Debug, PartialEq, Eq, Structural)]
pub enum ParseIntError {
    /// The text is empty.
    Empty,
    /// A character is no decimal digit, or the text is a lone sign.
    InvalidDigit,
    /// The number does not fit in 32 bits.
    PosOverflow,
}

pub open spec fn is_digit(c: char) -> bool {
    '0' <= c && c <= '9'
}

/// The number that the digit `c` stands for.
pub open spec fn digit_value(c: char) -> nat {
    (c as u32 - '0' as u32) as nat
}

/// The digit that stands for `d`, for `d < 10`.
pub open spec fn digit_char(d: nat) -> char {
    (d + 48) as u8 as char
}

/// Reads the digits of `s` from the left, starting from the number `acc`
/// read so far. The first character that is no digit, or with which the
/// number grows too large, decides the error.
pub open spec fn parse_digits(s: Seq<char>, acc: nat) -> Result<nat, ParseIntError>
    decreases s.len(),
{
    if s.len() == 0 {
        Ok(acc)
    } else if !is_digit(s[0]) {
        Err(ParseIntError::InvalidDigit)
    } else if acc * 10 + digit_value(s[0]) > u32::MAX {
        Err(ParseIntError::PosOverflow)
    } else {
        parse_digits(s.drop_first(), acc * 10 + digit_value(s[0]))
    }
}

/// The digits of `s`: `s` itself, or what follows a leading `+`.
pub open spec fn unsigned_part(s: Seq<char>) -> Seq<char> {
    if s.len() > 0 && s[0] == '+' {
        s.drop_first()
    } else {
        s
    }
}

/// The `u32` that `s` spells: an optional `+`, then one or more decimal
/// digits, leading zeros allowed. Nothing else is accepted, no blanks and
/// no `-`.
pub open spec fn parse_u32(s: Seq<char>) -> Result<u32, ParseIntError> {
    if s.len() == 0 {
        Err(ParseIntError::Empty)
    } else if s.len() == 1 && (s[0] == '+' || s[0] == '-') {
        Err(ParseIntError::InvalidDigit)
    } else {
        match parse_digits(unsigned_part(s), 0) {
            Ok(n) => Ok(n as u32),
            Err(e) => Err(e),
        }
    }
}

/// The decimal digits of `n`, without leading zeros.
pub open spec fn decimal(n: nat) -> Seq<char>
    decreases n,
{
    if n < 10 {
        seq![digit_char(n)]
    } else {
        decimal(n / 10).push(digit_char(n % 10))
    }
}

/// The value of a text of digits, read as a decimal number.
pub open spec fn digits_value(s: Seq<char>) -> nat
    decreases s.len(),
{
    if s.len() == 0 {
        0
    } else {
        digits_value(s.drop_last()) * 10 + digit_value(s.last())
    }
}

pub open spec fn all_digits(s: Seq<char>) -> bool {
    forall|i: int| 0 <= i < s.len() ==> is_digit(#[trigger] s[i])
}

impl ParseIntError {
    /// The sentence that describes the error.
    pub open spec fn message(self) -> Seq<char> {
        match self {
            ParseIntError::Empty => "cannot parse integer from empty string"@,
            ParseIntError::InvalidDigit => "invalid digit found in string"@,
            ParseIntError::PosOverflow => "number too large to fit in target type"@,
        }
    }

    pub fn to_string(&self) -> (r: String)
        ensures
            r@ == self.message(),
    {
        match self {
            ParseIntError::Empty => "cannot parse integer from empty string".to_owned(),
            ParseIntError::InvalidDigit => "invalid digit found in string".to_owned(),
            ParseIntError::PosOverflow => "number too large to fit in target type".to_owned(),
        }
    }
}

/// Reads a `u32` from `s` (`str::parse::<u32>`).
pub fn parse_u32_str(s: &str) -> (r: Result<u32, ParseIntError>)
    ensures
        r == parse_u32(s@),
{
    let chars = chars_of(s);
    let n = chars.len();
    if n == 0 {
        return Err(ParseIntError::Empty);
    }
    if n == 1 && (chars[0] == '+' || chars[0] == '-') {
        return Err(ParseIntError::InvalidDigit);
    }
    let mut i: usize = if chars[0] == '+' {
        1
    } else {
        0
    };
    let mut acc: u32 = 0;
    proof {
        assert(s@.skip(0) =~= s@);
    }
    while i < n
        invariant
            i <= n,
            n == chars.len(),
            chars@ == s@,
            parse_digits(unsigned_part(s@), 0) == parse_digits(s@.skip(i as int), acc as nat),
        decreases n - i,
    {
        let c = chars[i];
        proof {
            assert(s@.skip(i as int).drop_first() =~= s@.skip(i + 1));
        }
        if !('0' <= c && c <= '9') {
            return Err(ParseIntError::InvalidDigit);
        }
        if acc > u32::MAX / 10 {
            return Err(ParseIntError::PosOverflow);
        }
        let d: u32 = c as u32 - '0' as u32;
        if acc * 10 > u32::MAX - d {
            return Err(ParseIntError::PosOverflow);
        }
        acc = acc * 10 + d;
        i += 1;
    }
    Ok(acc)
}

/// Appends the decimal digits of `n` to `text`.
fn append_decimal(text: String, n: u32) -> (r: String)
    ensures
        r@ == text@ + decimal(n as nat),
    decreases n,
{
    let front = if n >= 10 {
        append_decimal(text, n / 10)
    } else {
        text
    };
    let d: u8 = (n % 10) as u8;
    let r = with_char(front, (d + 48u8) as char);
    proof {
        if n >= 10 {
        } else {
        }
    }
    r
}

/// The decimal digits of `n` (what `{}` prints for a `u32`).
pub fn u32_to_string(n: u32) -> (r: String)
    ensures
        r@ == decimal(n as nat),
{
    let r = append_decimal(String::new(), n);
    r
}

/// Reading a text in two parts: the second part goes on from the number
/// that the first part gave.
pub proof fn lemma_parse_digits_concat(a: Seq<char>, b: Seq<char>, acc: nat)
    ensures
        parse_digits(a + b, acc) == match parse_digits(a, acc) {
            Ok(m) => parse_digits(b, m),
            Err(e) => Err(e),
        },
    decreases a.len(),
{
    if a.len() == 0 {
    } else {
        assert((a + b).drop_first() =~= a.drop_first() + b);
        if is_digit(a[0]) && acc * 10 + digit_value(a[0]) <= u32::MAX {
            lemma_parse_digits_concat(a.drop_first(), b, acc * 10 + digit_value(a[0]));
        }
    }
}

/// The digits written for `n` are digits, and the first is no sign.
pub proof fn lemma_decimal_digits(n: nat)
    ensures
        decimal(n).len() >= 1,
        all_digits(decimal(n)),
    decreases n,
{
    if n >= 10 {
        lemma_decimal_digits(n / 10);
    }
}

/// Writing a number and reading it again gives the number back.
pub proof fn lemma_parse_decimal(n: u32)
    ensures
        parse_u32(decimal(n as nat)) == Ok::<u32, ParseIntError>(n),
{
    lemma_digits_of_decimal(n as nat);
    lemma_decimal_digits(n as nat);
    let d = decimal(n as nat);
}

proof fn lemma_digits_of_decimal(n: nat)
    requires
        n <= u32::MAX,
    ensures
        parse_digits(decimal(n), 0) == Ok::<nat, ParseIntError>(n),
    decreases n,
{
    if n < 10 {
        let s = seq![digit_char(n)];
        assert(s.drop_first() =~= Seq::<char>::empty());
        assert(parse_digits(Seq::<char>::empty(), n) == Ok::<nat, ParseIntError>(n));
    } else {
        lemma_digits_of_decimal(n / 10);
        let last = seq![digit_char(n % 10)];
        assert(decimal(n) =~= decimal(n / 10) + last);
        lemma_parse_digits_concat(decimal(n / 10), last, 0);
        assert(last.drop_first() =~= Seq::<char>::empty());
    }
}

} // verus!
