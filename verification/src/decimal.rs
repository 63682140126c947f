//! Decimal text of unsigned integers: writing them as `Display` does and
//! reading them as `str::parse` does.

use vstd::prelude::*;

verus! {

/// The character of the decimal digit `d` (below 10).
pub open spec fn digit_char(d: nat) -> char {
    (48 + d) as char
}

/// `c` is one of `0` to `9`.
pub open spec fn is_digit(c: char) -> bool {
    48 <= (c as u32) <= 57
}

/// The value of the decimal digit `c`.
pub open spec fn digit_value(c: char) -> nat {
    ((c as u32) - 48) as nat
}

/// The decimal text of `n`, without sign or leading zeros.
pub open spec fn decimal(n: nat) -> Seq<char>
    decreases n,
{
    if n < 10 {
        seq![digit_char(n)]
    } else {
        decimal(n / 10).push(digit_char(n % 10))
    }
}

/// The decimal text of `n`, with a leading zero below ten (`{:02}`).
pub open spec fn padded2(n: nat) -> Seq<char> {
    if n < 10 {
        seq!['0'] + decimal(n)
    } else {
        decimal(n)
    }
}

/// Why a text is not the decimal form of an integer in range
/// (the kinds of `std::num::ParseIntError` that unsigned parsing gives).
#[derive(Debug, Clone, Copy, PartialEq, Eq, Structural)]
pub enum IntErrorKind {
    /// The text is empty.
    Empty,
    /// A character is not a digit (or the text is a lone sign).
    InvalidDigit,
    /// The value is above the largest value of the type.
    PosOverflow,
}

/// The message of each kind of error, as `ParseIntError` shows it.
pub open spec fn int_error_text(kind: IntErrorKind) -> Seq<char> {
    match kind {
        IntErrorKind::Empty => "cannot parse integer from empty string"@,
        IntErrorKind::InvalidDigit => "invalid digit found in string"@,
        IntErrorKind::PosOverflow => "number too large to fit in target type"@,
    }
}

/// The message of an error kind.
pub fn int_error_message(kind: IntErrorKind) -> (r: &'static str)
    ensures
        r@ == int_error_text(kind),
{
    match kind {
        IntErrorKind::Empty => "cannot parse integer from empty string",
        IntErrorKind::InvalidDigit => "invalid digit found in string",
        IntErrorKind::PosOverflow => "number too large to fit in target type",
    }
}

/// Reads the digits of `s` onto the value `acc`, left to right, failing at the
/// first character that is no digit or makes the value exceed `max`.
pub open spec fn parse_digits(s: Seq<char>, acc: nat, max: nat) -> Result<nat, IntErrorKind>
    decreases s.len(),
{
    if s.len() == 0 {
        Ok(acc)
    } else if !is_digit(s[0]) {
        Err(IntErrorKind::InvalidDigit)
    } else if acc * 10 + digit_value(s[0]) > max {
        Err(IntErrorKind::PosOverflow)
    } else {
        parse_digits(s.drop_first(), acc * 10 + digit_value(s[0]), max)
    }
}

/// The unsigned integer of at most `max` that the text `s` denotes, as
/// `str::parse` reads it: an optional `+`, then decimal digits.
pub open spec fn parse_unsigned(s: Seq<char>, max: nat) -> Result<nat, IntErrorKind> {
    if s.len() == 0 {
        Err(IntErrorKind::Empty)
    } else if s[0] == '+' {
        if s.len() == 1 {
            Err(IntErrorKind::InvalidDigit)
        } else {
            parse_digits(s.drop_first(), 0, max)
        }
    } else {
        parse_digits(s, 0, max)
    }
}

/// Reading one more character.
pub proof fn lemma_parse_digits_push(s: Seq<char>, c: char, acc: nat, max: nat)
    ensures
        parse_digits(s.push(c), acc, max) == (match parse_digits(s, acc, max) {
            Ok(v) => if !is_digit(c) {
                Err(IntErrorKind::InvalidDigit)
            } else if v * 10 + digit_value(c) > max {
                Err(IntErrorKind::PosOverflow)
            } else {
                Ok(v * 10 + digit_value(c))
            },
            Err(e) => Err(e),
        }),
    decreases s.len(),
{
    if s.len() == 0 {
        assert(s.push(c)[0] == c);
        assert(s.push(c).drop_first() =~= Seq::<char>::empty());
        assert(parse_digits(Seq::<char>::empty(), acc * 10 + digit_value(c), max) == Ok::<
            nat,
            IntErrorKind,
        >(acc * 10 + digit_value(c)));
    } else {
        assert(s.push(c)[0] == s[0]);
        assert(s.push(c).drop_first() =~= s.drop_first().push(c));
        if is_digit(s[0]) && acc * 10 + digit_value(s[0]) <= max {
            lemma_parse_digits_push(s.drop_first(), c, acc * 10 + digit_value(s[0]), max);
        }
    }
}

/// A digit character reads back as its digit.
pub proof fn lemma_digit_char(d: nat)
    requires
        d < 10,
    ensures
        is_digit(digit_char(d)),
        digit_value(digit_char(d)) == d,
{
    assert((digit_char(d) as u32) == 48 + d);
}

/// Every character of a decimal text is a digit.
pub proof fn lemma_decimal_digits(n: nat)
    ensures
        decimal(n).len() > 0,
        forall|i: int| 0 <= i < decimal(n).len() ==> is_digit(#[trigger] decimal(n)[i]),
    decreases n,
{
    lemma_digit_char(n % 10);
    if n >= 10 {
        lemma_decimal_digits(n / 10);
    }
}

/// Reading the decimal text of `n` gives `n` back.
pub proof fn lemma_parse_decimal(n: nat, max: nat)
    requires
        n <= max,
    ensures
        parse_digits(decimal(n), 0, max) == Ok::<nat, IntErrorKind>(n),
        parse_unsigned(decimal(n), max) == Ok::<nat, IntErrorKind>(n),
    decreases n,
{
    lemma_decimal_digits(n);
    lemma_digit_char(n % 10);
    if n < 10 {
        let s = decimal(n);
        assert(s.drop_first() =~= Seq::<char>::empty());
        assert(parse_digits(Seq::<char>::empty(), n, max) == Ok::<nat, IntErrorKind>(n));
        assert(digit_value(s[0]) == n);
        assert(parse_digits(s, 0, max) == Ok::<nat, IntErrorKind>(n));
    } else {
        lemma_parse_decimal(n / 10, max);
        lemma_parse_digits_push(decimal(n / 10), digit_char(n % 10), 0, max);
        assert((n / 10) * 10 + n % 10 == n);
        assert(parse_digits(decimal(n), 0, max) == Ok::<nat, IntErrorKind>(n));
    }
    assert(is_digit(decimal(n)[0]));
    assert(decimal(n)[0] != '+');
}

/// Appends the decimal text of `n` to `out`.
pub fn push_decimal(out: &mut Vec<char>, n: u64)
    ensures
        final(out)@ == old(out)@ + decimal(n as nat),
    decreases n,
{
    if n >= 10 {
        push_decimal(out, n / 10);
    }
    let d = (n % 10) as u8;
    out.push((48u8 + d) as char);
    assert(out@ =~= old(out)@ + decimal(n as nat));
}

/// The decimal text of `n` (`n.to_string()`).
pub fn decimal_chars(n: u64) -> (r: Vec<char>)
    ensures
        r@ == decimal(n as nat),
{
    let mut r: Vec<char> = Vec::new();
    push_decimal(&mut r, n);
    assert(r@ =~= decimal(n as nat));
    r
}

/// The decimal text of `n`, with a leading zero below ten (`format!("{:02}", n)`).
pub fn padded2_chars(n: u64) -> (r: Vec<char>)
    ensures
        r@ == padded2(n as nat),
{
    let mut r: Vec<char> = Vec::new();
    if n < 10 {
        r.push('0');
    }
    push_decimal(&mut r, n);
    assert(r@ =~= padded2(n as nat));
    r
}

/// Reads the unsigned integer of at most `max` that `s` denotes.
pub fn parse_unsigned_chars(s: &[char], max: u64) -> (r: Result<u64, IntErrorKind>)
    ensures
        match r {
            Ok(v) => parse_unsigned(s@, max as nat) == Ok::<nat, IntErrorKind>(v as nat),
            Err(e) => parse_unsigned(s@, max as nat) == Err::<nat, IntErrorKind>(e),
        },
        r matches Ok(v) ==> v <= max,
{
    if s.len() == 0 {
        return Err(IntErrorKind::Empty);
    }
    let mut i: usize = 0;
    if s[0] == '+' {
        if s.len() == 1 {
            return Err(IntErrorKind::InvalidDigit);
        }
        i = 1;
    }
    assert(parse_unsigned(s@, max as nat) == parse_digits(s@.skip(i as int), 0, max as nat)) by {
        assert(s@.skip(1) =~= s@.drop_first());
        assert(s@.skip(0) =~= s@);
    }
    let mut acc: u64 = 0;
    while i < s.len()
        invariant
            i <= s.len(),
            acc <= max,
            parse_unsigned(s@, max as nat) == parse_digits(s@.skip(i as int), acc as nat, max as nat),
        decreases s.len() - i,
    {
        let c = s[i];
        assert(s@.skip(i as int)[0] == c);
        assert(s@.skip(i as int).drop_first() =~= s@.skip(i as int + 1));
        let n = c as u32;
        if n < 48 || n > 57 {
            return Err(IntErrorKind::InvalidDigit);
        }
        let d = (n - 48) as u64;
        if acc as u128 * 10 + d as u128 > max as u128 {
            return Err(IntErrorKind::PosOverflow);
        }
        acc = acc * 10 + d;
        i = i + 1;
    }
    assert(s@.skip(i as int).len() == 0);
    Ok(acc)
}

} // verus!
