//! Numbers written in decimal.

use vstd::prelude::*;

verus! {

/// The decimal digit of value `d`.
pub open spec fn digit(d: nat) -> char
    recommends
        d < 10,
{
    (48 + d) as char
}

/// `n` in decimal, without leading zeros.
pub open spec fn decimal(n: nat) -> Seq<char>
    decreases n,
{
    if n < 10 {
        seq![digit(n)]
    } else {
        decimal(n / 10).push(digit(n % 10))
    }
}

/// `n` in decimal, with zeros in front where it is shorter than `width`.
pub open spec fn zero_padded(n: nat, width: nat) -> Seq<char> {
    let digits = decimal(n);
    if digits.len() < width {
        Seq::new((width - digits.len()) as nat, |i: int| '0') + digits
    } else {
        digits
    }
}

/// Whether `c` is a decimal digit.
pub open spec fn is_digit(c: char) -> bool {
    '0' <= c <= '9'
}

/// The value of a decimal digit.
pub open spec fn digit_value(c: char) -> nat
    recommends
        is_digit(c),
{
    (c as int - 48) as nat
}

/// Why a text is no number of the wanted range.
#[derive(Clone, Copy, Debug, PartialEq, Eq, Structural)]
pub enum NumberError {
    Empty,
    InvalidDigit,
    TooLarge,
}

/// Reads the digits of `s` after a number of value `so_far`, from the left. The
/// first character that is no digit, or that takes the number above `max`, ends it.
pub open spec fn read_digits(s: Seq<char>, so_far: nat, max: nat) -> Result<nat, NumberError>
    decreases s.len(),
{
    if s.len() == 0 {
        Ok(so_far)
    } else if !is_digit(s[0]) {
        Err(NumberError::InvalidDigit)
    } else if so_far * 10 + digit_value(s[0]) > max {
        Err(NumberError::TooLarge)
    } else {
        read_digits(s.drop_first(), so_far * 10 + digit_value(s[0]), max)
    }
}

/// The unsigned number that `s` spells: digits, after a `+` or none, up to `max`.
pub open spec fn read_number(s: Seq<char>, max: nat) -> Result<nat, NumberError> {
    if s.len() == 0 {
        Err(NumberError::Empty)
    } else if s.len() == 1 && (s[0] == '+' || s[0] == '-') {
        Err(NumberError::InvalidDigit)
    } else if s[0] == '+' {
        read_digits(s.drop_first(), 0, max)
    } else {
        read_digits(s, 0, max)
    }
}

fn digit_char(d: u128) -> (c: char)
    requires
        d < 10,
    ensures
        c == digit(d as nat),
{
    let code: u8 = 48u8 + d as u8;
    code as char
}

/// Appends `n` in decimal.
pub fn push_decimal(s: &mut String, n: u128)
    ensures
        final(s)@ == old(s)@ + decimal(n as nat),
    decreases n,
{
    if n >= 10 {
        push_decimal(s, n / 10);
    }
    s.push(digit_char(n % 10));
    assert(s@ == old(s)@ + decimal(n as nat));
}

/// `n` in decimal.
pub fn decimal_text(n: u128) -> (s: String)
    ensures
        s@ == decimal(n as nat),
{
    let mut s: String = String::new();
    push_decimal(&mut s, n);
    assert(s@ == decimal(n as nat));
    s
}

/// Appends `n` in decimal, with zeros in front where it is shorter than `width`.
pub fn push_zero_padded(s: &mut String, n: u128, width: usize)
    ensures
        final(s)@ == old(s)@ + zero_padded(n as nat, width as nat),
{
    let digits = decimal_text(n);
    let len: usize = digits.as_str().unicode_len();
    let mut pad: usize = if len < width {
        width - len
    } else {
        0
    };
    let ghost zeros = Seq::new(pad as nat, |i: int| '0');
    let ghost total: int = pad as int;
    assert(s@ == old(s)@ + zeros.take(0));
    while pad > 0
        invariant
            0 <= pad <= total,
            zeros == Seq::new(total as nat, |i: int| '0'),
            s@ == old(s)@ + zeros.take(total - pad),
        decreases pad,
    {
        s.push('0');
        pad -= 1;
        assert(zeros.take(total - pad) == zeros.take(total - pad - 1).push('0'));
        assert(s@ == old(s)@ + zeros.take(total - pad));
    }
    assert(zeros.take(total) == zeros);
    s.append(digits.as_str());
    assert(s@ == old(s)@ + zero_padded(n as nat, width as nat));
}

/// Reads an unsigned number up to `max`, as `str::parse` does.
pub fn parse_number(s: &[char], max: u64) -> (r: Result<u64, NumberError>)
    ensures
        match r {
            Ok(n) => read_number(s@, max as nat) == Ok::<nat, NumberError>(n as nat),
            Err(e) => read_number(s@, max as nat) == Err::<nat, NumberError>(e),
        },
        r is Ok ==> r->Ok_0 <= max,
{
    if s.len() == 0 {
        return Err(NumberError::Empty);
    }
    if s.len() == 1 && (s[0] == '+' || s[0] == '-') {
        return Err(NumberError::InvalidDigit);
    }
    let mut i: usize = if s[0] == '+' {
        1
    } else {
        0
    };
    let mut value: u64 = 0;
    assert(s@.skip(0) == s@);
    assert(s@.skip(1) == s@.drop_first());
    while i < s.len()
        invariant
            i <= s@.len(),
            value <= max,
            read_number(s@, max as nat) == read_digits(s@.skip(i as int), value as nat, max as nat),
        decreases s@.len() - i,
    {
        let c = s[i];
        assert(s@.skip(i as int)[0] == c);
        assert(s@.skip(i as int).drop_first() == s@.skip(i + 1));
        if !('0' <= c && c <= '9') {
            return Err(NumberError::InvalidDigit);
        }
        let d: u8 = c as u8 - 48u8;
        let next: u128 = value as u128 * 10u128 + d as u128;
        if next > max as u128 {
            return Err(NumberError::TooLarge);
        }
        value = next as u64;
        i += 1;
    }
    Ok(value)
}

/// Every digit of a decimal number is an ASCII digit, and there is at least one.
pub proof fn lemma_decimal_digits(n: nat)
    ensures
        decimal(n).len() > 0,
        forall|i: int| 0 <= i < decimal(n).len() ==> is_digit(#[trigger] decimal(n)[i]),
    decreases n,
{
    if n >= 10 {
        lemma_decimal_digits(n / 10);
    }
}

proof fn lemma_read_digits_push(s: Seq<char>, c: char, so_far: nat, max: nat)
    requires
        is_digit(c),
        read_digits(s, so_far, max) is Ok,
        read_digits(s, so_far, max)->Ok_0 * 10 + digit_value(c) <= max,
    ensures
        read_digits(s.push(c), so_far, max) == Ok::<nat, NumberError>(
            read_digits(s, so_far, max)->Ok_0 * 10 + digit_value(c),
        ),
    decreases s.len(),
{
    reveal_with_fuel(read_digits, 2);
    if s.len() == 0 {
        assert(s.push(c).drop_first() == Seq::<char>::empty());
    } else {
        assert(s.push(c).drop_first() == s.drop_first().push(c));
        lemma_read_digits_push(s.drop_first(), c, so_far * 10 + digit_value(s[0]), max);
    }
}

/// A number written in decimal reads back as itself.
pub proof fn law_decimal_reads_back(n: nat, max: nat)
    requires
        n <= max,
    ensures
        read_number(decimal(n), max) == Ok::<nat, NumberError>(n),
{
    lemma_decimal_digits(n);
    lemma_decimal_value(n, max);
    assert(is_digit(decimal(n)[0]));
}

proof fn lemma_decimal_value(n: nat, max: nat)
    requires
        n <= max,
    ensures
        read_digits(decimal(n), 0, max) == Ok::<nat, NumberError>(n),
    decreases n,
{
    reveal_with_fuel(read_digits, 2);
    if n < 10 {
        assert(decimal(n).drop_first() == Seq::<char>::empty());
        assert(digit_value(digit(n)) == n);
    } else {
        lemma_decimal_value(n / 10, max);
        assert(digit_value(digit(n % 10)) == n % 10);
        lemma_read_digits_push(decimal(n / 10), digit(n % 10), 0, max);
    }
}

} // verus!
