use vstd::prelude::*;

verus! {

/// The character of a decimal digit.
pub open spec fn digit_char(d: nat) -> char {
    if d == 0 { '0' }
    else if d == 1 { '1' }
    else if d == 2 { '2' }
    else if d == 3 { '3' }
    else if d == 4 { '4' }
    else if d == 5 { '5' }
    else if d == 6 { '6' }
    else if d == 7 { '7' }
    else if d == 8 { '8' }
    else { '9' }
}

/// The decimal digits of a natural number, most significant first, with no leading zero.
pub open spec fn decimal_digits(n: nat) -> Seq<char>
    decreases n,
{
    if n < 10 {
        seq![digit_char(n)]
    } else {
        decimal_digits(n / 10).push(digit_char(n % 10))
    }
}

/// What `{}` writes for an integer: a minus sign for negative values, then the digits.
pub open spec fn decimal(i: int) -> Seq<char> {
    if i < 0 {
        seq!['-'] + decimal_digits((-i) as nat)
    } else {
        decimal_digits(i as nat)
    }
}

/// What `{:02}` writes for an integer: the decimal text, left-padded with
/// zeros (after the sign) to at least two characters.
pub open spec fn decimal_pad2(i: int) -> Seq<char> {
    if 0 <= i < 10 {
        seq!['0', digit_char(i as nat)]
    } else {
        decimal(i)
    }
}

/// Appends one character (`String::push`).
#[verifier::external_body]
pub(crate) fn push_char(s: &mut String, c: char)
    ensures
        final(s)@ == old(s)@.push(c),
{
    s.push(c);
}

fn digit_to_char(d: u64) -> (c: char)
    requires
        d < 10,
    ensures
        c == digit_char(d as nat),
{
    if d == 0 { '0' }
    else if d == 1 { '1' }
    else if d == 2 { '2' }
    else if d == 3 { '3' }
    else if d == 4 { '4' }
    else if d == 5 { '5' }
    else if d == 6 { '6' }
    else if d == 7 { '7' }
    else if d == 8 { '8' }
    else { '9' }
}

/// Appends the decimal digits of `n`.
pub fn append_decimal_u64(s: &mut String, n: u64)
    ensures
        final(s)@ == old(s)@ + decimal_digits(n as nat),
    decreases n,
{
    if n < 10 {
        push_char(s, digit_to_char(n));
        assert(decimal_digits(n as nat) == seq![digit_char(n as nat)]);
    } else {
        append_decimal_u64(s, n / 10);
        push_char(s, digit_to_char(n % 10));
        assert(decimal_digits(n as nat) == decimal_digits((n / 10) as nat).push(digit_char((n % 10) as nat)));
    }
}

/// Appends the decimal text of `i`, as `{}` writes it.
pub fn append_decimal_i64(s: &mut String, i: i64)
    ensures
        final(s)@ == old(s)@ + decimal(i as int),
{
    if i < 0 {
        push_char(s, '-');
        let magnitude: u64 = (-(i as i128)) as u64;
        append_decimal_u64(s, magnitude);
    } else {
        append_decimal_u64(s, i as u64);
    }
}

/// Appends the text `{:02}` writes for `i`.
pub fn append_decimal_pad2(s: &mut String, i: i64)
    ensures
        final(s)@ == old(s)@ + decimal_pad2(i as int),
{
    if 0 <= i && i < 10 {
        push_char(s, '0');
        push_char(s, digit_to_char(i as u64));
        assert(decimal_pad2(i as int) == seq!['0', digit_char(i as nat)]);
    } else {
        append_decimal_i64(s, i);
    }
}

/// The decimal text of `i`, as `i.to_string()` gives it.
pub fn i64_to_decimal(i: i64) -> (s: String)
    ensures
        s@ == decimal(i as int),
{
    let mut s = String::new();
    append_decimal_i64(&mut s, i);
    assert(s@ =~= decimal(i as int));
    s
}

} // verus!
