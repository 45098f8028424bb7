//! Building display strings: appending characters and decimal numbers.

use vstd::prelude::*;

verus! {

/// Taken on trust of `String::push` of the standard library: it appends the
/// given character to the end of the string and leaves the characters before
/// it as they were.
pub assume_specification[ String::push ](s: &mut String, ch: char)
    ensures
        final(s)@ == old(s)@.push(ch),
;

/// The character that writes the decimal digit `d`.
pub open spec fn digit_char(d: nat) -> char
    recommends
        d < 10,
{
    ('0' as u8 + d) as char
}

/// The decimal notation of `n`, without sign, padding or leading zeros.
pub open spec fn decimal(n: nat) -> Seq<char>
    decreases n,
{
    if n < 10 {
        seq![digit_char(n)]
    } else {
        decimal(n / 10).push(digit_char(n % 10))
    }
}

/// `s` moved to the right edge of a field of `width` characters by spaces on
/// its left; a longer `s` is left as it is.
pub open spec fn pad_left(s: Seq<char>, width: nat) -> Seq<char> {
    if s.len() >= width {
        s
    } else {
        Seq::new((width - s.len()) as nat, |i: int| ' ') + s
    }
}

/// The character for one decimal digit.
fn digit(d: usize) -> (c: char)
    requires
        d < 10,
    ensures
        c == digit_char(d as nat),
{
    let b: u8 = 48u8 + d as u8;
    b as char
}

/// Appends the decimal notation of `n` to `s`.
pub fn push_decimal(s: &mut String, n: usize)
    ensures
        final(s)@ == old(s)@ + decimal(n as nat),
    decreases n,
{
    if n >= 10 {
        push_decimal(s, n / 10);
    }
    s.push(digit(n % 10));
}

/// Number of digits in the decimal notation of `n`.
pub fn decimal_width(n: usize) -> (width: usize)
    ensures
        width == decimal(n as nat).len(),
        width >= 1,
{
    let mut rest: usize = n;
    let mut width: usize = 1;
    while rest >= 10
        invariant
            width >= 1,
            width + rest <= n + 1,
            decimal(n as nat).len() == decimal(rest as nat).len() + width - 1,
        decreases rest,
    {
        rest = rest / 10;
        width += 1;
    }
    width
}

/// Appends the decimal notation of `n` to `s`, moved to the right edge of a
/// field of `width` characters.
pub fn push_padded_decimal(s: &mut String, n: usize, width: usize)
    ensures
        final(s)@ == old(s)@ + pad_left(decimal(n as nat), width as nat),
{
    let digits: usize = decimal_width(n);
    let mut filled: usize = digits;
    while filled < width
        invariant
            digits <= filled,
            digits < width ==> filled <= width,
            digits >= width ==> filled == digits,
            s@ == old(s)@ + Seq::new((filled - digits) as nat, |i: int| ' '),
        decreases width - filled,
    {
        s.push(' ');
        filled += 1;
        assert(s@ =~= old(s)@ + Seq::new((filled - digits) as nat, |i: int| ' '));
    }
    let ghost spaces = Seq::new((filled - digits) as nat, |i: int| ' ');
    push_decimal(s, n);
    assert(s@ == (old(s)@ + spaces) + decimal(n as nat));
    assert(spaces + decimal(n as nat) =~= pad_left(decimal(n as nat), width as nat));
    assert(s@ =~= old(s)@ + (spaces + decimal(n as nat)));
}

} // verus!
