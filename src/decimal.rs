//! Unsigned decimal text, as bytes.

use vstd::prelude::*;

verus! {

/// The ASCII code of the digit `0`.
pub const ZERO_DIGIT: u8 = 48;

/// Decimal digits of `n`, most significant first, with no sign, padding or
/// leading zeros (zero itself is the single digit `0`).
pub open spec fn decimal_of(n: nat) -> Seq<u8>
    decreases n,
{
    if n < 10 {
        seq![(n + ZERO_DIGIT) as u8]
    } else {
        decimal_of(n / 10).push(((n % 10) + ZERO_DIGIT) as u8)
    }
}

/// Whether `b` is the ASCII code of a decimal digit.
pub open spec fn is_digit(b: u8) -> bool {
    ZERO_DIGIT <= b && b < ZERO_DIGIT + 10
}

/// Decimal text is never empty and holds digits only.
pub proof fn lemma_decimal_digits(n: nat)
    ensures
        decimal_of(n).len() >= 1,
        forall|i: int| 0 <= i < decimal_of(n).len() ==> is_digit(#[trigger] decimal_of(n)[i]),
    decreases n,
{
    if n >= 10 {
        lemma_decimal_digits(n / 10);
    }
}

/// Relies on ufmt's `uDisplay` impl for `u32`, written into a `String` through
/// ufmt's `uWrite` impl for `String`: the decimal digits of `n`, most
/// significant first, with no sign or padding.
#[verifier::external_body]
fn ufmt_decimal(n: u32) -> (r: Vec<u8>)
    ensures
        r@ == decimal_of(n as nat),
{
    let mut s = String::new();
    let _ = ufmt::uDisplay::fmt(&n, &mut ufmt::Formatter::new(&mut s));
    s.into_bytes()
}

/// Carriage return, the byte written right after a line's text.
pub const CR: u8 = 13;

/// Line feed, the terminator that ends every line.
pub const LF: u8 = 10;

/// `text` as one line on the wire: the text, a carriage return, a line feed.
pub open spec fn line_of(text: Seq<u8>) -> Seq<u8> {
    text + seq![CR, LF]
}

/// The line that reports the counter value `n`.
pub open spec fn number_line(n: nat) -> Seq<u8> {
    line_of(decimal_of(n))
}

/// Builds the line that reports `n`: its decimal digits, then `\r\n`.
pub fn decimal_line(n: u32) -> (r: Vec<u8>)
    ensures
        r@ == number_line(n as nat),
{
    let mut r = ufmt_decimal(n);
    r.push(CR);
    r.push(LF);
    r
}

} // verus!
