//! Renderings of a whole number.

use vstd::prelude::*;
use vstd::string::*;
use crate::text::{decimal, push_char, push_decimal};

verus! {

/// The decimal numeral of an integer: a minus sign in front of the numeral of
/// its magnitude where it is negative, the plain numeral otherwise.
pub open spec fn signed_decimal(value: int) -> Seq<char> {
    if value < 0 {
        seq!['-'] + decimal((-value) as nat)
    } else {
        decimal(value as nat)
    }
}

/// Appends the decimal numeral of `value` to a string.
pub fn push_signed_decimal(out: &mut String, value: i32)
    ensures
        final(out)@ == old(out)@ + signed_decimal(value as int),
{
    let wide: i64 = value as i64;
    if wide < 0 {
        push_char(out, '-');
        let magnitude: usize = (0 - wide) as usize;
        push_decimal(out, magnitude);
        assert(out@ == old(out)@ + (seq!['-'] + decimal((-value) as nat)));
    } else {
        push_decimal(out, wide as usize);
    }
}

/// The text that writes a number as a call of its constructor.
pub fn number_repr(value: i32) -> (text: String)
    ensures
        text@ == "Number("@ + signed_decimal(value as int) + ")"@,
{
    let mut text = String::from_str("Number(");
    push_signed_decimal(&mut text, value);
    text.append(")");
    text
}

/// The plain decimal text of a number.
pub fn number_str(value: i32) -> (text: String)
    ensures
        text@ == signed_decimal(value as int),
{
    let mut text = String::new();
    push_signed_decimal(&mut text, value);
    text
}

} // verus!
