//! The seek-value grammar shared by the `:seek` command and the command-line client: `90` (a
//! second of the track), `+15` / `-30` (seconds from the position), `50%` (a share of the track).
//! The number itself is read by the caller; this decides its shape and the message a bad value
//! gets.
use vstd::prelude::*;
use crate::text::{append, chars_of, owned, string_of_range};

verus! {

/// What a seek value asks for.
#[derive(Debug, Clone, Copy, PartialEq, Eq, Structural)]
pub enum SeekShape {
    /// A second of the track.
    Absolute,
    /// Seconds relative to the position.
    Relative,
    /// A percentage of the track.
    Fraction,
}

/// The shape of `value`, and the text whose number it is: a trailing `%` is a percentage of what
/// precedes it, a leading `+` or `-` a relative number, anything else an absolute one.
pub open spec fn spec_seek_shape(value: Seq<char>) -> (SeekShape, Seq<char>) {
    if value.len() > 0 && value.last() == '%' {
        (SeekShape::Fraction, value.drop_last())
    } else if value.len() > 0 && (value[0] == '+' || value[0] == '-') {
        (SeekShape::Relative, value)
    } else {
        (SeekShape::Absolute, value)
    }
}

/// Settle the shape of a seek value and the text the number is read from.
pub fn seek_shape(value: &str) -> (r: (SeekShape, String))
    ensures
        (r.0, r.1@) == spec_seek_shape(value@),
{
    let chars = chars_of(value);
    let n = chars.len();
    if n > 0 && chars[n - 1] == '%' {
        let body = string_of_range(&chars, 0, n - 1);
        proof { assert(body@ =~= value@.drop_last()); }
        (SeekShape::Fraction, body)
    } else if n > 0 && (chars[0] == '+' || chars[0] == '-') {
        (SeekShape::Relative, owned(value))
    } else {
        (SeekShape::Absolute, owned(value))
    }
}

/// Every seek value has exactly one shape: a trailing `%` makes it a share of the track, read
/// from what precedes the `%`; otherwise a leading `+` or `-` makes it seconds from the position,
/// whatever its length; anything else is a second of the track. The number is read from the
/// value itself in the last two cases.
pub proof fn every_value_has_its_shape(value: Seq<char>)
    ensures
        value.len() > 0 && value.last() == '%' ==> spec_seek_shape(value) == (SeekShape::Fraction, value.drop_last()),
        value.len() > 0 && value.last() != '%' && (value[0] == '+' || value[0] == '-')
            ==> spec_seek_shape(value) == (SeekShape::Relative, value),
        (value.len() == 0 || (value.last() != '%' && value[0] != '+' && value[0] != '-'))
            ==> spec_seek_shape(value) == (SeekShape::Absolute, value),
{
}

/// The message `:seek` shows for a value that is not a position; it names the value.
pub fn seek_error(value: &str) -> (r: String)
    ensures
        r@ == "无效的跳转位置: "@ + value@,
{
    let mut out = owned("无效的跳转位置: ");
    append(&mut out, value);
    out
}

} // verus!
