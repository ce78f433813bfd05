//! Trusted wrappers around two `std` functions that vstd gives no
//! specification to. Everything else in the crate is verified against these
//! contracts.

use vstd::prelude::*;

verus! {

/// Relies on `String::push`: appends exactly the given character to the end of
/// the string.
#[verifier::external_body]
pub(crate) fn push_char(s: &mut String, c: char)
    ensures
        final(s)@ == old(s)@.push(c),
{
    s.push(c)
}

/// Unicode scalar values: exactly what a `char` can hold.
pub open spec fn is_scalar_value(u: int) -> bool {
    (0 <= u < 0xD800) || (0xE000 <= u <= 0x10FFFF)
}

/// The character with scalar value `u`, for a Unicode scalar value `u`.
pub open spec fn char_of_scalar(u: int) -> char {
    choose|c: char| #[trigger] (c as u32) == u
}

/// Relies on `char::from_u32`: returns the one character with the given scalar
/// value exactly when the value is a Unicode scalar value, that is, below
/// `0xD800` or in `0xE000..=0x10FFFF`; returns `None` otherwise. Since a
/// scalar value identifies its character uniquely, the result is
/// [`char_of_scalar`] of the argument.
#[verifier::external_body]
pub(crate) fn char_from_u32(u: u32) -> (r: Option<char>)
    ensures
        is_scalar_value(u as int) <==> r is Some,
        r matches Some(c) ==> c as u32 == u && c == char_of_scalar(u as int),
{
    char::from_u32(u)
}

} // verus!
