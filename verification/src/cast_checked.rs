//! Checked integer conversions of the `cast` crate.
use vstd::prelude::*;

verus! {

/// `cast::u16` applied to a `u32`: the same number when it fits in a `u16`,
/// and otherwise an error (`Overflow`), which comes back here as `None`.
#[verifier::external_body]
pub(crate) fn u16_from_u32(x: u32) -> (r: Option<u16>)
    ensures
        x <= u16::MAX ==> r == Some(x as u16),
        x > u16::MAX ==> r is None,
{
    cast::u16(x).ok()
}

/// `cast::u8` applied to a `u16`: the same number when it fits in a `u8`,
/// and otherwise an error (`Overflow`), which comes back here as `None`.
#[verifier::external_body]
pub(crate) fn u8_from_u16(x: u16) -> (r: Option<u8>)
    ensures
        x <= u8::MAX ==> r == Some(x as u8),
        x > u8::MAX ==> r is None,
{
    cast::u8(x).ok()
}

/// `cast::u32` applied to a `u16`, a promotion that always succeeds and keeps
/// the number.
#[verifier::external_body]
pub(crate) fn u32_from_u16(x: u16) -> (r: u32)
    ensures
        r == x,
{
    cast::u32(x)
}

} // verus!
