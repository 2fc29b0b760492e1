//! The colours of the chart's lines.

use vstd::prelude::*;
use rgb::RGB8;

verus! {

/// A pixel of the `rgb` crate: its three components are public fields.
#[verifier::external_type_specification]
#[verifier::reject_recursive_types(T)]
pub struct ExRgb<T>(rgb::Rgb<T>);

/// `Rgb::new` of the `rgb` crate puts its arguments into the fields `r`, `g`
/// and `b`, in this order.
pub assume_specification<T: Copy>[ rgb::Rgb::<T>::new ](r: T, g: T, b: T) -> (c: rgb::Rgb<T>)
    ensures
        c == (rgb::Rgb { r, g, b }),
;

/// The colour of the memory series under elevated pressure.
pub fn red() -> (c: RGB8)
    ensures
        c == (RGB8 { r: 0xFF, g: 0x00, b: 0x00 }),
{
    RGB8::new(0xFF, 0x00, 0x00)
}

/// The colour of the memory series under normal pressure.
pub fn green() -> (c: RGB8)
    ensures
        c == (RGB8 { r: 0x00, g: 0xFF, b: 0x00 }),
{
    RGB8::new(0x00, 0xFF, 0x00)
}

/// The colour of the disk-write series.
pub fn purple() -> (c: RGB8)
    ensures
        c == (RGB8 { r: 0xE0, g: 0x80, b: 0xFF }),
{
    RGB8::new(0xE0, 0x80, 0xFF)
}

/// The colour of the disk-read series.
pub fn blue() -> (c: RGB8)
    ensures
        c == (RGB8 { r: 0x00, g: 0x00, b: 0xFF }),
{
    RGB8::new(0x00, 0x00, 0xFF)
}

/// The colour of the CPU series.
pub fn orange() -> (c: RGB8)
    ensures
        c == (RGB8 { r: 0xFF, g: 0xA5, b: 0x00 }),
{
    RGB8::new(0xFF, 0xA5, 0x00)
}

/// The colour of a frame that nothing has been set in.
pub fn black() -> (c: RGB8)
    ensures
        c == (RGB8 { r: 0, g: 0, b: 0 }),
{
    RGB8::new(0, 0, 0)
}

} // verus!
