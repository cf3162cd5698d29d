use vstd::prelude::*;

verus! {

/// Three components of the rendering layer's vector type, each carried as
/// the raw bit pattern of its 64-bit value.  The core stores, compares and
/// returns these triples without interpreting them; the rendering layer
/// encodes its scalars on the way in and decodes them on the way out, so a
/// round trip through the core is exact.
#[derive(Clone, Copy, PartialEq, Eq, Structural, Debug)]
pub struct Vec3Bits {
    pub x: u64,
    pub y: u64,
    pub z: u64,
}

/// The same triple read as a color: red, green and blue channels.
pub type ColorBits = Vec3Bits;

impl Vec3Bits {
    pub fn new(x: u64, y: u64, z: u64) -> (r: Vec3Bits)
        ensures
            r == (Vec3Bits { x, y, z }),
    {
        Vec3Bits { x, y, z }
    }
}

} // verus!
