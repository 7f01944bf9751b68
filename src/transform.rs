use vstd::prelude::*;

verus! {

/// Three single-precision floats, each held as its IEEE-754 bit pattern.
///
/// The library only moves these words around; all floating-point arithmetic on
/// them happens in the caller.
#[derive(Clone, Copy, Debug, PartialEq, Eq, Structural)]
pub struct Vec3Bits {
    pub x: u32,
    pub y: u32,
    pub z: u32,
}

impl Vec3Bits {
    pub fn new(x: u32, y: u32, z: u32) -> (r: Vec3Bits)
        ensures
            r.x == x,
            r.y == y,
            r.z == z,
    {
        Vec3Bits { x, y, z }
    }
}

/// A local affine transform: position, non-uniform scale and Euler rotation in
/// degrees, each component an `f32` bit pattern.
///
/// Scale components are meant to be strictly positive: the model matrix built
/// from a transform divides by them.
#[derive(Clone, Copy, Debug, PartialEq, Eq, Structural)]
pub struct Transform {
    pub position: Vec3Bits,
    pub scale: Vec3Bits,
    pub rotation: Vec3Bits,
}

impl Transform {
    pub fn new(position: Vec3Bits, scale: Vec3Bits, rotation: Vec3Bits) -> (r: Transform)
        ensures
            r.position == position,
            r.scale == scale,
            r.rotation == rotation,
    {
        Transform { position, scale, rotation }
    }

    /// An independent copy with the same fields.
    pub fn clone(&self) -> (r: Transform)
        ensures
            r == *self,
    {
        Transform { position: self.position, scale: self.scale, rotation: self.rotation }
    }
}

} // verus!
