//! Vertex data and tint arithmetic.
//!
//! Positions and texture coordinates come from the pose provider and pass
//! through this core untouched; they are carried as opaque 32-bit scalar
//! codes. Tints are computed here, so their components are plain numbers:
//! fixed-point fractions of one, where `UNIT_ONE` stands for 1.

use vstd::prelude::*;

verus! {

/// The fixed-point representation of the scalar 1 for tint components.
pub const UNIT_ONE: u16 = 65535;

/// An RGBA colour multiplier. Each component is a fixed-point fraction of
/// one: `UNIT_ONE` is full intensity, 0 is none.
#[derive(Clone, Copy, Debug, PartialEq, Eq, Structural)]
pub struct Tint {
    pub r: u16,
    pub g: u16,
    pub b: u16,
    pub a: u16,
}

/// One GPU-ready vertex: a world-space position, a texture coordinate
/// (both opaque scalar codes from the pose provider), and a tint.
#[derive(Clone, Copy, Debug, PartialEq, Eq)]
pub struct Vertex {
    pub position: (u32, u32),
    pub tex_coords: (u32, u32),
    pub tint: Tint,
}

/// The product of two fixed-point fractions of one, rounded down.
pub open spec fn unit_mul_spec(a: u16, b: u16) -> int {
    (a * b) / (UNIT_ONE as int)
}

/// Multiply two fixed-point fractions of one.
pub fn unit_mul(a: u16, b: u16) -> (r: u16)
    ensures
        r == unit_mul_spec(a, b),
{
    proof {
        assert((a * b) / (UNIT_ONE as int) <= UNIT_ONE) by (nonlinear_arith)
            requires
                a <= 65535,
                b <= 65535,
        ;
    }
    ((a as u32 * b as u32) / (UNIT_ONE as u32)) as u16
}

/// The tint a vertex receives: RGB components are the componentwise product
/// of the skeleton tint and the slot tint; the alpha component additionally
/// multiplies by the global opacity.
pub open spec fn compose_tint_spec(skeleton: Tint, slot: Tint, opacity: u16) -> Tint {
    Tint {
        r: unit_mul_spec(skeleton.r, slot.r) as u16,
        g: unit_mul_spec(skeleton.g, slot.g) as u16,
        b: unit_mul_spec(skeleton.b, slot.b) as u16,
        a: unit_mul_spec(unit_mul_spec(skeleton.a, slot.a) as u16, opacity) as u16,
    }
}

/// Compose the per-vertex tint from the skeleton tint, the slot tint and
/// the global opacity.
pub fn compose_tint(skeleton: &Tint, slot: &Tint, opacity: u16) -> (r: Tint)
    ensures
        r == compose_tint_spec(*skeleton, *slot, opacity),
        r.r == unit_mul_spec(skeleton.r, slot.r),
        r.g == unit_mul_spec(skeleton.g, slot.g),
        r.b == unit_mul_spec(skeleton.b, slot.b),
        r.a == unit_mul_spec(unit_mul_spec(skeleton.a, slot.a) as u16, opacity),
{
    Tint {
        r: unit_mul(skeleton.r, slot.r),
        g: unit_mul(skeleton.g, slot.g),
        b: unit_mul(skeleton.b, slot.b),
        a: unit_mul(unit_mul(skeleton.a, slot.a), opacity),
    }
}

/// The opacity fraction that a percentage from 0 to 100 stands for.
pub open spec fn opacity_unit_spec(percent: u8) -> int {
    (percent * (UNIT_ONE as int)) / 100
}

/// Convert an opacity percentage (0 to 100) into a fixed-point fraction
/// of one.
pub fn opacity_unit(percent: u8) -> (r: u16)
    requires
        percent <= 100,
    ensures
        r == opacity_unit_spec(percent),
        percent == 100 ==> r == UNIT_ONE,
{
    proof {
        assert((percent * (UNIT_ONE as int)) / 100 <= UNIT_ONE) by (nonlinear_arith)
            requires
                percent <= 100,
        ;
    }
    ((percent as u32 * UNIT_ONE as u32) / 100) as u16
}

impl Tint {
    /// A tint that leaves every channel unchanged.
    pub fn opaque_white() -> (r: Tint)
        ensures
            r.r == UNIT_ONE && r.g == UNIT_ONE && r.b == UNIT_ONE && r.a == UNIT_ONE,
    {
        Tint { r: UNIT_ONE, g: UNIT_ONE, b: UNIT_ONE, a: UNIT_ONE }
    }
}

impl Vertex {
    /// The all-zero vertex used to pad buffers up to their alignment.
    pub fn zeroed() -> (r: Vertex)
        ensures
            r == Vertex::zero_spec(),
    {
        Vertex { position: (0, 0), tex_coords: (0, 0), tint: Tint { r: 0, g: 0, b: 0, a: 0 } }
    }

    /// The all-zero vertex.
    pub open spec fn zero_spec() -> Vertex {
        Vertex { position: (0, 0), tex_coords: (0, 0), tint: Tint { r: 0, g: 0, b: 0, a: 0 } }
    }
}

} // verus!
