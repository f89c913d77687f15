//! The drawable primitives: a two-dimensional vertex and the flat-colored
//! triangle built from three of them.
//!
//! Coordinates are stored as the IEEE-754 single-precision bit patterns of
//! the values the shaders receive, so the engine's state is plain integers;
//! the unverified shell turns them back into floating-point numbers when it
//! fills the GPU vertex buffer.

use vstd::prelude::*;
use crate::Engine;
use crate::primitives::triangle::Triangle;
use crate::primitives::triangle::Vertex;

pub mod triangle;

verus! {

/// Bit pattern of minus one half.
pub const NEG_HALF_BITS: u32 = 0xBF00_0000;
/// Bit pattern of minus one quarter.
pub const NEG_QUARTER_BITS: u32 = 0xBE80_0000;
/// Bit pattern of zero.
pub const ZERO_BITS: u32 = 0x0000_0000;
/// Bit pattern of one half.
pub const HALF_BITS: u32 = 0x3F00_0000;
/// Bit pattern of one quarter.
pub const QUARTER_BITS: u32 = 0x3E80_0000;
/// Bit pattern of minus one tenth.
pub const NEG_TENTH_BITS: u32 = 0xBDCC_CCCD;

/// The vertices of the built-in triangle that [`Engine::push_triangle`]
/// adds: (-1/2, -1/4), (0, 1/2), (1/4, -1/10).
pub open spec fn default_triangle_vertices() -> Seq<Vertex> {
    seq![
        Vertex { x_bits: NEG_HALF_BITS, y_bits: NEG_QUARTER_BITS },
        Vertex { x_bits: ZERO_BITS, y_bits: HALF_BITS },
        Vertex { x_bits: QUARTER_BITS, y_bits: NEG_TENTH_BITS },
    ]
}

impl Engine {
    /// Appends the engine's built-in triangle to the list of renderables;
    /// everything already in the list stays as it was.
    pub fn push_triangle(&mut self)
        ensures
            final(self).renderables@.len() == old(self).renderables@.len() + 1,
            final(self).renderables@.drop_last() == old(self).renderables@,
            final(self).renderables@.last()@ == default_triangle_vertices(),
    {
        self.renderables.push(Triangle::from_vertices([
            Vertex { x_bits: NEG_HALF_BITS, y_bits: NEG_QUARTER_BITS },
            Vertex { x_bits: ZERO_BITS, y_bits: HALF_BITS },
            Vertex { x_bits: QUARTER_BITS, y_bits: NEG_TENTH_BITS },
        ]));
        proof {
            assert(self.renderables@.drop_last() =~= old(self).renderables@);
            assert(self.renderables@.last()@ =~= default_triangle_vertices());
        }
    }
}

} // verus!
