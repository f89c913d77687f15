//! The triangle primitive and its vertex format.

use vstd::prelude::*;
use crate::Engine;

verus! {

/// One vertex of a drawable primitive: a two-dimensional position whose
/// coordinates are IEEE-754 single-precision bit patterns.
#[derive(Clone, Copy, Debug, PartialEq, Eq)]
pub struct Vertex {
    /// Bit pattern of the horizontal coordinate.
    pub x_bits: u32,
    /// Bit pattern of the vertical coordinate.
    pub y_bits: u32,
}

/// A flat-colored triangle, the engine's only drawable primitive. It owns
/// the three vertices that the shell copies into its GPU vertex buffer.
#[derive(Clone, Copy, Debug, PartialEq, Eq)]
pub struct Triangle {
    vertices: [Vertex; 3],
}

impl View for Triangle {
    type V = Seq<Vertex>;

    /// A triangle is its vertex sequence, in draw order.
    closed spec fn view(&self) -> Seq<Vertex> {
        self.vertices@
    }
}

impl Triangle {
    /// Builds a triangle from its three vertices, kept in draw order.
    pub fn from_vertices(vertices: [Vertex; 3]) -> (t: Triangle)
        ensures
            t@ == vertices@,
    {
        Triangle { vertices }
    }

    /// The contents of the triangle's vertex buffer: its three vertices in
    /// draw order.
    pub fn vertex_buffer(&self) -> (v: [Vertex; 3])
        ensures
            v@ == self@,
    {
        self.vertices
    }
}

impl Engine {
    /// Appends a triangle with the given vertices to the list of
    /// renderables; everything already in the list stays as it was.
    pub fn new_triangle(&mut self, vertices: [Vertex; 3])
        ensures
            final(self).renderables@.len() == old(self).renderables@.len() + 1,
            final(self).renderables@.drop_last() == old(self).renderables@,
            final(self).renderables@.last()@ == vertices@,
    {
        self.renderables.push(Triangle::from_vertices(vertices));
        proof {
            assert(self.renderables@.drop_last() =~= old(self).renderables@);
        }
    }
}

} // verus!
