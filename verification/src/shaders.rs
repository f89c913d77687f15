//! The engine's shader dictionary: one fixed pair of GLSL sources compiled
//! at build time. There is no runtime shader loading path, so the library
//! only names the two shaders and what is known of each: its pipeline stage
//! and the source file it is compiled from.

use vstd::prelude::*;

verus! {

/// The pipeline stage a shader runs in.
#[derive(Clone, Copy, Debug, PartialEq, Eq)]
pub enum ShaderKind {
    /// Runs once per vertex.
    Vertex,
    /// Runs once per fragment.
    Fragment,
}

/// One of the engine's built-in shaders.
#[derive(Clone, Copy, Debug, PartialEq, Eq)]
pub enum ShaderId {
    /// The vertex shader of the flat-colored triangle pipeline.
    BasicTriangleVert,
    /// The fragment shader of the flat-colored triangle pipeline.
    BasicTriangleFrag,
}

impl ShaderId {
    /// The pipeline stage this shader runs in.
    pub fn kind(&self) -> (k: ShaderKind)
        ensures
            *self is BasicTriangleVert ==> k is Vertex,
            *self is BasicTriangleFrag ==> k is Fragment,
    {
        match self {
            ShaderId::BasicTriangleVert => ShaderKind::Vertex,
            ShaderId::BasicTriangleFrag => ShaderKind::Fragment,
        }
    }

    /// The GLSL source file this shader is compiled from at build time,
    /// relative to the project root.
    pub fn source_path(&self) -> (p: String)
        ensures
            *self is BasicTriangleVert ==> p@ == "shaders/basic_triangle.vert"@,
            *self is BasicTriangleFrag ==> p@ == "shaders/basic_triangle.frag"@,
    {
        match self {
            ShaderId::BasicTriangleVert => String::from_str("shaders/basic_triangle.vert"),
            ShaderId::BasicTriangleFrag => String::from_str("shaders/basic_triangle.frag"),
        }
    }
}

} // verus!
