//! The GPU work a frame records, in the order it is to be issued.
use vstd::prelude::*;
use crate::pipeline::PipelineKey;

verus! {

/// A colour with 8-bit channels.
#[derive(Clone, Copy, Debug, PartialEq, Eq, Structural)]
pub struct Color {
    pub r: u8,
    pub g: u8,
    pub b: u8,
    pub a: u8,
}

/// The per-draw data of binding slot 1: a world matrix and a colour
/// adjustment (a multiplicative and an additive colour), described by where
/// they come from. `X` is the caller's transform.
#[derive(Clone, Debug, PartialEq, Eq)]
pub enum Uniform<X> {
    /// World matrix and colour adjustment both taken from the transform.
    Transform(X),
    /// The unit quad scaled to `width` by `height` pixels, then the
    /// transform; colour adjustment from the transform.
    ScaledTransform { transform: X, width: u32, height: u32 },
    /// World matrix from `matrix`; multiplicative colour each channel of
    /// `color` divided by 255, additive colour zero.
    FlatColor { matrix: X, color: Color },
    /// The unit quad scaled to `width` by `height`; multiplicative colour
    /// one and additive colour zero.
    Viewport { width: u32, height: u32 },
}

/// Vertex and index data a draw reads.
#[derive(Clone, Copy, Debug, PartialEq, Eq, Structural)]
pub enum Geometry {
    /// The shared unit quad.
    Quad,
    /// Sub-draw `draw` of the mesh of shape `shape`.
    MeshDraw { shape: usize, draw: usize },
}

/// What binding slot 2 holds for a draw.
#[derive(Clone, Copy, Debug, PartialEq, Eq, Structural)]
pub enum Material {
    /// The texture registered under this bitmap handle.
    Bitmap(usize),
    /// The gradient or bitmap fill of a mesh's sub-draw.
    MeshDraw { shape: usize, draw: usize },
    /// The finished frame, read by the colour-space copy.
    CopySource,
}

/// One step of a render pass.
#[derive(Clone, Debug, PartialEq, Eq)]
pub enum RenderOp<X> {
    SetPipeline(PipelineKey),
    /// The pipeline of the colour-space copy.
    SetCopyPipeline,
    /// Frame-global state into slot 0.
    BindGlobals,
    /// Per-draw uniforms, written and bound to slot 1.
    WriteUniforms(Uniform<X>),
    /// Material into slot 2.
    BindMaterial(Material),
    /// Sampler configuration into slot 3.
    BindSampler { repeating: bool, smoothed: bool },
    SetVertexBuffer(Geometry),
    SetIndexBuffer(Geometry),
    SetStencilReference(u32),
    /// An indexed draw of the first `count` indices.
    DrawIndexed(u32),
}

/// Number of indices of the unit quad.
pub const QUAD_INDICES: u32 = 6;

} // verus!
