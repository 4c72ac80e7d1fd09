//! Selection of a compiled pipeline by draw kind, blend mode and mask phase.
use vstd::prelude::*;
use crate::blend::BlendMode;
use crate::mask::MaskState;

verus! {

/// What a draw samples its colour from.
#[derive(Clone, Copy, Debug, PartialEq, Eq, Structural)]
pub enum DrawKind {
    Color,
    Gradient,
    Bitmap,
}

/// The three axes along which pipelines differ.
#[derive(Clone, Copy, Debug, PartialEq, Eq, Structural)]
pub struct PipelineKey {
    pub kind: DrawKind,
    pub blend: BlendMode,
    pub mask: MaskState,
}

/// Number of draw kinds.
pub const KIND_COUNT: usize = 3;

/// Number of blend modes.
pub const BLEND_COUNT: usize = 14;

/// Number of mask phases.
pub const MASK_COUNT: usize = 4;

/// Number of pipelines in a full table.
pub const PIPELINE_COUNT: usize = 168;

pub open spec fn kind_index(k: DrawKind) -> nat {
    match k {
        DrawKind::Color => 0,
        DrawKind::Gradient => 1,
        DrawKind::Bitmap => 2,
    }
}

pub open spec fn blend_index(b: BlendMode) -> nat {
    match b {
        BlendMode::Normal => 0,
        BlendMode::Layer => 1,
        BlendMode::Multiply => 2,
        BlendMode::Screen => 3,
        BlendMode::Lighten => 4,
        BlendMode::Darken => 5,
        BlendMode::Difference => 6,
        BlendMode::Add => 7,
        BlendMode::Subtract => 8,
        BlendMode::Invert => 9,
        BlendMode::Alpha => 10,
        BlendMode::Erase => 11,
        BlendMode::Overlay => 12,
        BlendMode::HardLight => 13,
    }
}

pub open spec fn mask_index(m: MaskState) -> nat {
    match m {
        MaskState::NoMask => 0,
        MaskState::DrawMaskStencil => 1,
        MaskState::DrawMaskedContent => 2,
        MaskState::ClearMaskStencil => 3,
    }
}

/// Position of `key` in a dense table laid out kind-major, then by blend
/// mode, then by mask phase.
pub open spec fn key_index(key: PipelineKey) -> nat {
    (kind_index(key.kind) * 14 + blend_index(key.blend)) * 4 + mask_index(key.mask)
}

/// Distinct keys have distinct positions, all inside the table.
pub proof fn lemma_key_index_injective(a: PipelineKey, b: PipelineKey)
    ensures
        key_index(a) < PIPELINE_COUNT,
        key_index(a) == key_index(b) ==> a == b,
{
}

/// Position of `key` in the dense table.
pub fn pipeline_index(key: PipelineKey) -> (r: usize)
    ensures
        r == key_index(key),
        r < PIPELINE_COUNT,
{
    let k: usize = match key.kind {
        DrawKind::Color => 0,
        DrawKind::Gradient => 1,
        DrawKind::Bitmap => 2,
    };
    let b: usize = match key.blend {
        BlendMode::Normal => 0,
        BlendMode::Layer => 1,
        BlendMode::Multiply => 2,
        BlendMode::Screen => 3,
        BlendMode::Lighten => 4,
        BlendMode::Darken => 5,
        BlendMode::Difference => 6,
        BlendMode::Add => 7,
        BlendMode::Subtract => 8,
        BlendMode::Invert => 9,
        BlendMode::Alpha => 10,
        BlendMode::Erase => 11,
        BlendMode::Overlay => 12,
        BlendMode::HardLight => 13,
    };
    let m: usize = match key.mask {
        MaskState::NoMask => 0,
        MaskState::DrawMaskStencil => 1,
        MaskState::DrawMaskedContent => 2,
        MaskState::ClearMaskStencil => 3,
    };
    (k * BLEND_COUNT + b) * MASK_COUNT + m
}

/// A precomputed pipeline for every key, held densely.
pub struct PipelineTable<P> {
    entries: Vec<P>,
}

impl<P> PipelineTable<P> {
    pub closed spec fn entries(&self) -> Seq<P> {
        self.entries@
    }

    /// A table built from one entry per key, in `key_index` order; `None`
    /// where the number of entries is not that of a full table.
    pub fn from_entries(entries: Vec<P>) -> (r: Option<PipelineTable<P>>)
        ensures
            r.is_some() <==> entries@.len() == PIPELINE_COUNT,
            r.is_some() ==> r.unwrap().entries() == entries@,
    {
        if entries.len() == PIPELINE_COUNT {
            Some(PipelineTable { entries })
        } else {
            None
        }
    }

    /// The pipeline compiled for `key`.
    pub fn pipeline_for(&self, key: PipelineKey) -> (r: &P)
        requires
            self.entries().len() == PIPELINE_COUNT,
        ensures
            *r == self.entries()[key_index(key) as int],
    {
        let i = pipeline_index(key);
        &self.entries[i]
    }
}

} // verus!
