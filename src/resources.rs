//! Read-only resources a frame draws from: tessellated meshes and the
//! registry of resident bitmaps.
use vstd::prelude::*;
use fnv::{FnvHashMap, FnvHasher};
use std::hash::BuildHasherDefault;
use crate::pipeline::DrawKind;

verus! {

/// `fnv::FnvHasher`, the hasher of the bitmap registry; carried, never read.
#[verifier::external_type_specification]
#[verifier::external_body]
pub struct ExFnvHasher(FnvHasher);

/// `std::hash::BuildHasherDefault`, which builds the registry's hashers;
/// carried, never read.
#[verifier::external_type_specification]
#[verifier::external_body]
#[verifier::reject_recursive_types(H)]
pub struct ExBuildHasherDefault<H>(BuildHasherDefault<H>);

/// How a sub-draw of a mesh is filled.
#[derive(Clone, Copy, Debug, PartialEq, Eq, Structural)]
pub enum DrawType {
    Color,
    Gradient,
    Bitmap { is_repeating: bool, is_smoothed: bool },
}

/// One homogeneous-material part of a tessellated shape.
#[derive(Clone, Copy, Debug, PartialEq, Eq, Structural)]
pub struct MeshDraw {
    pub draw_type: DrawType,
    /// Indices drawn normally.
    pub num_indices: u32,
    /// Indices drawn while building or clearing a mask: the fills only.
    pub num_mask_indices: u32,
}

/// A tessellated shape.
#[derive(Clone, Debug)]
pub struct Mesh {
    pub draws: Vec<MeshDraw>,
}

/// A resident bitmap's pixel size.
#[derive(Clone, Copy, Debug, PartialEq, Eq, Structural)]
pub struct Texture {
    pub width: u32,
    pub height: u32,
}

/// Bitmap handle to resident texture.
pub type BitmapRegistry = FnvHashMap<usize, Texture>;

/// The pipeline family a fill draws with.
pub open spec fn kind_of(t: DrawType) -> DrawKind {
    match t {
        DrawType::Color => DrawKind::Color,
        DrawType::Gradient => DrawKind::Gradient,
        DrawType::Bitmap { .. } => DrawKind::Bitmap,
    }
}

/// The pipeline family a fill draws with.
pub fn draw_kind(t: DrawType) -> (r: DrawKind)
    ensures
        r == kind_of(t),
{
    match t {
        DrawType::Color => DrawKind::Color,
        DrawType::Gradient => DrawKind::Gradient,
        DrawType::Bitmap { .. } => DrawKind::Bitmap,
    }
}

/// The texture registered under `bitmap`, if any.
pub open spec fn lookup(bitmaps: Map<usize, Texture>, bitmap: usize) -> Option<Texture> {
    if bitmaps.contains_key(bitmap) {
        Some(bitmaps[bitmap])
    } else {
        None
    }
}

/// Relies on `fnv::FnvHashMap`, a std `HashMap` with the deterministic FNV
/// hasher: `get` finds the value stored under an integer key, if there is one.
#[verifier::external_body]
pub(crate) fn registry_get(bitmaps: &BitmapRegistry, bitmap: usize) -> (r: Option<Texture>)
    ensures
        r == lookup(bitmaps@, bitmap),
{
    bitmaps.get(&bitmap).copied()
}

} // verus!
