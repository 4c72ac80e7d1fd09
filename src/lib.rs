//! Per-frame command engine of a 2D renderer: nested stencil masks, a stack of
//! blend modes, pipeline selection and the ordered GPU work each drawing
//! command records.

pub mod blend;
pub mod frame;
pub mod mask;
pub mod ops;
pub mod pipeline;
pub mod resources;
