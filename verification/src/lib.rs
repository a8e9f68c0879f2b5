//! Turns declarative 2D vector-path descriptions (fills and strokes) into
//! renderable triangle meshes, attached once per entity.
//!
//! The tessellation itself (triangulating a path's interior or outline) is
//! delegated to the `lyon_tessellation` geometry library; this crate drives
//! that library, adapts its output into an engine-ready mesh record, and
//! guards each entity so that it is tessellated at most once.

pub mod buffers;
pub mod entity;
pub mod mesh;
pub mod plugin;
pub mod tess;
pub mod vertex;
