//! The per-entity bundle the dispatch pass works on: a path, a tessellation
//! mode, and the mutable mesh-handle, visibility and processed fields.

use vstd::prelude::*;

verus! {

/// The two tessellation engines an entity can be routed to.
#[derive(Debug, Clone, Copy, PartialEq, Eq, Structural)]
pub enum EngineKind {
    Fill,
    Stroke,
}

/// How an entity's path is to be tessellated: as a filled interior or as a
/// stroked outline.  The options are opaque style parameters handed to the
/// geometry library unmodified.
#[derive(Debug)]
pub enum TessellationMode {
    Fill(lyon_tessellation::FillOptions),
    Stroke(lyon_tessellation::StrokeOptions),
}

/// The engine a mode routes to: fill modes to the fill engine, stroke modes
/// to the stroke engine.
pub open spec fn mode_engine(m: TessellationMode) -> EngineKind {
    match m {
        TessellationMode::Fill(_) => EngineKind::Fill,
        TessellationMode::Stroke(_) => EngineKind::Stroke,
    }
}

/// One shape entity: its immutable path and mode, and the three fields the
/// pass completes — the handle of its mesh in the store, its visibility, and
/// the processed flag guarding against duplicate tessellation.
#[derive(Debug)]
pub struct ShapeEntity {
    pub mode: TessellationMode,
    pub path: lyon_tessellation::path::Path,
    pub mesh: Option<usize>,
    pub visible: bool,
    pub processed: bool,
}

impl ShapeEntity {
    /// A freshly spawned entity: no mesh yet, hidden, unprocessed.
    pub fn new(mode: TessellationMode, path: lyon_tessellation::path::Path) -> (e: ShapeEntity)
        ensures
            e.mode == mode,
            e.path == path,
            e.mesh == Option::<usize>::None,
            !e.visible,
            !e.processed,
    {
        ShapeEntity { mode, path, mesh: None, visible: false, processed: false }
    }
}

} // verus!
