//! The trusted boundary to the `lyon_tessellation` geometry library.
//!
//! The triangulation math itself is delegated to lyon; this module declares
//! the library types the pipeline carries around (paths, options, engines)
//! and wraps the two tessellation entry points.  Each wrapper feeds lyon a
//! buffer builder whose vertex constructor is the verified construction rule
//! from [`crate::vertex`], so every vertex of the returned buffers obeys that
//! rule, and lyon's builder protocol (vertex ids handed out by the builder,
//! indices pushed three at a time) gives index validity.
//!
//! The library promises that its verified functions do not panic, and the
//! paths and options it carries are opaque, so each wrapper also refuses, as
//! an error, the one option combination of its engine on which lyon itself
//! is not panic-safe; see [`FailureCause`] and the wrappers' doc comments.

use crate::buffers::{buffers_wf, VertexBuffers};
use crate::vertex::VertexConstructor;
use vstd::prelude::*;

verus! {

#[verifier::external_type_specification]
#[verifier::external_body]
pub struct ExPath(lyon_tessellation::path::Path);

#[verifier::external_type_specification]
#[verifier::external_body]
pub struct ExFillOptions(lyon_tessellation::FillOptions);

#[verifier::external_type_specification]
#[verifier::external_body]
pub struct ExStrokeOptions(lyon_tessellation::StrokeOptions);

#[verifier::external_type_specification]
#[verifier::external_body]
pub struct ExFillTessellator(lyon_tessellation::FillTessellator);

#[verifier::external_type_specification]
#[verifier::external_body]
pub struct ExStrokeTessellator(lyon_tessellation::StrokeTessellator);

#[verifier::external_type_specification]
#[verifier::external_body]
pub struct ExTessellationError(lyon_tessellation::TessellationError);

/// Whether filling this path with these options succeeds at the boundary:
/// the boundary accepts the options (intersection handling on) and lyon's
/// fill tessellation of the path returns `Ok`.  Each call resets the
/// engine's scratch state before working, so the result is a function of the
/// path and the options alone, and [`tessellate_fill`] returns `Ok` exactly
/// when this holds.
pub uninterp spec fn fill_succeeds(
    path: lyon_tessellation::path::Path,
    options: lyon_tessellation::FillOptions,
) -> bool;

/// Whether stroking this path with these options succeeds at the boundary:
/// the boundary accepts the options (any variable-width attribute index lies
/// inside the path's attribute range) and lyon's stroke tessellation of the
/// path returns `Ok`.  As with the fill name, the result is a function of
/// the path and the options alone, and [`tessellate_stroke`] returns `Ok`
/// exactly when this holds.
pub uninterp spec fn stroke_succeeds(
    path: lyon_tessellation::path::Path,
    options: lyon_tessellation::StrokeOptions,
) -> bool;

/// Relies on lyon_tessellation::FillTessellator::new: a fresh fill engine.
#[verifier::external_body]
pub(crate) fn new_fill_tessellator() -> lyon_tessellation::FillTessellator {
    lyon_tessellation::FillTessellator::new()
}

/// Relies on lyon_tessellation::StrokeTessellator::new: a fresh stroke
/// engine.
#[verifier::external_body]
pub(crate) fn new_stroke_tessellator() -> lyon_tessellation::StrokeTessellator {
    lyon_tessellation::StrokeTessellator::new()
}

/// Why a tessellation call failed: either the geometry library signalled an
/// error, or the boundary refused an option combination on which the library
/// is not panic-safe (see the wrappers' doc comments).
#[derive(Debug)]
pub enum FailureCause {
    /// The geometry library itself returned an error (a NaN tolerance or
    /// position, too many vertices, or an internal failure).
    Library(lyon_tessellation::TessellationError),
    /// The fill options disable intersection handling.  On a path that does
    /// self-intersect, lyon's fill tessellator documents that it may then
    /// panic or produce incorrect geometry, and whether a path
    /// self-intersects cannot be checked here, so the boundary refuses the
    /// option outright.
    IntersectionHandlingDisabled,
    /// The stroke options name a variable-line-width attribute index that
    /// the path does not carry; lyon's stroke tessellator would panic
    /// indexing the attribute slice.
    VariableWidthOutOfRange,
}

/// Relies on lyon_tessellation::FillTessellator::tessellate_path, driven
/// through a BuffersBuilder over a fresh buffer pair: on success the builder
/// has pushed indices only in triples (one per triangle) and only with the
/// vertex ids it handed out, so the buffers are well formed; every vertex
/// came out of the verified construction rule passed as the vertex
/// constructor.
///
/// Boundary check (itself part of the trusted body): options with
/// `handle_intersections` disabled are refused before the call
/// (`FailureCause::IntersectionHandlingDisabled`), because with that flag
/// off lyon's fill tessellator is not panic-safe on self-intersecting
/// paths, and the path cannot be inspected for self-intersection here.
/// With the flag on, lyon rejects NaN tolerances and NaN positions as
/// errors rather than panicking.  Infinite coordinates are not refused
/// here: lyon passes them into its triangulation internals, which are
/// trusted as given.
///
/// Success is named by [`fill_succeeds`]: the check is a function of the
/// options, and the tessellator resets its scratch state at the start of
/// each call, so whether `Ok` comes back depends on the path and the
/// options alone.
#[verifier::external_body]
pub(crate) fn tessellate_fill(
    tess: &mut lyon_tessellation::FillTessellator,
    path: &lyon_tessellation::path::Path,
    options: &lyon_tessellation::FillOptions,
) -> (r: Result<VertexBuffers, FailureCause>)
    ensures
        r is Ok <==> fill_succeeds(*path, *options),
        r matches Ok(b) ==> buffers_wf(b),
{
    if !options.handle_intersections {
        return Err(FailureCause::IntersectionHandlingDisabled);
    }
    let mut buf: lyon_tessellation::VertexBuffers<_, u32> = lyon_tessellation::VertexBuffers::new();
    let ctor = |v: lyon_tessellation::FillVertex| (VertexConstructor.new_vertex(
        v.position().x.to_bits(),
        v.position().y.to_bits(),
    ));
    match tess.tessellate_path(path, options, &mut lyon_tessellation::BuffersBuilder::new(&mut buf, ctor)) {
        Ok(()) => Ok(VertexBuffers { vertices: buf.vertices, indices: buf.indices }),
        Err(e) => Err(FailureCause::Library(e)),
    }
}

/// Relies on lyon_tessellation::StrokeTessellator::tessellate_path, driven
/// through a BuffersBuilder over a fresh buffer pair, exactly as the fill
/// wrapper is: well-formed buffers on success, every vertex built by the
/// verified construction rule.
///
/// Boundary check (itself part of the trusted body): options whose
/// `variable_line_width` names an attribute index outside the path's
/// attribute range are refused before the call
/// (`FailureCause::VariableWidthOutOfRange`), because lyon's stroke
/// tessellator indexes each vertex's attribute slice with that index and
/// would panic on it.
///
/// Success is named by [`stroke_succeeds`]: the check is a function of the
/// options and the path's attribute count, and the tessellator works from a
/// fresh builder each call, so whether `Ok` comes back depends on the path
/// and the options alone.
#[verifier::external_body]
pub(crate) fn tessellate_stroke(
    tess: &mut lyon_tessellation::StrokeTessellator,
    path: &lyon_tessellation::path::Path,
    options: &lyon_tessellation::StrokeOptions,
) -> (r: Result<VertexBuffers, FailureCause>)
    ensures
        r is Ok <==> stroke_succeeds(*path, *options),
        r matches Ok(b) ==> buffers_wf(b),
{
    if let Some(index) = options.variable_line_width {
        if index >= lyon_tessellation::path::AttributeStore::num_attributes(path) {
            return Err(FailureCause::VariableWidthOutOfRange);
        }
    }
    let mut buf: lyon_tessellation::VertexBuffers<_, u32> = lyon_tessellation::VertexBuffers::new();
    let ctor = |v: lyon_tessellation::StrokeVertex| (VertexConstructor.new_vertex(
        v.position().x.to_bits(),
        v.position().y.to_bits(),
    ));
    match tess.tessellate_path(path, options, &mut lyon_tessellation::BuffersBuilder::new(&mut buf, ctor)) {
        Ok(()) => Ok(VertexBuffers { vertices: buf.vertices, indices: buf.indices }),
        Err(e) => Err(FailureCause::Library(e)),
    }
}

} // verus!
