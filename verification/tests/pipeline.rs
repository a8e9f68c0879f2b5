use lyon_tessellation::math::point;
use lyon_tessellation::path::Path;
use lyon_tessellation::{FillOptions, StrokeOptions, TessellationError};
use shape_mesh::entity::{EngineKind, ShapeEntity, TessellationMode};
use shape_mesh::mesh::Topology;
use shape_mesh::plugin::{complete_shape_bundle, PassOutcome, ShapePlugin};
use shape_mesh::tess::FailureCause;
use shape_mesh::vertex::{Vec2Bits, Vec3Bits, ONE_BITS, ZERO_BITS};

fn triangle_path() -> Path {
    let mut builder = Path::builder();
    builder.begin(point(0.0, 0.0));
    builder.line_to(point(10.0, 0.0));
    builder.line_to(point(0.0, 10.0));
    builder.close();
    builder.build()
}

fn line_path() -> Path {
    let mut builder = Path::builder();
    builder.begin(point(0.0, 0.0));
    builder.line_to(point(5.0, 0.0));
    builder.end(false);
    builder.build()
}

fn nan_tolerance_fill() -> FillOptions {
    let mut options = FillOptions::default();
    options.tolerance = f32::NAN;
    options
}

#[test]
fn fill_triangle_completes_entity() {
    let mut resources = ShapePlugin.build();
    let mut entities = vec![ShapeEntity::new(
        TessellationMode::Fill(FillOptions::default()),
        triangle_path(),
    )];

    let outcomes = complete_shape_bundle(
        &mut entities,
        &mut resources.fill_tess,
        &mut resources.stroke_tess,
        &mut resources.meshes,
    );

    assert!(matches!(outcomes[0], PassOutcome::Completed));
    assert!(entities[0].processed);
    assert!(entities[0].visible);
    assert_eq!(entities[0].mesh, Some(0));
    assert_eq!(resources.meshes.len(), 1);

    let mesh = resources.meshes.get(0);
    assert_eq!(mesh.topology, Topology::TriangleList);
    assert!(mesh.positions.len() >= 3);
    assert!(mesh.indices.len() >= 3);
    assert_eq!(mesh.indices.len() % 3, 0);
    for &index in mesh.indices.iter() {
        assert!((index as usize) < mesh.positions.len());
    }
    for position in mesh.positions.iter() {
        assert_eq!(position.z, ZERO_BITS);
    }
    for normal in mesh.normals.iter() {
        assert_eq!(
            *normal,
            Vec3Bits { x: ZERO_BITS, y: ZERO_BITS, z: ONE_BITS }
        );
    }
    for uv in mesh.uvs.iter() {
        assert_eq!(*uv, Vec2Bits { x: ZERO_BITS, y: ZERO_BITS });
    }
}

#[test]
fn stroke_line_builds_ribbon() {
    let mut resources = ShapePlugin.build();
    let mut entities = vec![ShapeEntity::new(
        TessellationMode::Stroke(StrokeOptions::default().with_line_width(2.0)),
        line_path(),
    )];

    let outcomes = complete_shape_bundle(
        &mut entities,
        &mut resources.fill_tess,
        &mut resources.stroke_tess,
        &mut resources.meshes,
    );

    assert!(matches!(outcomes[0], PassOutcome::Completed));
    assert!(entities[0].processed);
    assert!(entities[0].visible);
    assert_eq!(entities[0].mesh, Some(0));

    let mesh = resources.meshes.get(0);
    assert!(mesh.positions.len() >= 4);
    assert!(mesh.indices.len() >= 6);
    assert_eq!(mesh.indices.len() % 3, 0);
    for &index in mesh.indices.iter() {
        assert!((index as usize) < mesh.positions.len());
    }
}

#[test]
fn second_pass_is_a_noop() {
    let mut resources = ShapePlugin.build();
    let mut entities = vec![
        ShapeEntity::new(TessellationMode::Fill(FillOptions::default()), triangle_path()),
        ShapeEntity::new(
            TessellationMode::Stroke(StrokeOptions::default().with_line_width(2.0)),
            line_path(),
        ),
    ];

    let first = complete_shape_bundle(
        &mut entities,
        &mut resources.fill_tess,
        &mut resources.stroke_tess,
        &mut resources.meshes,
    );
    assert!(first.iter().all(|oc| matches!(oc, PassOutcome::Completed)));
    let handles: Vec<Option<usize>> = entities.iter().map(|e| e.mesh).collect();
    let mesh_count = resources.meshes.len();

    let second = complete_shape_bundle(
        &mut entities,
        &mut resources.fill_tess,
        &mut resources.stroke_tess,
        &mut resources.meshes,
    );

    assert!(second.iter().all(|oc| matches!(oc, PassOutcome::Skipped)));
    for (entity, handle) in entities.iter().zip(handles.iter()) {
        assert!(entity.processed);
        assert!(entity.visible);
        assert_eq!(entity.mesh, *handle);
    }
    assert_eq!(resources.meshes.len(), mesh_count);
}

#[test]
fn preprocessed_entity_is_untouched() {
    let mut resources = ShapePlugin.build();
    let mut entity = ShapeEntity::new(
        TessellationMode::Fill(FillOptions::default()),
        triangle_path(),
    );
    entity.processed = true;
    let mut entities = vec![entity];

    let outcomes = complete_shape_bundle(
        &mut entities,
        &mut resources.fill_tess,
        &mut resources.stroke_tess,
        &mut resources.meshes,
    );

    assert!(matches!(outcomes[0], PassOutcome::Skipped));
    assert!(entities[0].processed);
    assert!(!entities[0].visible);
    assert_eq!(entities[0].mesh, None);
    assert_eq!(resources.meshes.len(), 0);
}

#[test]
fn degenerate_fill_fails_without_disturbing_others() {
    let mut resources = ShapePlugin.build();
    let mut entities = vec![
        ShapeEntity::new(TessellationMode::Fill(nan_tolerance_fill()), triangle_path()),
        ShapeEntity::new(TessellationMode::Fill(FillOptions::default()), triangle_path()),
    ];

    let outcomes = complete_shape_bundle(
        &mut entities,
        &mut resources.fill_tess,
        &mut resources.stroke_tess,
        &mut resources.meshes,
    );

    match &outcomes[0] {
        PassOutcome::Failed(failure) => {
            assert_eq!(failure.engine, EngineKind::Fill);
            assert!(matches!(
                failure.cause,
                FailureCause::Library(TessellationError::UnsupportedParamater(_))
            ));
        }
        other => panic!("expected a failure, got {:?}", other),
    }
    assert!(!entities[0].processed);
    assert!(!entities[0].visible);
    assert_eq!(entities[0].mesh, None);

    assert!(matches!(outcomes[1], PassOutcome::Completed));
    assert!(entities[1].processed);
    assert!(entities[1].visible);
    assert_eq!(entities[1].mesh, Some(0));
    assert_eq!(resources.meshes.len(), 1);
}

#[test]
fn modes_route_to_their_engines() {
    // A mixed pass: the fill entity yields the filled triangle (exactly one
    // triangle for a triangular path), the stroke entity yields the ribbon
    // (at least two triangles); each outcome, mesh and — on failure — engine
    // kind identifies the engine that was driven.
    let mut resources = ShapePlugin.build();
    let mut entities = vec![
        ShapeEntity::new(TessellationMode::Fill(FillOptions::default()), triangle_path()),
        ShapeEntity::new(
            TessellationMode::Stroke(StrokeOptions::default().with_line_width(2.0)),
            line_path(),
        ),
    ];

    let outcomes = complete_shape_bundle(
        &mut entities,
        &mut resources.fill_tess,
        &mut resources.stroke_tess,
        &mut resources.meshes,
    );

    assert!(matches!(outcomes[0], PassOutcome::Completed));
    assert!(matches!(outcomes[1], PassOutcome::Completed));
    assert_eq!(entities[0].mesh, Some(0));
    assert_eq!(entities[1].mesh, Some(1));

    let fill_mesh = resources.meshes.get(0);
    assert_eq!(fill_mesh.positions.len(), 3);
    assert_eq!(fill_mesh.indices.len(), 3);

    let stroke_mesh = resources.meshes.get(1);
    assert!(stroke_mesh.positions.len() >= 4);
    assert!(stroke_mesh.indices.len() >= 6);
}

#[test]
fn stroke_with_missing_width_attribute_is_refused() {
    // The path carries no custom attributes, so a variable line width naming
    // attribute 0 would make the stroke tessellator index out of range; the
    // boundary refuses it as an error instead and the entity is untouched.
    let mut options = StrokeOptions::default().with_line_width(2.0);
    options.variable_line_width = Some(0);
    let mut resources = ShapePlugin.build();
    let mut entities = vec![ShapeEntity::new(
        TessellationMode::Stroke(options),
        line_path(),
    )];

    let outcomes = complete_shape_bundle(
        &mut entities,
        &mut resources.fill_tess,
        &mut resources.stroke_tess,
        &mut resources.meshes,
    );

    match &outcomes[0] {
        PassOutcome::Failed(failure) => {
            assert_eq!(failure.engine, EngineKind::Stroke);
            assert!(matches!(failure.cause, FailureCause::VariableWidthOutOfRange));
        }
        other => panic!("expected a failure, got {:?}", other),
    }
    assert!(!entities[0].processed);
    assert!(!entities[0].visible);
    assert_eq!(entities[0].mesh, None);
    assert_eq!(resources.meshes.len(), 0);
}

#[test]
fn fill_without_intersection_handling_is_refused() {
    // With intersection handling off, the fill tessellator is not panic-safe
    // on self-intersecting paths; the boundary refuses the option outright.
    let mut options = FillOptions::default();
    options.handle_intersections = false;
    let mut resources = ShapePlugin.build();
    let mut entities = vec![ShapeEntity::new(
        TessellationMode::Fill(options),
        triangle_path(),
    )];

    let outcomes = complete_shape_bundle(
        &mut entities,
        &mut resources.fill_tess,
        &mut resources.stroke_tess,
        &mut resources.meshes,
    );

    match &outcomes[0] {
        PassOutcome::Failed(failure) => {
            assert_eq!(failure.engine, EngineKind::Fill);
            assert!(matches!(failure.cause, FailureCause::IntersectionHandlingDisabled));
        }
        other => panic!("expected a failure, got {:?}", other),
    }
    assert!(!entities[0].processed);
    assert_eq!(resources.meshes.len(), 0);
}

#[test]
fn failed_entity_is_retried_on_a_later_pass() {
    let mut resources = ShapePlugin.build();
    let mut entities = vec![ShapeEntity::new(
        TessellationMode::Fill(nan_tolerance_fill()),
        triangle_path(),
    )];

    let first = complete_shape_bundle(
        &mut entities,
        &mut resources.fill_tess,
        &mut resources.stroke_tess,
        &mut resources.meshes,
    );
    assert!(matches!(first[0], PassOutcome::Failed(_)));
    assert!(!entities[0].processed);

    // The entity stayed unprocessed, so a later pass attempts it again
    // (and fails again on the same bad options) rather than skipping it.
    let second = complete_shape_bundle(
        &mut entities,
        &mut resources.fill_tess,
        &mut resources.stroke_tess,
        &mut resources.meshes,
    );
    assert!(matches!(second[0], PassOutcome::Failed(_)));
    assert!(!entities[0].processed);
    assert_eq!(resources.meshes.len(), 0);
}
