use render_core::cube_texture::{CubeTextureError, cube_face_paths, plan_cube_upload};
use render_core::my_pipeline::{PipelineKind, pass_of};
use render_core::my_render_pass::{RenderPassBuilder, default_pass_order};
use render_core::render_context::{RecoveryAction, SurfaceErrorKind, recovery_action};
use render_core::render_passes::opaque3d_render_pass::Opaque3DRenderPass;
use render_core::render_passes::ui_render_pass::UiRenderPass;
use render_core::render_passes::{ColorLoad, RenderPassType, create_render_pass_from_type};
use render_core::renderables::cube::cube_indices;
use render_core::renderables::skybox::skybox_indices;
use render_core::renderables::ui::ui_indices;

#[test]
fn registry_order_is_opaque_then_ui() {
    assert_eq!(
        default_pass_order(),
        vec![RenderPassType::Opaque3D, RenderPassType::UI]
    );
}

#[test]
fn every_pipeline_kind_maps_to_its_pass() {
    assert_eq!(pass_of(PipelineKind::Default), RenderPassType::Opaque3D);
    assert_eq!(pass_of(PipelineKind::Skybox), RenderPassType::Opaque3D);
    assert_eq!(pass_of(PipelineKind::Ui), RenderPassType::UI);
}

#[test]
fn pass_configurations_fix_clear_and_depth() {
    let opaque = create_render_pass_from_type(RenderPassType::Opaque3D);
    assert_eq!(opaque.color_load, ColorLoad::Clear);
    assert!(opaque.use_depth);
    let ui = create_render_pass_from_type(RenderPassType::UI);
    assert_eq!(ui.color_load, ColorLoad::Load);
    assert!(!ui.use_depth);
    assert_eq!(Opaque3DRenderPass.create_render_pass(), opaque);
    assert_eq!(UiRenderPass.create_render_pass(), ui);
}

#[test]
fn surface_errors_classify_as_documented() {
    assert_eq!(recovery_action(SurfaceErrorKind::Lost), RecoveryAction::Reconfigure);
    assert_eq!(recovery_action(SurfaceErrorKind::Outdated), RecoveryAction::Reconfigure);
    assert_eq!(recovery_action(SurfaceErrorKind::OutOfMemory), RecoveryAction::Terminate);
    assert_eq!(recovery_action(SurfaceErrorKind::Other), RecoveryAction::Terminate);
    assert_eq!(recovery_action(SurfaceErrorKind::Timeout), RecoveryAction::SkipFrame);
}

#[test]
fn meshes_have_documented_sizes_and_valid_indices() {
    let cube = cube_indices();
    assert_eq!(cube.len(), 36);
    assert!(cube.iter().all(|&i| i < 24));
    let skybox = skybox_indices();
    assert_eq!(skybox.len(), 36);
    assert!(skybox.iter().all(|&i| i < 24));
    let ui = ui_indices();
    assert_eq!(ui, vec![0u16, 1, 2, 2, 3, 0]);
    assert!(ui.iter().all(|&i| i < 4));
}

#[test]
fn cube_faces_come_from_the_six_axis_files() {
    let paths = cube_face_paths("assets/sky");
    assert_eq!(
        paths,
        vec![
            String::from("assets/sky/px.png"),
            String::from("assets/sky/nx.png"),
            String::from("assets/sky/py.png"),
            String::from("assets/sky/ny.png"),
            String::from("assets/sky/pz.png"),
            String::from("assets/sky/nz.png"),
        ]
    );
}

#[test]
fn cube_upload_plan_accepts_six_equal_faces() {
    let dims = vec![(256u32, 128u32); 6];
    let plan = plan_cube_upload(&dims).unwrap();
    assert_eq!(plan.width, 256);
    assert_eq!(plan.height, 128);
    assert_eq!(plan.writes.len(), 6);
    for (i, w) in plan.writes.iter().enumerate() {
        assert_eq!(w.layer as usize, i);
        assert_eq!(w.bytes_per_row, 4 * 256);
        assert_eq!(w.rows, 128);
    }
}

#[test]
fn cube_upload_plan_rejects_wrong_face_count() {
    for n in [0usize, 5, 7] {
        let dims = vec![(64u32, 64u32); n];
        match plan_cube_upload(&dims) {
            Err(e) => assert_eq!(e, CubeTextureError::WrongFaceCount),
            Ok(_) => panic!("a plan with {} faces was accepted", n),
        }
    }
}

#[test]
fn cube_upload_plan_rejects_mismatched_faces() {
    let mut dims = vec![(64u32, 64u32); 6];
    dims[3] = (64, 32);
    match plan_cube_upload(&dims) {
        Err(e) => assert_eq!(e, CubeTextureError::DimensionMismatch),
        Ok(_) => panic!("mismatched faces were accepted"),
    }
}
