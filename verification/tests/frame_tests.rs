use render_core::cache::TextureSource;
use render_core::commands::{BuildRequest, RenderCommand};
use render_core::render_context::{RenderContext, RenderError};
use render_core::render_passes::RenderPassType;
use render_core::renderable::Renderable;
use render_core::renderables::RenderableEntry;
use render_core::renderables::cube::Cube;
use render_core::renderables::skybox::Skybox;
use render_core::renderables::ui::UI;

fn cube(path: &str) -> RenderableEntry {
    RenderableEntry::Cube(Cube::new(String::from(path)))
}

fn skybox(dir: &str) -> RenderableEntry {
    RenderableEntry::Skybox(Skybox::new(String::from(dir)))
}

fn ui(path: &str) -> RenderableEntry {
    RenderableEntry::Ui(UI::new(TextureSource::FilePath(String::from(path))))
}

fn begins(cmds: &[RenderCommand]) -> Vec<RenderPassType> {
    cmds.iter()
        .filter_map(|c| match c {
            RenderCommand::BeginPass(p) => Some(*p),
            _ => None,
        })
        .collect()
}

fn draw_count(cmds: &[RenderCommand]) -> usize {
    cmds.iter().filter(|c| matches!(c, RenderCommand::DrawIndexed(_))).count()
}

#[test]
fn cube_and_skybox_share_one_pass() {
    let mut ctx = RenderContext::new(800, 600);
    let renderables = vec![cube("assets/cube.png"), skybox("assets/sky")];
    let cmds = ctx.render(&renderables).unwrap();
    // Exactly one pass: both pipelines derive the opaque 3-D pass.
    assert_eq!(begins(&cmds), vec![RenderPassType::Opaque3D]);
    // Exactly two indexed draws, one per renderable, in insertion order,
    // each preceded by exactly one pipeline bind and two bind groups:
    // texture at slot 0, the shared camera bind group at slot 1.
    let expected = vec![
        RenderCommand::BeginPass(RenderPassType::Opaque3D),
        RenderCommand::SetPipeline(3),
        RenderCommand::SetBindGroup(0, 11),
        RenderCommand::SetBindGroup(1, 1),
        RenderCommand::SetVertexBuffer(4),
        RenderCommand::SetIndexBuffer(5),
        RenderCommand::DrawIndexed(36),
        RenderCommand::SetPipeline(7),
        RenderCommand::SetBindGroup(0, 12),
        RenderCommand::SetBindGroup(1, 1),
        RenderCommand::SetVertexBuffer(8),
        RenderCommand::SetIndexBuffer(9),
        RenderCommand::DrawIndexed(36),
        RenderCommand::EndPass,
    ];
    assert_eq!(cmds, expected);
    assert_eq!(draw_count(&cmds), 2);
}

#[test]
fn build_requests_cover_every_fresh_handle() {
    let mut ctx = RenderContext::new(640, 480);
    let renderables = vec![cube("assets/cube.png"), skybox("assets/sky")];
    ctx.render(&renderables).unwrap();
    let reqs = &ctx.requests;
    assert_eq!(reqs.len(), 13);
    assert!(matches!(reqs[0], BuildRequest::CameraBuffer { id: 0 }));
    assert!(matches!(reqs[1], BuildRequest::CameraBindGroup { buffer: 0, id: 1 }));
    assert!(matches!(reqs[2], BuildRequest::DepthTexture { width: 640, height: 480, id: 2 }));
    assert!(matches!(reqs[3], BuildRequest::Pipeline { kind: render_core::my_pipeline::PipelineKind::Default, id: 3 }));
    assert!(matches!(reqs[6], BuildRequest::Texture { source: TextureSource::FilePath(_), id: 6 }));
    assert!(matches!(reqs[10], BuildRequest::Texture { source: TextureSource::CubeDirectory(_), id: 10 }));
    assert!(matches!(reqs[11], BuildRequest::BindGroup { texture: 6, id: 11, .. }));
    assert!(matches!(reqs[12], BuildRequest::BindGroup { texture: 10, id: 12, .. }));
}

#[test]
fn pass_order_is_stable_across_changing_sets() {
    let mut ctx = RenderContext::new(800, 600);
    let frame1 = vec![cube("a.png"), ui("hud.png")];
    let frame2 = vec![ui("hud.png"), skybox("sky")];
    let frame3 = vec![ui("hud.png")];
    let cmds1 = ctx.render(&frame1).unwrap();
    let cmds2 = ctx.render(&frame2).unwrap();
    let cmds3 = ctx.render(&frame3).unwrap();
    // Both multi-pass frames open the passes in the same relative order,
    // whatever the renderable set and its order were.
    assert_eq!(begins(&cmds1), vec![RenderPassType::Opaque3D, RenderPassType::UI]);
    assert_eq!(begins(&cmds2), vec![RenderPassType::Opaque3D, RenderPassType::UI]);
    // A frame with only UI renderables opens no empty opaque pass.
    assert_eq!(begins(&cmds3), vec![RenderPassType::UI]);
}

#[test]
fn unregistered_pass_kind_fails_deterministically() {
    let mut ctx = RenderContext::with_pass_order(
        320,
        200,
        vec![RenderPassType::Opaque3D],
    );
    let fine = vec![cube("a.png"), skybox("sky")];
    assert!(ctx.render(&fine).is_ok());
    let broken = vec![cube("a.png"), ui("hud.png")];
    assert_eq!(ctx.render(&broken), Err(RenderError::UnregisteredPassKind));
    assert_eq!(ctx.render(&broken), Err(RenderError::UnregisteredPassKind));
}

#[test]
fn every_renderable_is_drawn_when_all_passes_registered() {
    let mut ctx = RenderContext::new(800, 600);
    let renderables = vec![
        cube("a.png"),
        cube("b.png"),
        skybox("sky"),
        ui("hud.png"),
        ui("menu.png"),
    ];
    let cmds = ctx.render(&renderables).unwrap();
    assert_eq!(draw_count(&cmds), 5);
    assert_eq!(begins(&cmds), vec![RenderPassType::Opaque3D, RenderPassType::UI]);
}

#[test]
fn resize_rebuilds_only_the_depth_target() {
    let mut ctx = RenderContext::new(800, 600);
    let renderables = vec![cube("a.png"), ui("hud.png")];
    let cmds1 = ctx.render(&renderables).unwrap();
    let cached = ctx.cache.len();
    let depth_before = ctx.depth_texture;
    let requests_before = ctx.requests.len();

    ctx.resize(1024, 768);
    assert_ne!(ctx.depth_texture, depth_before);
    // Only one new build request: the fresh depth target.
    assert_eq!(ctx.requests.len(), requests_before + 1);
    assert!(matches!(
        ctx.requests[requests_before],
        BuildRequest::DepthTexture { width: 1024, height: 768, .. }
    ));
    // Every cached pipeline, buffer and texture is untouched.
    assert_eq!(ctx.cache.len(), cached);

    // The next frame replays the very same handles: all cache hits.
    let cmds2 = ctx.render(&renderables).unwrap();
    assert_eq!(cmds1, cmds2);
    assert_eq!(ctx.cache.len(), cached);
}

#[test]
fn geometry_is_shared_between_instances_of_one_kind() {
    let mut ctx = RenderContext::new(800, 600);
    let c1 = Cube::new(String::from("a.png"));
    let c2 = Cube::new(String::from("b.png"));
    let v1 = c1.get_vertex_buffer(&mut ctx);
    let v2 = c2.get_vertex_buffer(&mut ctx);
    let i1 = c1.get_index_buffer(&mut ctx);
    let i2 = c2.get_index_buffer(&mut ctx);
    assert_eq!(v1, v2);
    assert_eq!(i1, i2);
    // Their textures differ, so those are cached under separate keys.
    let t1 = c1.get_texture(&mut ctx);
    let t2 = c2.get_texture(&mut ctx);
    assert_ne!(t1, t2);
}

#[test]
fn pipeline_resolution_is_idempotent() {
    let mut ctx = RenderContext::new(800, 600);
    let p1 = render_core::renderable::get_pipeline_from_cache(
        &mut ctx,
        render_core::my_pipeline::PipelineKind::Skybox,
    );
    let requests_after_first = ctx.requests.len();
    let p2 = render_core::renderable::get_pipeline_from_cache(
        &mut ctx,
        render_core::my_pipeline::PipelineKind::Skybox,
    );
    assert_eq!(p1, p2);
    assert_eq!(p1.render_pass_builder, RenderPassType::Opaque3D);
    // The second resolution built nothing.
    assert_eq!(ctx.requests.len(), requests_after_first);
}
