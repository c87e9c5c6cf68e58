//! What a frame produces: build requests for GPU objects that do not exist
//! yet, and the ordered draw-command list of the frame.
//!
//! The library never touches the device.  It hands the embedding a list of
//! build requests (execute them first, storing each object under the given
//! handle id) and a command list to replay against the open passes.

use vstd::prelude::*;

use crate::cache::TextureSource;
use crate::get_type::RenderableKind;
use crate::my_pipeline::PipelineKind;
use crate::render_passes::RenderPassType;

verus! {

/// One recorded frame command.  `BeginPass` opens the pass that the
/// following draws belong to; `EndPass` closes it.
#[derive(Clone, Copy, Debug, PartialEq, Eq, Structural)]
pub enum RenderCommand {
    BeginPass(RenderPassType),
    SetPipeline(u64),
    SetBindGroup(u32, u64),
    SetVertexBuffer(u64),
    SetIndexBuffer(u64),
    DrawIndexed(u32),
    EndPass,
}

/// A GPU object the embedding must build and store under the handle id.
#[derive(Debug)]
pub enum BuildRequest {
    Pipeline { kind: PipelineKind, id: u64 },
    VertexBuffer { kind: RenderableKind, id: u64 },
    IndexBuffer { kind: RenderableKind, id: u64 },
    Texture { source: TextureSource, id: u64 },
    BindGroup {
        pipeline_kind: PipelineKind,
        renderable_kind: RenderableKind,
        bind_group_index: u32,
        texture: u64,
        id: u64,
    },
    DepthTexture { width: u32, height: u32, id: u64 },
    CameraBuffer { id: u64 },
    CameraBindGroup { buffer: u64, id: u64 },
}

} // verus!
