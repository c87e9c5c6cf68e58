//! The opaque 3-D pass: clears color and binds a cleared depth attachment.

use vstd::prelude::*;

use crate::my_render_pass::RenderPassBuilder;
use crate::render_passes::{ColorLoad, PassConfig, create_render_pass};

verus! {

pub struct Opaque3DRenderPass;

impl RenderPassBuilder for Opaque3DRenderPass {
    open spec fn spec_config(&self) -> PassConfig {
        PassConfig { color_load: ColorLoad::Clear, use_depth: true }
    }

    fn create_render_pass(&self) -> (c: PassConfig) {
        create_render_pass(true, true)
    }
}

} // verus!
