//! The UI overlay pass: loads the color already rendered and uses no depth.

use vstd::prelude::*;

use crate::my_render_pass::RenderPassBuilder;
use crate::render_passes::{ColorLoad, PassConfig, create_render_pass};

verus! {

pub struct UiRenderPass;

impl RenderPassBuilder for UiRenderPass {
    open spec fn spec_config(&self) -> PassConfig {
        PassConfig { color_load: ColorLoad::Load, use_depth: false }
    }

    fn create_render_pass(&self) -> (c: PassConfig) {
        create_render_pass(false, false)
    }
}

} // verus!
