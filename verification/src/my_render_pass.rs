//! The render-pass builder contract and the fixed pass order.

use vstd::prelude::*;

use crate::render_passes::{PassConfig, RenderPassType};

verus! {

/// A pass builder fixes one pass kind's attachment configuration: whether
/// color is cleared or loaded and whether depth is bound.  Builders hold no
/// state beyond that configuration.
pub trait RenderPassBuilder {
    /// The configuration this builder opens a pass with.
    spec fn spec_config(&self) -> PassConfig;

    /// Produces the attachment configuration for one open pass.
    fn create_render_pass(&self) -> (c: PassConfig)
        ensures
            c == self.spec_config(),
    ;
}

/// The fixed order in which registered pass kinds are visited each frame:
/// opaque 3-D first, UI last so that it draws on top.  The order never
/// depends on the active renderable set.
pub open spec fn spec_default_pass_order() -> Seq<RenderPassType> {
    seq![RenderPassType::Opaque3D, RenderPassType::UI]
}

/// The registry's pass order, as a list to iterate.
pub fn default_pass_order() -> (v: Vec<RenderPassType>)
    ensures
        v@ == spec_default_pass_order(),
{
    let v = vec![RenderPassType::Opaque3D, RenderPassType::UI];
    proof {
        assert(v@ =~= spec_default_pass_order());
    }
    v
}

} // verus!
