//! Pipeline kinds, the pipeline object, and the kind-to-pass association.

use vstd::prelude::*;

use crate::render_passes::RenderPassType;

verus! {

/// The closed set of pipeline kinds.  Each kind names one fixed
/// shader/vertex-layout/blend-state configuration.
#[derive(Clone, Copy, Debug, PartialEq, Eq, Structural)]
pub enum PipelineKind {
    Default,
    Skybox,
    Ui,
}

/// A built pipeline: the handle of the GPU pipeline object and the pass kind
/// it must be drawn within.  The pass is derived from the pipeline, never
/// chosen by a renderable directly, so pipeline and pass can never disagree.
#[derive(Clone, Copy, Debug, PartialEq, Eq, Structural)]
pub struct MyPipeline {
    pub pipeline: u64,
    pub render_pass_builder: RenderPassType,
}

/// The pass kind that a pipeline kind requires.
pub open spec fn spec_pass_of(kind: PipelineKind) -> RenderPassType {
    match kind {
        PipelineKind::Default => RenderPassType::Opaque3D,
        PipelineKind::Skybox => RenderPassType::Opaque3D,
        PipelineKind::Ui => RenderPassType::UI,
    }
}

/// Registry lookup from pipeline kind to required pass kind.  The set of
/// kinds is closed, so every kind is registered by construction.
#[verifier::when_used_as_spec(spec_pass_of)]
pub fn pass_of(kind: PipelineKind) -> (p: RenderPassType)
    ensures
        p == spec_pass_of(kind),
{
    match kind {
        PipelineKind::Default => RenderPassType::Opaque3D,
        PipelineKind::Skybox => RenderPassType::Opaque3D,
        PipelineKind::Ui => RenderPassType::UI,
    }
}

/// What each statically registered pipeline builder declares: its kind and
/// the pass kind its pipelines must be drawn within.  The heavy device
/// work of building happens in the embedding, under the handle that the
/// cache issues on the first use of the kind.
pub trait PipelineBuilder {
    /// The pipeline kind this builder builds.
    spec fn kind_spec(&self) -> PipelineKind;

    /// The builder's pipeline kind.
    fn pipeline_kind(&self) -> (k: PipelineKind)
        ensures
            k == self.kind_spec(),
    ;

    /// The pass kind this builder's pipelines require.
    fn pass_type(&self) -> (p: RenderPassType)
        ensures
            p == spec_pass_of(self.kind_spec()),
    ;
}

} // verus!
