//! Stable type tags for the drawable kinds.
//!
//! Behavior is dispatched by an explicit closed tag rather than by runtime
//! type identity, so cache keys stay stable and exhaustiveness is checkable.

use vstd::prelude::*;

verus! {

/// The closed set of drawable kinds.
#[derive(Clone, Copy, Debug, PartialEq, Eq, Structural)]
pub enum RenderableKind {
    Cube,
    Skybox,
    Ui,
}

/// A type that carries a stable tag naming its kind.
pub trait GetType {
    /// The tag of this value, at the specification level.
    spec fn type_kind(&self) -> RenderableKind;

    /// Returns the stable tag of this value.
    fn get_type(&self) -> (k: RenderableKind)
        ensures
            k == self.type_kind(),
    ;
}

} // verus!
