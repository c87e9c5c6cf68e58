//! The statically registered pipeline builders, one per pipeline kind.

pub mod default_pipeline;
pub mod skybox_pipeline;
pub mod ui_pipeline;
