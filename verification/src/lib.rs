//! A render-pipeline and pass-orchestration core.
//!
//! The library decides which GPU pipeline and render pass each drawable uses,
//! memoizes expensive GPU objects so each is built at most once per key, and
//! fixes the grouping and order in which draw calls are recorded within a
//! frame.  GPU objects themselves are referred to by plain integer handles;
//! the embedding executes the build requests and command lists that the
//! library produces.

pub mod cache;
pub mod commands;
pub mod cube_texture;
pub mod get_type;
pub mod my_pipeline;
pub mod my_render_pass;
pub mod pipelines;
pub mod render_context;
pub mod render_passes;
pub mod renderable;
pub mod renderables;
pub mod secondary;
