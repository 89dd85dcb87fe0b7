//! Scene state, mesh batching and render-pass planning for a small wgpu viewer.
//!
//! The library holds what the viewer decides: whether the scene is shown,
//! which clear colour a frame uses, how the faces of a model are merged into
//! one vertex and index buffer, which pipelines are built once and shared,
//! and how the vertex buffer is laid out. The GPU work itself (devices,
//! surfaces, encoders, buffers) is done by the caller with the values these
//! functions return.

pub mod app_state;
pub mod model;
pub mod render;
pub mod render_queue_builder;
pub mod vertex_layout;
pub mod view;

pub use app_state::AppState;
pub use model::{Face, Model};
pub use render::pipeline::{PipelineCache, PipelineName};
pub use render::queue::PassPlan;
pub use render::render_manager::{DrawIndexedInfo, RenderData};
pub use render::shader::{ShaderFragmentName, ShaderVertexName};
pub use render_queue_builder::{RenderQueueBuilder, ScreenColor};
