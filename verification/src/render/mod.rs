//! Render planning: how a model becomes GPU buffers and draw calls, and
//! which pipelines and shaders a frame needs.

pub mod render_manager;
pub mod queue;
pub mod pipeline;
pub mod shader;
