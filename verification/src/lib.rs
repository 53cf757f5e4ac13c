//! A verified model of a Direct3D 11 rendering backend for an
//! immediate-mode GUI library.
//!
//! The library owns the renderer's decision logic: how GPU buffers grow
//! across frames, how frame geometry is partitioned into the mapped
//! buffers, the orthographic projection matrix, the resolution of texture
//! handles (with a reserved font sentinel), and the interpretation of a
//! frame's draw-command stream into a sequence of device-level actions.
//! An unverified shell performs the actual device calls by executing the
//! action plan that [`renderer::Renderer::render`] computes.

pub mod buffers;
pub mod coord;
pub mod draw;
pub mod matrix;
pub mod plan;
pub mod renderer;
pub mod state;
pub mod textures;
pub mod upload;

pub use draw::DrawData;
pub use plan::Action;
pub use plan::RenderError;
pub use renderer::FramePlan;
pub use renderer::Renderer;
