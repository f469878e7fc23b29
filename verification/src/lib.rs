//! Verified core of a small real-time renderer: frame lifecycle, growable
//! GPU-buffer bookkeeping, shader hot-reload, and the combinatorial part of a
//! procedural 2-D skeletal animation.

pub mod capacity;
pub mod chain;
pub mod demo;
pub mod driver;
pub mod gpu_state;
pub mod hot_reload;
pub mod input;
pub mod instance_ctx;
pub mod mesh;
pub mod render_pass;
pub mod resource_context;
pub mod skin;
pub mod stroke;
pub mod surface_context;
pub mod texture;
pub mod vertex_ctx;
