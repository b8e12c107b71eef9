//! The verified core of an immediate-mode renderer.
//!
//! The library decides what is asked of the graphics device and what follows
//! from each answer: resource descriptors, format tables, vertex layouts, the
//! stream of pipeline commands, and the state machines that lead a creation
//! through its device calls. It never touches the device itself. A host
//! performs each request and command this library hands out and reports what
//! the device returned.
pub mod color;
pub mod depth_stencil_target;
pub mod device;
pub mod display;
pub mod graphics;
pub mod index_buffer;
pub mod input_layout;
pub mod material;
pub mod mesh;
pub mod model;
pub mod model_builder;
pub mod native;
pub mod numerics;
pub mod render_target;
pub mod render_target_state;
pub mod sampler;
pub mod shader;
pub mod shader_buffer;
pub mod shader_compiler;
pub mod shader_input;
pub mod texture;
pub mod vertex_buffer;
pub mod vertex_format;
