//! Core logic of a live WGSL shader playground: the render/event-loop state
//! machine, the uniform record and its GPU byte layout, mouse-coordinate
//! normalization, file-watch event classification, the shader-source retry
//! policy, and the GPU error-sink classifier. The windowing, file-system and
//! GPU plumbing that drives this logic lives outside the library.

pub mod builder;
pub mod coords;
pub mod errsink;
pub mod state;
pub mod uniforms;
pub mod watch;
