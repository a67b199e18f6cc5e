//! Pipeline lifecycle and multi-pass orchestration for a deferred renderer.
//!
//! The crate holds the decisions of the renderer as verified functions over
//! plain values: which bind group goes to which slot, when a shader is
//! rebuilt and what becomes of the pass afterwards, in which order the passes
//! of a frame are recorded, and what a resize rebuilds. GPU objects are
//! carried as opaque handles of a type the caller chooses; the caller performs
//! the device work that the library asks for.

pub mod bind_group_layout_descriptors;
pub mod pipelines;
pub mod post_process_manager;
pub mod renderer;
pub mod event;
pub mod camera;
pub mod camera_controller;
pub mod app;
