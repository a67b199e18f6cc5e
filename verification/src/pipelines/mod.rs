//! The passes of the renderer and what they share: the outcome of a shader
//! build, the hot-reload decision, and the commands a compute pass records.

pub mod compute_commands;
pub mod main_rp;
pub mod post_process_rp;
pub mod render_pipeline_base;
pub mod shader_compilation_result;
