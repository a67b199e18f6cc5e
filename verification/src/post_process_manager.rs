//! Owner of the post-process pass.

use vstd::prelude::*;
use crate::pipelines::compute_commands::ComputeCommand;
use crate::pipelines::post_process_rp::{compute_pass_commands, PostProcessRP, PostProcessRPView};
use crate::pipelines::shader_compilation_result::{CompiledShader, ShaderCompileError};

verus! {

/// Owns the post-process pass. `P` is the caller's handle for a compute
/// pipeline.
#[derive(Debug, PartialEq, Eq)]
pub struct PostProcessManager<P> {
    pub pipeline: PostProcessRP<P>,
}

impl<P> PostProcessManager<P> {
    /// Constructs the manager with its pass. The shader of the pass has to
    /// have compiled: there is nothing to present without it.
    pub fn new<M>(built: Result<(CompiledShader<M>, P), ShaderCompileError>) -> (manager: Self)
        requires
            built is Ok,
        ensures
            built matches Ok((shader, compute_pipeline)) && manager.pipeline@
                == (PostProcessRPView {
                compute_pipeline,
                shader_modification_time: shader.last_write_time,
            }),
    {
        match PostProcessRP::new(built) {
            Ok(pipeline) => PostProcessManager { pipeline },
            Err(_) => vstd::pervasive::unreached(),
        }
    }

    /// Records the post-process pass for an output of `width` by `height`.
    pub fn render(&self, width: u32, height: u32) -> (commands: Vec<ComputeCommand>)
        ensures
            commands@ == compute_pass_commands(width, height),
    {
        self.pipeline.run_compute_pass(width, height)
    }
}

} // verus!
