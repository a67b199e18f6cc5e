//! What a shader build yields, and what a hot-reload attempt yields.

use vstd::prelude::*;

verus! {

/// A shader program together with the modification time of the source it was
/// compiled from. `M` is the caller's handle for the program.
#[derive(Debug, PartialEq, Eq)]
pub struct CompiledShader<M> {
    pub shader_module: M,
    pub last_write_time: u64,
}

/// The source did not compile. Carries the diagnostic text of the driver.
#[derive(Debug, PartialEq, Eq)]
pub struct ShaderCompileError {
    pub diagnostic: String,
}

/// A pass could not be constructed because its shader did not compile.
/// There is no earlier pipeline to fall back to, so this one is fatal.
#[derive(Debug, PartialEq, Eq)]
pub struct PipelineConstructionError {
    pub source: ShaderCompileError,
}

/// Outcome of one hot-reload attempt on a pass of type `S`.
#[derive(Debug, PartialEq, Eq)]
pub enum PipelineRecreationResult<S> {
    /// The source is not newer than what the pass was built from.
    AlreadyUpToDate,
    /// The source was newer and a replacement pass was built from it.
    Success(S),
    /// The source was newer but did not compile.
    Failed(ShaderCompileError),
}

impl<S> PipelineRecreationResult<S> {
    /// The pass that is active after `self` has been applied to `active`.
    pub open spec fn spec_installed(self, active: S) -> S {
        match self {
            PipelineRecreationResult::Success(rebuilt) => rebuilt,
            _ => active,
        }
    }

    /// The error that applying `self` surfaces, if any.
    pub open spec fn spec_error(self) -> Option<ShaderCompileError> {
        match self {
            PipelineRecreationResult::Failed(error) => Some(error),
            _ => None,
        }
    }

    /// Applies the outcome to the slot holding the active pass. A rebuilt pass
    /// replaces the old one wholesale; in every other case the slot is left
    /// exactly as it was. Returns the compile error for the caller to report.
    pub fn install(self, active: &mut S) -> (error: Option<ShaderCompileError>)
        ensures
            *final(active) == self.spec_installed(*old(active)),
            error == self.spec_error(),
    {
        match self {
            PipelineRecreationResult::AlreadyUpToDate => None,
            PipelineRecreationResult::Success(rebuilt) => {
                *active = rebuilt;
                None
            },
            PipelineRecreationResult::Failed(error) => Some(error),
        }
    }
}

} // verus!
