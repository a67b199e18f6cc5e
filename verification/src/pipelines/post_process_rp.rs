//! The final compute pass, which works on the ping-pong textures and writes
//! what is presented.

use vstd::prelude::*;
use crate::bind_group_layout_descriptors::BindGroupLayoutKind;
use crate::pipelines::compute_commands::{
    bind_agrees, binds_slot, commands_match_layout, slot_is_bound, ComputeCommand,
    ComputePipelineDescriptor, PipelineLayoutDescriptor,
};
use crate::pipelines::render_pipeline_base::{
    reload_decision, spec_reload_decision, ReloadDecision,
};
use crate::pipelines::shader_compilation_result::{
    CompiledShader, PipelineConstructionError, PipelineRecreationResult, ShaderCompileError,
};

verus! {

/// The resource that holds the shader source of the pass.
pub const SHADER_SOURCE: &'static str = "src/shaders/post_process.wgsl";

/// The entry point of the shader.
pub const ENTRY_POINT: &'static str = "cs_main";

pub const PIPELINE_LAYOUT_LABEL: &'static str = "Post Process Pipeline Layout";

pub const PIPELINE_LABEL: &'static str = "Post process compute pipeline";

/// The bind-group layouts of the pass in slot order.
pub open spec fn bind_group_layouts() -> Seq<BindGroupLayoutKind> {
    seq![BindGroupLayoutKind::ComputePingPong]
}

/// The commands the pass records for an output of `width` by `height`.
pub open spec fn compute_pass_commands(width: u32, height: u32) -> Seq<ComputeCommand> {
    seq![
        ComputeCommand::SetPipeline,
        ComputeCommand::SetBindGroup { slot: 0, group: BindGroupLayoutKind::ComputePingPong },
        ComputeCommand::DispatchWorkgroups { x: width, y: height, z: 1 },
    ]
}

/// The post-process pass. `P` is the caller's handle for a compute pipeline.
#[derive(Debug, PartialEq, Eq)]
pub struct PostProcessRP<P> {
    compute_pipeline: P,
    shader_modification_time: u64,
}

/// What a post-process pass holds.
pub struct PostProcessRPView<P> {
    pub compute_pipeline: P,
    pub shader_modification_time: u64,
}

impl<P> View for PostProcessRP<P> {
    type V = PostProcessRPView<P>;

    closed spec fn view(&self) -> PostProcessRPView<P> {
        PostProcessRPView {
            compute_pipeline: self.compute_pipeline,
            shader_modification_time: self.shader_modification_time,
        }
    }
}

/// A rebuild that a post-process pass has asked for. It exists only as the
/// answer of `try_recompile_shader` and is used up by `finish`, so each
/// request is carried out once.
#[derive(Debug, PartialEq, Eq)]
pub struct RecompileRequest {
    _private: (),
}

impl RecompileRequest {
    /// The source to compile.
    pub fn shader_source(&self) -> (source: &'static str)
        ensures
            source@ == SHADER_SOURCE@,
    {
        SHADER_SOURCE
    }

    /// The pipeline to build from the compiled shader.
    pub fn pipeline(&self) -> (descriptor: ComputePipelineDescriptor)
        ensures
            descriptor.label@ == PIPELINE_LABEL@,
            descriptor.entry_point@ == ENTRY_POINT@,
            descriptor.layout.label@ == PIPELINE_LAYOUT_LABEL@,
            descriptor.layout.bind_group_layouts@ == bind_group_layouts(),
    {
        create_compute_pipeline(create_pipeline_layout())
    }

    /// The outcome of the reload, given what the build yielded.
    pub closed spec fn spec_finish<M, P>(
        self,
        built: Result<(CompiledShader<M>, P), ShaderCompileError>,
    ) -> PipelineRecreationResult<PostProcessRP<P>> {
        match built {
            Ok((shader, compute_pipeline)) => PipelineRecreationResult::Success(
                PostProcessRP { compute_pipeline, shader_modification_time: shader.last_write_time },
            ),
            Err(error) => PipelineRecreationResult::Failed(error),
        }
    }

    /// Ends the reload with what the caller's build yielded: the compiled
    /// shader and the pipeline built from it, or the compile error. A
    /// successful build gives a whole new pass with the modification time of
    /// the new shader.
    pub fn finish<M, P>(self, built: Result<(CompiledShader<M>, P), ShaderCompileError>) -> (result:
        PipelineRecreationResult<PostProcessRP<P>>)
        ensures
            result == self.spec_finish(built),
            match built {
                Ok((shader, compute_pipeline)) => result matches PipelineRecreationResult::Success(
                    pass,
                ) && pass@ == (PostProcessRPView {
                    compute_pipeline,
                    shader_modification_time: shader.last_write_time,
                }),
                Err(error) => result == PipelineRecreationResult::<PostProcessRP<P>>::Failed(error),
            },
    {
        match built {
            Ok((shader, compute_pipeline)) => PipelineRecreationResult::Success(
                PostProcessRP { compute_pipeline, shader_modification_time: shader.last_write_time },
            ),
            Err(error) => PipelineRecreationResult::Failed(error),
        }
    }
}

/// The pipeline layout of the pass.
pub fn create_pipeline_layout() -> (descriptor: PipelineLayoutDescriptor)
    ensures
        descriptor.label@ == PIPELINE_LAYOUT_LABEL@,
        descriptor.bind_group_layouts@ == bind_group_layouts(),
{
    let mut layouts: Vec<BindGroupLayoutKind> = Vec::new();
    layouts.push(BindGroupLayoutKind::ComputePingPong);
    assert(layouts@ =~= bind_group_layouts());
    PipelineLayoutDescriptor { label: PIPELINE_LAYOUT_LABEL, bind_group_layouts: layouts }
}

/// The compute pipeline of the pass over the given layout.
pub fn create_compute_pipeline(layout: PipelineLayoutDescriptor) -> (descriptor:
    ComputePipelineDescriptor)
    ensures
        descriptor.label@ == PIPELINE_LABEL@,
        descriptor.entry_point@ == ENTRY_POINT@,
        descriptor.layout == layout,
{
    ComputePipelineDescriptor { label: PIPELINE_LABEL, layout, entry_point: ENTRY_POINT }
}

impl<P> PostProcessRP<P> {
    /// Constructs the pass from what the caller's build yielded. It fails
    /// exactly when the shader did not compile.
    pub fn new<M>(built: Result<(CompiledShader<M>, P), ShaderCompileError>) -> (result: Result<
        Self,
        PipelineConstructionError,
    >)
        ensures
            match built {
                Ok((shader, compute_pipeline)) => result matches Ok(pass) && pass@
                    == (PostProcessRPView {
                    compute_pipeline,
                    shader_modification_time: shader.last_write_time,
                }),
                Err(error) => result == Err::<Self, PipelineConstructionError>(
                    PipelineConstructionError { source: error },
                ),
            },
    {
        match built {
            Ok((shader, compute_pipeline)) => Ok(
                PostProcessRP { compute_pipeline, shader_modification_time: shader.last_write_time },
            ),
            Err(error) => Err(PipelineConstructionError { source: error }),
        }
    }

    /// The handle of the pipeline that is active.
    pub fn compute_pipeline(&self) -> (pipeline: &P)
        ensures
            *pipeline == self@.compute_pipeline,
    {
        &self.compute_pipeline
    }

    /// The modification time of the source the active pipeline was built from.
    pub fn shader_modification_time(&self) -> (time: u64)
        ensures
            time == self@.shader_modification_time,
    {
        self.shader_modification_time
    }

    /// The decision of a reload attempt.
    pub closed spec fn spec_try_recompile_shader(self, source_time: u64) -> ReloadDecision<
        RecompileRequest,
    > {
        spec_reload_decision(
            self.shader_modification_time,
            source_time,
            RecompileRequest { _private: () },
        )
    }

    /// Starts a reload attempt from the modification time just read from the
    /// source. Asks for a rebuild exactly when the source is strictly newer
    /// than what the pass was built from. The pass itself is not touched.
    pub fn try_recompile_shader(&self, source_time: u64) -> (decision: ReloadDecision<
        RecompileRequest,
    >)
        ensures
            decision == self.spec_try_recompile_shader(source_time),
            source_time <= self@.shader_modification_time <==> decision is AlreadyUpToDate,
            source_time > self@.shader_modification_time <==> decision is Recompile,
    {
        reload_decision(
            self.shader_modification_time,
            source_time,
            RecompileRequest { _private: () },
        )
    }

    /// Records the pass for an output of `width` by `height`: the pipeline,
    /// the ping-pong textures at slot 0, and one workgroup per pixel.
    pub fn run_compute_pass(&self, width: u32, height: u32) -> (commands: Vec<ComputeCommand>)
        ensures
            commands@ == compute_pass_commands(width, height),
    {
        let mut commands: Vec<ComputeCommand> = Vec::new();
        commands.push(ComputeCommand::SetPipeline);
        commands.push(
            ComputeCommand::SetBindGroup { slot: 0, group: BindGroupLayoutKind::ComputePingPong },
        );
        commands.push(ComputeCommand::DispatchWorkgroups { x: width, y: height, z: 1 });
        assert(commands@ =~= compute_pass_commands(width, height));
        commands
    }
}

/// A reload whose build failed leaves the active pass exactly as it was and
/// surfaces the compile error; one whose build succeeded installs a pass that
/// holds the new pipeline and records exactly the modification time of the
/// new shader, after which a source no newer than that shader finds the pass
/// up to date.
pub proof fn law_reload_outcome<M, P>(
    active: PostProcessRP<P>,
    request: RecompileRequest,
    built: Result<(CompiledShader<M>, P), ShaderCompileError>,
    source_time: u64,
)
    ensures
        built matches Err(error) ==> request.spec_finish(built).spec_installed(active) == active
            && request.spec_finish(built).spec_error() == Some(error),
        built matches Ok((shader, compute_pipeline)) ==> request.spec_finish(built).spec_installed(
            active,
        )@ == (PostProcessRPView {
            compute_pipeline,
            shader_modification_time: shader.last_write_time,
        }) && request.spec_finish(built).spec_error() is None && (source_time
            <= shader.last_write_time ==> request.spec_finish(built).spec_installed(
            active,
        ).spec_try_recompile_shader(source_time) is AlreadyUpToDate),
{
}

/// The binds that the pass records match its pipeline layout one for one,
/// whatever the output dimensions.
pub proof fn law_compute_pass_matches_pipeline_layout(width: u32, height: u32)
    ensures
        commands_match_layout(compute_pass_commands(width, height), bind_group_layouts()),
{
    let commands = compute_pass_commands(width, height);
    let layout = bind_group_layouts();
    assert forall|i: int| 0 <= i < commands.len() implies bind_agrees(
        #[trigger] commands[i],
        layout,
    ) by {}
    assert forall|s: int| 0 <= s < layout.len() implies #[trigger] slot_is_bound(commands, s) by {
        assert(binds_slot(commands[1], s));
    }
}

} // verus!
