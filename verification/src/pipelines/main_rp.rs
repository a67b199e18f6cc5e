//! The lighting resolve: a compute pass that reads the g-buffer, the shadow
//! depth texture and the light and camera uniforms, and writes the lit
//! output, one workgroup per output pixel.

use vstd::prelude::*;
use crate::bind_group_layout_descriptors::BindGroupLayoutKind;
use crate::pipelines::compute_commands::{
    bind_agrees, binds_slot, commands_match_layout, slot_is_bound, ComputeCommand,
    ComputePipelineDescriptor, PipelineLayoutDescriptor,
};
use crate::pipelines::render_pipeline_base::{
    reload_decision, spec_reload_decision, ReloadDecision,
};
use crate::pipelines::shader_compilation_result::{
    CompiledShader, PipelineConstructionError, PipelineRecreationResult, ShaderCompileError,
};

verus! {

/// The resource that holds the shader source of the pass.
pub const SHADER_SOURCE: &'static str = "src/shaders/main.wgsl";

/// The entry point of the shader.
pub const ENTRY_POINT: &'static str = "cs_main";

pub const PIPELINE_LAYOUT_LABEL: &'static str = "Main Render Pipeline Layout";

pub const PIPELINE_LABEL: &'static str = "Compute pipeline that does the lighting from the gbuffer";

/// The bind-group layouts of the pass in slot order.
pub open spec fn bind_group_layouts() -> Seq<BindGroupLayoutKind> {
    seq![
        BindGroupLayoutKind::Light,
        BindGroupLayoutKind::Camera,
        BindGroupLayoutKind::GBuffer,
        BindGroupLayoutKind::ShadowDepthTexture,
        BindGroupLayoutKind::ComputePingPong,
    ]
}

/// The commands the pass records for an output of `width` by `height`.
pub open spec fn render_commands(width: u32, height: u32) -> Seq<ComputeCommand> {
    seq![
        ComputeCommand::SetPipeline,
        ComputeCommand::SetBindGroup { slot: 1, group: BindGroupLayoutKind::Camera },
        ComputeCommand::SetBindGroup { slot: 0, group: BindGroupLayoutKind::Light },
        ComputeCommand::SetBindGroup { slot: 2, group: BindGroupLayoutKind::GBuffer },
        ComputeCommand::SetBindGroup { slot: 3, group: BindGroupLayoutKind::ShadowDepthTexture },
        ComputeCommand::SetBindGroup { slot: 4, group: BindGroupLayoutKind::ComputePingPong },
        ComputeCommand::DispatchWorkgroups { x: width, y: height, z: 1 },
    ]
}

/// The lighting pass. `P` is the caller's handle for a compute pipeline and
/// `F` its colour format. The three fields only ever change together, when
/// the whole pass is replaced.
#[derive(Debug, PartialEq, Eq)]
pub struct MainRP<P, F> {
    compute_pipeline: P,
    shader_modification_time: u64,
    color_format: F,
}

/// What a lighting pass holds.
pub struct MainRPView<P, F> {
    pub compute_pipeline: P,
    pub shader_modification_time: u64,
    pub color_format: F,
}

impl<P, F> View for MainRP<P, F> {
    type V = MainRPView<P, F>;

    closed spec fn view(&self) -> MainRPView<P, F> {
        MainRPView {
            compute_pipeline: self.compute_pipeline,
            shader_modification_time: self.shader_modification_time,
            color_format: self.color_format,
        }
    }
}

/// A rebuild that a lighting pass has asked for. It exists only as the
/// answer of `try_recompile_shader` and is used up by `finish`, so each
/// request is carried out once.
#[derive(Debug, PartialEq, Eq)]
pub struct RecompileRequest<F> {
    color_format: F,
}

impl<F: Copy> RecompileRequest<F> {
    /// The colour format captured when the pass was first constructed.
    pub closed spec fn spec_color_format(&self) -> F {
        self.color_format
    }

    #[verifier::when_used_as_spec(spec_color_format)]
    pub fn color_format(&self) -> (format: F)
        ensures
            format == self.spec_color_format(),
    {
        self.color_format
    }

    /// The source to compile.
    pub fn shader_source(&self) -> (source: &'static str)
        ensures
            source@ == SHADER_SOURCE@,
    {
        SHADER_SOURCE
    }

    /// The pipeline to build from the compiled shader.
    pub fn pipeline(&self) -> (descriptor: ComputePipelineDescriptor)
        ensures
            descriptor.label@ == PIPELINE_LABEL@,
            descriptor.entry_point@ == ENTRY_POINT@,
            descriptor.layout.label@ == PIPELINE_LAYOUT_LABEL@,
            descriptor.layout.bind_group_layouts@ == bind_group_layouts(),
    {
        create_render_pipeline(create_pipeline_layout())
    }

    /// The outcome of the reload, given what the build yielded.
    pub closed spec fn spec_finish<M, P>(
        self,
        built: Result<(CompiledShader<M>, P), ShaderCompileError>,
    ) -> PipelineRecreationResult<MainRP<P, F>> {
        match built {
            Ok((shader, compute_pipeline)) => PipelineRecreationResult::Success(
                MainRP {
                    compute_pipeline,
                    shader_modification_time: shader.last_write_time,
                    color_format: self.color_format,
                },
            ),
            Err(error) => PipelineRecreationResult::Failed(error),
        }
    }

    /// Ends the reload with what the caller's build yielded: the compiled
    /// shader and the pipeline built from it, or the compile error. A
    /// successful build gives a whole new pass with the colour format of the
    /// old one and the modification time of the new shader.
    pub fn finish<M, P>(
        self,
        built: Result<(CompiledShader<M>, P), ShaderCompileError>,
    ) -> (result: PipelineRecreationResult<MainRP<P, F>>)
        ensures
            result == self.spec_finish(built),
            match built {
                Ok((shader, compute_pipeline)) => result matches PipelineRecreationResult::Success(
                    pass,
                ) && pass@ == (MainRPView {
                    compute_pipeline,
                    shader_modification_time: shader.last_write_time,
                    color_format: self.spec_color_format(),
                }),
                Err(error) => result == PipelineRecreationResult::<MainRP<P, F>>::Failed(error),
            },
    {
        match built {
            Ok((shader, compute_pipeline)) => PipelineRecreationResult::Success(
                MainRP::new_internal(&shader, compute_pipeline, self.color_format),
            ),
            Err(error) => PipelineRecreationResult::Failed(error),
        }
    }
}

/// The pipeline layout of the pass.
pub fn create_pipeline_layout() -> (descriptor: PipelineLayoutDescriptor)
    ensures
        descriptor.label@ == PIPELINE_LAYOUT_LABEL@,
        descriptor.bind_group_layouts@ == bind_group_layouts(),
{
    let mut layouts: Vec<BindGroupLayoutKind> = Vec::new();
    layouts.push(BindGroupLayoutKind::Light);
    layouts.push(BindGroupLayoutKind::Camera);
    layouts.push(BindGroupLayoutKind::GBuffer);
    layouts.push(BindGroupLayoutKind::ShadowDepthTexture);
    layouts.push(BindGroupLayoutKind::ComputePingPong);
    assert(layouts@ =~= bind_group_layouts());
    PipelineLayoutDescriptor { label: PIPELINE_LAYOUT_LABEL, bind_group_layouts: layouts }
}

/// The compute pipeline of the pass over the given layout.
pub fn create_render_pipeline(layout: PipelineLayoutDescriptor) -> (descriptor:
    ComputePipelineDescriptor)
    ensures
        descriptor.label@ == PIPELINE_LABEL@,
        descriptor.entry_point@ == ENTRY_POINT@,
        descriptor.layout == layout,
{
    ComputePipelineDescriptor { label: PIPELINE_LABEL, layout, entry_point: ENTRY_POINT }
}

impl<P, F: Copy> MainRP<P, F> {
    /// The pass that a construction yields.
    pub closed spec fn spec_new<M>(
        built: Result<(CompiledShader<M>, P), ShaderCompileError>,
        color_format: F,
    ) -> Result<Self, PipelineConstructionError> {
        match built {
            Ok((shader, compute_pipeline)) => Ok(
                MainRP {
                    compute_pipeline,
                    shader_modification_time: shader.last_write_time,
                    color_format,
                },
            ),
            Err(error) => Err(PipelineConstructionError { source: error }),
        }
    }

    /// Constructs the pass from what the caller's build yielded. Construction
    /// is all or nothing: it fails exactly when the shader did not compile,
    /// and then wraps the compile error.
    pub fn new<M>(
        built: Result<(CompiledShader<M>, P), ShaderCompileError>,
        color_format: F,
    ) -> (result: Result<Self, PipelineConstructionError>)
        ensures
            result == Self::spec_new(built, color_format),
            match built {
                Ok((shader, compute_pipeline)) => result matches Ok(pass) && pass@ == (MainRPView {
                    compute_pipeline,
                    shader_modification_time: shader.last_write_time,
                    color_format,
                }),
                Err(error) => result == Err::<Self, PipelineConstructionError>(
                    PipelineConstructionError { source: error },
                ),
            },
    {
        match built {
            Ok((shader, compute_pipeline)) => Ok(
                Self::new_internal(&shader, compute_pipeline, color_format),
            ),
            Err(error) => Err(PipelineConstructionError { source: error }),
        }
    }

    /// Puts a pass together from a compiled shader and the pipeline built
    /// from it, recording the modification time of the shader.
    pub fn new_internal<M>(shader: &CompiledShader<M>, compute_pipeline: P, color_format: F) -> (pass:
        Self)
        ensures
            pass@ == (MainRPView {
                compute_pipeline,
                shader_modification_time: shader.last_write_time,
                color_format,
            }),
    {
        MainRP { compute_pipeline, shader_modification_time: shader.last_write_time, color_format }
    }

    /// The handle of the pipeline that is active.
    pub fn compute_pipeline(&self) -> (pipeline: &P)
        ensures
            *pipeline == self@.compute_pipeline,
    {
        &self.compute_pipeline
    }

    /// The modification time of the source the active pipeline was built from.
    pub fn shader_modification_time(&self) -> (time: u64)
        ensures
            time == self@.shader_modification_time,
    {
        self.shader_modification_time
    }

    /// The colour format the pass was constructed with.
    pub fn color_format(&self) -> (format: F)
        ensures
            format == self@.color_format,
    {
        self.color_format
    }

    /// The decision of a reload attempt.
    pub closed spec fn spec_try_recompile_shader(self, source_time: u64) -> ReloadDecision<
        RecompileRequest<F>,
    > {
        spec_reload_decision(
            self.shader_modification_time,
            source_time,
            RecompileRequest { color_format: self.color_format },
        )
    }

    /// Starts a reload attempt from the modification time just read from the
    /// source. Asks for a rebuild exactly when the source is strictly newer
    /// than what the pass was built from, and hands the rebuild the colour
    /// format of the pass. The pass itself is not touched.
    pub fn try_recompile_shader(&self, source_time: u64) -> (decision: ReloadDecision<
        RecompileRequest<F>,
    >)
        ensures
            decision == self.spec_try_recompile_shader(source_time),
            source_time <= self@.shader_modification_time ==> decision
                == ReloadDecision::<RecompileRequest<F>>::AlreadyUpToDate,
            source_time > self@.shader_modification_time ==> (decision matches ReloadDecision::Recompile(
                request,
            ) && request.spec_color_format() == self@.color_format),
    {
        reload_decision(
            self.shader_modification_time,
            source_time,
            RecompileRequest { color_format: self.color_format },
        )
    }

    /// Records the pass for an output of `width` by `height`: the pipeline,
    /// the five bind groups at their slots, and one workgroup per pixel.
    pub fn render(&self, width: u32, height: u32) -> (commands: Vec<ComputeCommand>)
        ensures
            commands@ == render_commands(width, height),
    {
        let mut commands: Vec<ComputeCommand> = Vec::new();
        commands.push(ComputeCommand::SetPipeline);
        commands.push(ComputeCommand::SetBindGroup { slot: 1, group: BindGroupLayoutKind::Camera });
        commands.push(ComputeCommand::SetBindGroup { slot: 0, group: BindGroupLayoutKind::Light });
        commands.push(ComputeCommand::SetBindGroup { slot: 2, group: BindGroupLayoutKind::GBuffer });
        commands.push(
            ComputeCommand::SetBindGroup { slot: 3, group: BindGroupLayoutKind::ShadowDepthTexture },
        );
        commands.push(
            ComputeCommand::SetBindGroup { slot: 4, group: BindGroupLayoutKind::ComputePingPong },
        );
        commands.push(ComputeCommand::DispatchWorkgroups { x: width, y: height, z: 1 });
        assert(commands@ =~= render_commands(width, height));
        commands
    }
}

/// Every bind that `render` records names the bind group that the pipeline
/// layout declares at that slot, every slot of the layout is bound, and none
/// is bound twice, whatever the output dimensions.
pub proof fn law_render_matches_pipeline_layout(width: u32, height: u32)
    ensures
        commands_match_layout(render_commands(width, height), bind_group_layouts()),
{
    let commands = render_commands(width, height);
    let layout = bind_group_layouts();
    assert forall|i: int| 0 <= i < commands.len() implies bind_agrees(
        #[trigger] commands[i],
        layout,
    ) by {}
    assert forall|s: int| 0 <= s < layout.len() implies #[trigger] slot_is_bound(commands, s) by {
        let i: int = if s == 0 {
            2int
        } else if s == 1 {
            1int
        } else {
            s + 1
        };
        assert(binds_slot(commands[i], s));
    }
}

/// A reload attempt asks for a rebuild if and only if the source is strictly
/// newer than the recorded time; a source that is as old or older leaves the
/// attempt at `AlreadyUpToDate`. Asking never changes the pass, so one
/// attempt yields at most one request.
pub proof fn law_recompile_iff_strictly_newer<P, F: Copy>(pass: MainRP<P, F>, source_time: u64)
    ensures
        pass.spec_try_recompile_shader(source_time) is Recompile <==> source_time
            > pass@.shader_modification_time,
        pass.spec_try_recompile_shader(source_time) is AlreadyUpToDate <==> source_time
            <= pass@.shader_modification_time,
        pass.spec_try_recompile_shader(source_time) matches ReloadDecision::Recompile(request)
            ==> request.spec_color_format() == pass@.color_format,
{
}

/// A reload whose build failed leaves the active pass exactly as it was and
/// surfaces the compile error.
pub proof fn law_failed_reload_keeps_pass<M, P, F: Copy>(
    active: MainRP<P, F>,
    request: RecompileRequest<F>,
    error: ShaderCompileError,
)
    ensures
        request.spec_finish::<M, P>(Err(error)).spec_installed(active) == active,
        request.spec_finish::<M, P>(Err(error)).spec_error() == Some(error),
{
}

/// A reload whose build succeeded installs a pass that records exactly the
/// modification time of the new shader, holds the new pipeline, and keeps the
/// colour format that the request carried.
pub proof fn law_successful_reload_records_shader_time<M, P, F: Copy>(
    active: MainRP<P, F>,
    request: RecompileRequest<F>,
    shader: CompiledShader<M>,
    compute_pipeline: P,
)
    ensures
        request.spec_finish(Ok((shader, compute_pipeline))).spec_installed(active)@ == (MainRPView {
            compute_pipeline,
            shader_modification_time: shader.last_write_time,
            color_format: request.spec_color_format(),
        }),
        request.spec_finish(Ok((shader, compute_pipeline))).spec_error() is None,
{
}

/// Once a reload has installed a shader, a further attempt against a source
/// that is no newer than that shader finds the pass up to date.
pub proof fn law_reload_settles<M, P, F: Copy>(
    active: MainRP<P, F>,
    request: RecompileRequest<F>,
    shader: CompiledShader<M>,
    compute_pipeline: P,
    source_time: u64,
)
    requires
        source_time <= shader.last_write_time,
    ensures
        request.spec_finish(Ok((shader, compute_pipeline))).spec_installed(
            active,
        ).spec_try_recompile_shader(source_time) is AlreadyUpToDate,
{
}

/// A pass is determined by what it holds.
pub proof fn law_view_determines_pass<P, F>(a: MainRP<P, F>, b: MainRP<P, F>)
    requires
        a@ == b@,
    ensures
        a == b,
{
}

} // verus!
