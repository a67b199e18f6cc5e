//! Frame orchestration: the order in which the passes of a frame are
//! recorded, the intermediate render targets that carry data from pass to
//! pass, and what a resize rebuilds.

use vstd::prelude::*;
use crate::bind_group_layout_descriptors::BindGroupLayoutKind;
use crate::pipelines::compute_commands::{commands_match_layout, ComputeCommand};
use crate::pipelines::main_rp;
use crate::pipelines::main_rp::MainRP;
use crate::pipelines::post_process_rp;
use crate::pipelines::post_process_rp::PostProcessRP;
use crate::pipelines::shader_compilation_result::{PipelineRecreationResult, ShaderCompileError};
use crate::post_process_manager::PostProcessManager;

verus! {

/// Dimensions of the output surface in pixels.
#[derive(Clone, Copy, Debug, PartialEq, Eq, Structural)]
pub struct SurfaceSize {
    pub width: u32,
    pub height: u32,
}

/// An intermediate render target: the textures behind one bind group,
/// built for an output of `width` by `height`.
#[derive(Clone, Copy, Debug, PartialEq, Eq, Structural)]
pub struct IntermediateTarget {
    pub kind: BindGroupLayoutKind,
    pub width: u32,
    pub height: u32,
}

/// The intermediate render targets of an output of the given size: the
/// g-buffer, the shadow map and the ping-pong textures.
pub open spec fn intermediate_targets(size: SurfaceSize) -> Seq<IntermediateTarget> {
    seq![
        IntermediateTarget {
            kind: BindGroupLayoutKind::GBuffer,
            width: size.width,
            height: size.height,
        },
        IntermediateTarget {
            kind: BindGroupLayoutKind::ShadowDepthTexture,
            width: size.width,
            height: size.height,
        },
        IntermediateTarget {
            kind: BindGroupLayoutKind::ComputePingPong,
            width: size.width,
            height: size.height,
        },
    ]
}

/// The passes of a frame.
#[derive(Clone, Copy, Debug, PartialEq, Eq, Structural)]
pub enum PassId {
    /// Fills the g-buffer.
    GBufferGeometry,
    /// Writes the shadow depth texture.
    Shadow,
    /// The lighting resolve.
    Main,
    /// Composites the background.
    Skybox,
    /// The final compute pass.
    PostProcess,
}

impl PassId {
    /// Place of the pass in the recording order of a frame, from 0.
    pub open spec fn position(self) -> nat {
        match self {
            PassId::GBufferGeometry => 0,
            PassId::Shadow => 1,
            PassId::Main => 2,
            PassId::Skybox => 3,
            PassId::PostProcess => 4,
        }
    }

    /// The pass that has to be recorded before this one.
    pub open spec fn spec_dependency(self) -> Option<PassId> {
        match self {
            PassId::GBufferGeometry => None,
            PassId::Shadow => Some(PassId::GBufferGeometry),
            PassId::Main => Some(PassId::Shadow),
            PassId::Skybox => Some(PassId::Main),
            PassId::PostProcess => Some(PassId::Skybox),
        }
    }

    #[verifier::when_used_as_spec(spec_dependency)]
    pub fn dependency(self) -> (dependency: Option<PassId>)
        ensures
            dependency == self.spec_dependency(),
    {
        match self {
            PassId::GBufferGeometry => None,
            PassId::Shadow => Some(PassId::GBufferGeometry),
            PassId::Main => Some(PassId::Shadow),
            PassId::Skybox => Some(PassId::Main),
            PassId::PostProcess => Some(PassId::Skybox),
        }
    }

    /// The intermediate target that the pass fills, if it fills one.
    pub open spec fn spec_produces(self) -> Option<BindGroupLayoutKind> {
        match self {
            PassId::GBufferGeometry => Some(BindGroupLayoutKind::GBuffer),
            PassId::Shadow => Some(BindGroupLayoutKind::ShadowDepthTexture),
            PassId::Main => Some(BindGroupLayoutKind::ComputePingPong),
            PassId::Skybox => None,
            PassId::PostProcess => None,
        }
    }

    #[verifier::when_used_as_spec(spec_produces)]
    pub fn produces(self) -> (target: Option<BindGroupLayoutKind>)
        ensures
            target == self.spec_produces(),
    {
        match self {
            PassId::GBufferGeometry => Some(BindGroupLayoutKind::GBuffer),
            PassId::Shadow => Some(BindGroupLayoutKind::ShadowDepthTexture),
            PassId::Main => Some(BindGroupLayoutKind::ComputePingPong),
            PassId::Skybox => None,
            PassId::PostProcess => None,
        }
    }

    /// The bind groups that a compute pass binds, in slot order. The raster
    /// passes bind theirs outside this crate and have none here.
    pub open spec fn bind_group_layouts(self) -> Seq<BindGroupLayoutKind> {
        match self {
            PassId::Main => main_rp::bind_group_layouts(),
            PassId::PostProcess => post_process_rp::bind_group_layouts(),
            _ => Seq::empty(),
        }
    }
}

/// Where the recording of a frame stands.
#[derive(Clone, Copy, Debug, PartialEq, Eq, Structural)]
pub enum FrameState {
    Idle,
    GeometryPass,
    ShadowPass,
    LightingCompute,
    SkyboxPass,
    PostProcessPass,
    Submitted,
}

impl FrameState {
    /// Place of the state in the cycle of a frame, from 0 for `Idle`.
    pub open spec fn ordinal(self) -> nat {
        match self {
            FrameState::Idle => 0,
            FrameState::GeometryPass => 1,
            FrameState::ShadowPass => 2,
            FrameState::LightingCompute => 3,
            FrameState::SkyboxPass => 4,
            FrameState::PostProcessPass => 5,
            FrameState::Submitted => 6,
        }
    }

    /// The state that follows.
    pub open spec fn spec_next(self) -> FrameState {
        match self {
            FrameState::Idle => FrameState::GeometryPass,
            FrameState::GeometryPass => FrameState::ShadowPass,
            FrameState::ShadowPass => FrameState::LightingCompute,
            FrameState::LightingCompute => FrameState::SkyboxPass,
            FrameState::SkyboxPass => FrameState::PostProcessPass,
            FrameState::PostProcessPass => FrameState::Submitted,
            FrameState::Submitted => FrameState::Idle,
        }
    }

    /// The only transition out of a state.
    #[verifier::when_used_as_spec(spec_next)]
    pub fn next(self) -> (next: FrameState)
        ensures
            next == self.spec_next(),
    {
        match self {
            FrameState::Idle => FrameState::GeometryPass,
            FrameState::GeometryPass => FrameState::ShadowPass,
            FrameState::ShadowPass => FrameState::LightingCompute,
            FrameState::LightingCompute => FrameState::SkyboxPass,
            FrameState::SkyboxPass => FrameState::PostProcessPass,
            FrameState::PostProcessPass => FrameState::Submitted,
            FrameState::Submitted => FrameState::Idle,
        }
    }

    /// The pass that is recorded on entering the state.
    pub open spec fn spec_pass(self) -> Option<PassId> {
        match self {
            FrameState::GeometryPass => Some(PassId::GBufferGeometry),
            FrameState::ShadowPass => Some(PassId::Shadow),
            FrameState::LightingCompute => Some(PassId::Main),
            FrameState::SkyboxPass => Some(PassId::Skybox),
            FrameState::PostProcessPass => Some(PassId::PostProcess),
            _ => None,
        }
    }

    #[verifier::when_used_as_spec(spec_pass)]
    pub fn pass(self) -> (pass: Option<PassId>)
        ensures
            pass == self.spec_pass(),
    {
        match self {
            FrameState::GeometryPass => Some(PassId::GBufferGeometry),
            FrameState::ShadowPass => Some(PassId::Shadow),
            FrameState::LightingCompute => Some(PassId::Main),
            FrameState::SkyboxPass => Some(PassId::Skybox),
            FrameState::PostProcessPass => Some(PassId::PostProcess),
            _ => None,
        }
    }
}

/// One step of the recording of a frame, for the caller to carry out.
#[derive(Debug, PartialEq, Eq)]
pub enum FrameAction {
    /// Write the camera and light uniform buffers. It is no step of the
    /// recording itself: a redraw puts it before the recording, so that the
    /// writes are queued before anything that reads them is submitted.
    UpdateUniforms,
    /// Check the shader source of each pass and swap in the passes that were
    /// rebuilt. It opens a frame, so that no pass is replaced between the
    /// recording of two passes.
    ReloadShaders,
    /// Build every intermediate render target anew, each with its bind
    /// group. It comes before the recording of a frame whose targets were
    /// built for another size, or not yet at all.
    RebuildTargets { targets: Vec<IntermediateTarget> },
    /// Record the raster pass.
    RecordRenderPass { pass: PassId },
    /// Record a compute pass that holds these commands.
    RecordComputePass { pass: PassId, commands: Vec<ComputeCommand> },
    /// Submit what was recorded.
    Submit,
}

/// A step of a frame with its commands as a sequence.
pub enum FrameActionView {
    UpdateUniforms,
    ReloadShaders,
    RebuildTargets { targets: Seq<IntermediateTarget> },
    RecordRenderPass { pass: PassId },
    RecordComputePass { pass: PassId, commands: Seq<ComputeCommand> },
    Submit,
}

impl View for FrameAction {
    type V = FrameActionView;

    open spec fn view(&self) -> FrameActionView {
        match *self {
            FrameAction::UpdateUniforms => FrameActionView::UpdateUniforms,
            FrameAction::ReloadShaders => FrameActionView::ReloadShaders,
            FrameAction::RebuildTargets { targets } => FrameActionView::RebuildTargets {
                targets: targets@,
            },
            FrameAction::RecordRenderPass { pass } => FrameActionView::RecordRenderPass { pass },
            FrameAction::RecordComputePass { pass, commands } => FrameActionView::RecordComputePass {
                pass,
                commands: commands@,
            },
            FrameAction::Submit => FrameActionView::Submit,
        }
    }
}

/// The pass that a step records, if it records one.
pub open spec fn recorded_pass(action: FrameActionView) -> Option<PassId> {
    match action {
        FrameActionView::RecordRenderPass { pass } => Some(pass),
        FrameActionView::RecordComputePass { pass, .. } => Some(pass),
        _ => None,
    }
}

/// The steps of a list of actions.
pub open spec fn action_views(actions: Seq<FrameAction>) -> Seq<FrameActionView> {
    actions.map_values(|action: FrameAction| action@)
}

/// The action that entering `state` calls for when the output has the
/// given size. Entering `Idle` calls for none.
pub open spec fn frame_action(state: FrameState, size: SurfaceSize) -> Option<FrameActionView> {
    match state {
        FrameState::Idle => None,
        FrameState::GeometryPass => Some(
            FrameActionView::RecordRenderPass { pass: PassId::GBufferGeometry },
        ),
        FrameState::ShadowPass => Some(FrameActionView::RecordRenderPass { pass: PassId::Shadow }),
        FrameState::LightingCompute => Some(
            FrameActionView::RecordComputePass {
                pass: PassId::Main,
                commands: main_rp::render_commands(size.width, size.height),
            },
        ),
        FrameState::SkyboxPass => Some(FrameActionView::RecordRenderPass { pass: PassId::Skybox }),
        FrameState::PostProcessPass => Some(
            FrameActionView::RecordComputePass {
                pass: PassId::PostProcess,
                commands: post_process_rp::compute_pass_commands(size.width, size.height),
            },
        ),
        FrameState::Submitted => Some(FrameActionView::Submit),
    }
}

/// The whole recording of a frame for an output of the given size.
pub open spec fn frame_actions(size: SurfaceSize) -> Seq<FrameActionView> {
    seq![
        FrameActionView::RecordRenderPass { pass: PassId::GBufferGeometry },
        FrameActionView::RecordRenderPass { pass: PassId::Shadow },
        FrameActionView::RecordComputePass {
            pass: PassId::Main,
            commands: main_rp::render_commands(size.width, size.height),
        },
        FrameActionView::RecordRenderPass { pass: PassId::Skybox },
        FrameActionView::RecordComputePass {
            pass: PassId::PostProcess,
            commands: post_process_rp::compute_pass_commands(size.width, size.height),
        },
        FrameActionView::Submit,
    ]
}

/// What has to be done to the intermediate render targets before a frame is
/// recorded for an output of `size`: nothing if they were built for that
/// size, and else all of them are built anew.
pub open spec fn rebuild_actions(size: SurfaceSize, targets_size: Option<SurfaceSize>) -> Seq<
    FrameActionView,
> {
    if targets_size == Some(size) {
        Seq::empty()
    } else {
        seq![FrameActionView::RebuildTargets { targets: intermediate_targets(size) }]
    }
}

/// What rendering one frame does, in order: the shaders are checked, the
/// targets are brought up to the size of the output, then the frame is
/// recorded and submitted.
pub open spec fn render_actions(size: SurfaceSize, targets_size: Option<SurfaceSize>) -> Seq<
    FrameActionView,
> {
    seq![FrameActionView::ReloadShaders] + rebuild_actions(size, targets_size) + frame_actions(size)
}

/// The frame orchestrator. It owns the two compute passes, knows the size
/// of the output, and keeps track of the size that the intermediate render
/// targets were last built for.
#[derive(Debug, PartialEq, Eq)]
pub struct Renderer<P, F> {
    pub size: SurfaceSize,
    /// The size that the intermediate render targets were built for; `None`
    /// while none were built.
    pub targets_size: Option<SurfaceSize>,
    pub should_draw_gui: bool,
    pub main_rp: MainRP<P, F>,
    pub post_process_manager: PostProcessManager<P>,
}

impl<P, F: Copy> Renderer<P, F> {
    /// A renderer for an output of `size` whose intermediate render targets
    /// are yet to be built.
    pub fn new(
        size: SurfaceSize,
        should_draw_gui: bool,
        main_rp: MainRP<P, F>,
        post_process_manager: PostProcessManager<P>,
    ) -> (renderer: Self)
        ensures
            renderer == (Renderer {
                size,
                targets_size: None,
                should_draw_gui,
                main_rp,
                post_process_manager,
            }),
    {
        Renderer { size, targets_size: None, should_draw_gui, main_rp, post_process_manager }
    }

    /// The intermediate render targets are built for the size of the output.
    pub open spec fn spec_targets_are_current(&self) -> bool {
        self.targets_size == Some(self.size)
    }

    #[verifier::when_used_as_spec(spec_targets_are_current)]
    pub fn targets_are_current(&self) -> (current: bool)
        ensures
            current == self.spec_targets_are_current(),
    {
        match self.targets_size {
            Some(built_for) => built_for == self.size,
            None => false,
        }
    }

    /// The intermediate render targets that the current size calls for.
    pub fn targets(&self) -> (targets: Vec<IntermediateTarget>)
        ensures
            targets@ == intermediate_targets(self.size),
    {
        let mut targets: Vec<IntermediateTarget> = Vec::new();
        targets.push(
            IntermediateTarget {
                kind: BindGroupLayoutKind::GBuffer,
                width: self.size.width,
                height: self.size.height,
            },
        );
        targets.push(
            IntermediateTarget {
                kind: BindGroupLayoutKind::ShadowDepthTexture,
                width: self.size.width,
                height: self.size.height,
            },
        );
        targets.push(
            IntermediateTarget {
                kind: BindGroupLayoutKind::ComputePingPong,
                width: self.size.width,
                height: self.size.height,
            },
        );
        assert(targets@ =~= intermediate_targets(self.size));
        targets
    }

    /// Takes on a new output size. Nothing is built here: the targets stay
    /// as they are until the next frame, which rebuilds them if the size is
    /// then another than the one they were built for. The pipelines do not
    /// depend on the size and stay as they are.
    pub fn resize(&mut self, new_size: SurfaceSize)
        ensures
            *final(self) == (Renderer { size: new_size, ..*old(self) }),
    {
        self.size = new_size;
    }

    /// Switches the debug overlay on or off.
    pub fn toggle_should_draw_gui(&mut self)
        ensures
            *final(self) == (Renderer { should_draw_gui: !old(self).should_draw_gui, ..*old(self) }),
    {
        self.should_draw_gui = !self.should_draw_gui;
    }

    /// Applies the outcome of a reload attempt to the lighting pass. Only a
    /// rebuilt pass replaces the active one; a failed or needless attempt
    /// leaves the renderer exactly as it was. Returns the compile error for
    /// the caller to report.
    pub fn reload_main_rp(&mut self, result: PipelineRecreationResult<MainRP<P, F>>) -> (error:
        Option<ShaderCompileError>)
        ensures
            *final(self) == (Renderer {
                main_rp: result.spec_installed(old(self).main_rp),
                ..*old(self)
            }),
            error == result.spec_error(),
    {
        result.install(&mut self.main_rp)
    }

    /// Applies the outcome of a reload attempt to the post-process pass, in
    /// the same way.
    pub fn reload_post_process(
        &mut self,
        result: PipelineRecreationResult<PostProcessRP<P>>,
    ) -> (error: Option<ShaderCompileError>)
        ensures
            *final(self) == (Renderer {
                post_process_manager: PostProcessManager {
                    pipeline: result.spec_installed(old(self).post_process_manager.pipeline),
                },
                ..*old(self)
            }),
            error == result.spec_error(),
    {
        result.install(&mut self.post_process_manager.pipeline)
    }

    /// The action that entering `state` calls for.
    pub fn action(&self, state: FrameState) -> (action: Option<FrameAction>)
        ensures
            match action {
                Some(action) => frame_action(state, self.size) == Some(action@),
                None => frame_action(state, self.size) is None,
            },
    {
        match state {
            FrameState::Idle => None,
            FrameState::GeometryPass => Some(
                FrameAction::RecordRenderPass { pass: PassId::GBufferGeometry },
            ),
            FrameState::ShadowPass => Some(FrameAction::RecordRenderPass { pass: PassId::Shadow }),
            FrameState::LightingCompute => Some(
                FrameAction::RecordComputePass {
                    pass: PassId::Main,
                    commands: self.main_rp.render(self.size.width, self.size.height),
                },
            ),
            FrameState::SkyboxPass => Some(FrameAction::RecordRenderPass { pass: PassId::Skybox }),
            FrameState::PostProcessPass => Some(
                FrameAction::RecordComputePass {
                    pass: PassId::PostProcess,
                    commands: self.post_process_manager.render(self.size.width, self.size.height),
                },
            ),
            FrameState::Submitted => Some(FrameAction::Submit),
        }
    }

    /// Renders one frame. The shaders are checked first. If the intermediate
    /// render targets were not built for the current size, all of them are
    /// rebuilt next; then the frame is recorded and submitted. Afterwards the
    /// targets are current. The renderer itself does not touch the pipelines:
    /// the caller swaps them, on `ReloadShaders`, by `reload_main_rp` and
    /// `reload_post_process`.
    pub fn render(&mut self) -> (actions: Vec<FrameAction>)
        ensures
            action_views(actions@) == render_actions(old(self).size, old(self).targets_size),
            *final(self) == (Renderer { targets_size: Some(old(self).size), ..*old(self) }),
    {
        let mut actions: Vec<FrameAction> = Vec::new();
        actions.push(FrameAction::ReloadShaders);
        if !self.targets_are_current() {
            let targets = self.targets();
            actions.push(FrameAction::RebuildTargets { targets });
            self.targets_size = Some(self.size);
        }
        assert(action_views(actions@) =~= seq![FrameActionView::ReloadShaders] + rebuild_actions(
            old(self).size,
            old(self).targets_size,
        ));
        let ghost rebuild = actions@;
        let mut frame = self.record_frame();
        let ghost recorded = frame@;
        actions.append(&mut frame);
        assert(action_views(actions@) =~= action_views(rebuild) + action_views(recorded)) by {
            assert(actions@ =~= rebuild + recorded);
        }
        actions
    }

    /// Records one frame: walks the states from `Idle` round to `Idle` and
    /// collects the action of each state entered on the way.
    pub fn record_frame(&self) -> (actions: Vec<FrameAction>)
        ensures
            action_views(actions@) == frame_actions(self.size),
    {
        let mut actions: Vec<FrameAction> = Vec::new();
        let mut state = FrameState::Idle.next();
        assert(action_views(actions@) =~= frame_actions(self.size).take(0));
        loop
            invariant_except_break
                1 <= state.ordinal() <= 6,
                action_views(actions@) == frame_actions(self.size).take(state.ordinal() - 1),
            ensures
                action_views(actions@) == frame_actions(self.size),
            decreases 7 - state.ordinal(),
        {
            let ghost before = actions@;
            match self.action(state) {
                Some(action) => {
                    actions.push(action);
                    assert(action_views(actions@) =~= action_views(before).push(action@));
                    assert(frame_actions(self.size).take(state.ordinal() as int)
                        =~= frame_actions(self.size).take(state.ordinal() - 1).push(action@));
                },
                None => {},
            }
            state = state.next();
            if let FrameState::Idle = state {
                assert(frame_actions(self.size).take(6) =~= frame_actions(self.size));
                break ;
            }
        }
        actions
    }
}

/// The states of a frame form one cycle: each state has one successor, the
/// successor stands one place further on, and `Submitted` leads back to
/// `Idle`. Seven transitions from any state lead back to it.
pub proof fn law_frame_states_cycle(state: FrameState)
    ensures
        state.spec_next().ordinal() == (state.ordinal() + 1) % 7,
        state.spec_next().spec_next().spec_next().spec_next().spec_next().spec_next().spec_next()
            == state,
{
}

/// The state is determined by its place in the cycle.
pub proof fn law_frame_state_by_ordinal(a: FrameState, b: FrameState)
    requires
        a.ordinal() == b.ordinal(),
    ensures
        a == b,
{
}

/// The recording of a frame is the actions of the states after `Idle`, in
/// the order of the cycle.
pub proof fn law_frame_actions_follow_states(state: FrameState, size: SurfaceSize)
    ensures
        frame_actions(size).len() == 6,
        state is Idle ==> frame_action(state, size) is None,
        !(state is Idle) ==> frame_action(state, size) == Some(
            frame_actions(size)[state.ordinal() - 1],
        ),
{
}

/// The passes are recorded in the order of their places, each on entering
/// its own state: the state that records a pass stands one place after the
/// place of the pass.
pub proof fn law_pass_recorded_in_its_state(state: FrameState, pass: PassId, size: SurfaceSize)
    requires
        state.spec_pass() == Some(pass),
    ensures
        state.ordinal() == pass.position() + 1,
        frame_action(state, size) matches Some(action) && recorded_pass(action) == Some(pass),
{
}

/// No pass is recorded before the pass it depends on: the dependency stands
/// at the place just before.
pub proof fn law_dependency_is_recorded_first(pass: PassId)
    ensures
        pass.spec_dependency() matches Some(dependency) ==> dependency.position() + 1
            == pass.position(),
        pass.spec_dependency() is None <==> pass.position() == 0,
{
}

/// An intermediate target that a compute pass binds and another pass fills
/// was filled earlier in the frame: the lighting pass finds the g-buffer and
/// the shadow map written, and the post-process pass the lit output.
pub proof fn law_bound_targets_are_filled_first(consumer: PassId, producer: PassId, slot: int)
    requires
        0 <= slot < consumer.bind_group_layouts().len(),
        producer.spec_produces() == Some(consumer.bind_group_layouts()[slot]),
        producer != consumer,
    ensures
        producer.position() < consumer.position(),
{
}

/// The compute commands of a frame bind what the layouts of their pipelines
/// declare, whatever the size of the output.
pub proof fn law_frame_binds_match_layouts(state: FrameState, size: SurfaceSize)
    ensures
        frame_action(state, size) matches Some(
            FrameActionView::RecordComputePass { pass, commands },
        ) ==> commands_match_layout(commands, pass.bind_group_layouts()),
{
    main_rp::law_render_matches_pipeline_layout(size.width, size.height);
    post_process_rp::law_compute_pass_matches_pipeline_layout(size.width, size.height);
}

/// Every intermediate target is built for the size it was asked for, and
/// there is one for each bind group that is backed by textures.
pub proof fn law_targets_follow_size(size: SurfaceSize, i: int)
    requires
        0 <= i < intermediate_targets(size).len(),
    ensures
        intermediate_targets(size)[i].width == size.width,
        intermediate_targets(size)[i].height == size.height,
        intermediate_targets(size)[i].kind.spec_is_intermediate_texture(),
        forall|j: int|
            0 <= j < intermediate_targets(size).len() && j != i ==> intermediate_targets(size)[j].kind
                != intermediate_targets(size)[i].kind,
{
}

/// A frame opens with the check of the shaders, and no other action of it
/// is one. When the targets are not current, all of them are rebuilt for the
/// size of the output right after; when they are, nothing is rebuilt. Every
/// pass comes after both, in the order of the recording, and the submission
/// closes the frame.
pub proof fn law_render_order(size: SurfaceSize, targets_size: Option<SurfaceSize>, i: int)
    requires
        0 <= i < render_actions(size, targets_size).len(),
    ensures
        render_actions(size, targets_size).len() == if targets_size == Some(size) {
            7int
        } else {
            8int
        },
        render_actions(size, targets_size)[i] is ReloadShaders <==> i == 0,
        render_actions(size, targets_size)[i] is RebuildTargets <==> i == 1 && targets_size != Some(
            size,
        ),
        render_actions(size, targets_size)[i] is RebuildTargets ==> render_actions(
            size,
            targets_size,
        )[i] == (FrameActionView::RebuildTargets { targets: intermediate_targets(size) }),
        !(render_actions(size, targets_size)[i] is UpdateUniforms),
        i >= render_actions(size, targets_size).len() - 6 ==> render_actions(size, targets_size)[i]
            == frame_actions(size)[i - (render_actions(size, targets_size).len() - 6)],
        recorded_pass(render_actions(size, targets_size)[i]) matches Some(pass) ==> i
            == render_actions(size, targets_size).len() - 6 + pass.position(),
        render_actions(size, targets_size)[i] is Submit <==> i == render_actions(
            size,
            targets_size,
        ).len() - 1,
{
}

} // verus!
