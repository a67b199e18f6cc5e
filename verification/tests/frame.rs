use deferred_renderer::bind_group_layout_descriptors::BindGroupLayoutKind;
use deferred_renderer::pipelines::compute_commands::{check_commands_match_layout, ComputeCommand};
use deferred_renderer::pipelines::main_rp::{create_pipeline_layout, MainRP};
use deferred_renderer::pipelines::render_pipeline_base::ReloadDecision;
use deferred_renderer::pipelines::shader_compilation_result::{
    CompiledShader, PipelineRecreationResult, ShaderCompileError,
};
use deferred_renderer::post_process_manager::PostProcessManager;
use deferred_renderer::renderer::{
    FrameAction, FrameState, IntermediateTarget, PassId, Renderer, SurfaceSize,
};

const PASSES: [PassId; 5] =
    [PassId::GBufferGeometry, PassId::Shadow, PassId::Main, PassId::Skybox, PassId::PostProcess];

const STATES: [FrameState; 7] = [
    FrameState::Idle,
    FrameState::GeometryPass,
    FrameState::ShadowPass,
    FrameState::LightingCompute,
    FrameState::SkyboxPass,
    FrameState::PostProcessPass,
    FrameState::Submitted,
];

fn renderer(width: u32, height: u32) -> Renderer<u32, u8> {
    let main_rp =
        MainRP::new(Ok((CompiledShader { shader_module: (), last_write_time: 10 }, 1u32)), 5u8)
            .unwrap();
    let post_process_manager =
        PostProcessManager::new(Ok((CompiledShader { shader_module: (), last_write_time: 20 }, 2u32)));
    Renderer::new(SurfaceSize { width, height }, true, main_rp, post_process_manager)
}

fn recorded_pass(action: &FrameAction) -> Option<PassId> {
    match action {
        FrameAction::RecordRenderPass { pass } => Some(*pass),
        FrameAction::RecordComputePass { pass, .. } => Some(*pass),
        _ => None,
    }
}

#[test]
fn states_follow_one_another_in_a_cycle() {
    for (i, state) in STATES.iter().enumerate() {
        assert_eq!(state.next(), STATES[(i + 1) % 7]);
    }
    let mut state = FrameState::Idle;
    for _ in 0..7 {
        state = state.next();
    }
    assert_eq!(state, FrameState::Idle);
}

#[test]
fn each_state_records_its_pass() {
    assert_eq!(FrameState::Idle.pass(), None);
    assert_eq!(FrameState::GeometryPass.pass(), Some(PassId::GBufferGeometry));
    assert_eq!(FrameState::ShadowPass.pass(), Some(PassId::Shadow));
    assert_eq!(FrameState::LightingCompute.pass(), Some(PassId::Main));
    assert_eq!(FrameState::SkyboxPass.pass(), Some(PassId::Skybox));
    assert_eq!(FrameState::PostProcessPass.pass(), Some(PassId::PostProcess));
    assert_eq!(FrameState::Submitted.pass(), None);
}

#[test]
fn each_pass_depends_on_the_one_before() {
    assert_eq!(PassId::GBufferGeometry.dependency(), None);
    assert_eq!(PassId::Shadow.dependency(), Some(PassId::GBufferGeometry));
    assert_eq!(PassId::Main.dependency(), Some(PassId::Shadow));
    assert_eq!(PassId::Skybox.dependency(), Some(PassId::Main));
    assert_eq!(PassId::PostProcess.dependency(), Some(PassId::Skybox));
}

#[test]
fn passes_fill_their_targets() {
    assert_eq!(PassId::GBufferGeometry.produces(), Some(BindGroupLayoutKind::GBuffer));
    assert_eq!(PassId::Shadow.produces(), Some(BindGroupLayoutKind::ShadowDepthTexture));
    assert_eq!(PassId::Main.produces(), Some(BindGroupLayoutKind::ComputePingPong));
    assert_eq!(PassId::Skybox.produces(), None);
    assert_eq!(PassId::PostProcess.produces(), None);
}

#[test]
fn frame_is_recorded_in_dependency_order() {
    let renderer = renderer(1280, 720);
    let actions = renderer.record_frame();
    assert_eq!(
        actions,
        vec![
            FrameAction::RecordRenderPass { pass: PassId::GBufferGeometry },
            FrameAction::RecordRenderPass { pass: PassId::Shadow },
            FrameAction::RecordComputePass {
                pass: PassId::Main,
                commands: renderer.main_rp.render(1280, 720),
            },
            FrameAction::RecordRenderPass { pass: PassId::Skybox },
            FrameAction::RecordComputePass {
                pass: PassId::PostProcess,
                commands: renderer.post_process_manager.render(1280, 720),
            },
            FrameAction::Submit,
        ]
    );
    let recorded: Vec<PassId> = actions.iter().filter_map(recorded_pass).collect();
    assert_eq!(recorded, PASSES.to_vec());
    // Every pass comes after the pass it depends on.
    for (i, pass) in recorded.iter().enumerate() {
        if let Some(dependency) = pass.dependency() {
            assert!(recorded[..i].contains(&dependency));
        }
    }
}

#[test]
fn lighting_finds_gbuffer_and_shadow_map_written() {
    let recorded: Vec<PassId> = renderer(4, 4).render().iter().filter_map(recorded_pass).collect();
    assert_eq!(recorded.len(), 5);
    let at = |pass: PassId| recorded.iter().position(|p| *p == pass).unwrap();
    for group in create_pipeline_layout().bind_group_layouts {
        for producer in PASSES {
            if producer != PassId::Main && producer.produces() == Some(group) {
                assert!(at(producer) < at(PassId::Main));
            }
        }
    }
    assert!(at(PassId::GBufferGeometry) < at(PassId::Main));
    assert!(at(PassId::Shadow) < at(PassId::Main));
    assert!(at(PassId::Main) < at(PassId::PostProcess));
}

#[test]
fn compute_passes_dispatch_over_the_output_size() {
    let actions = renderer(333, 77).record_frame();
    match &actions[2] {
        FrameAction::RecordComputePass { pass, commands } => {
            assert_eq!(*pass, PassId::Main);
            assert_eq!(commands[6], ComputeCommand::DispatchWorkgroups { x: 333, y: 77, z: 1 });
            assert!(check_commands_match_layout(
                commands,
                &create_pipeline_layout().bind_group_layouts
            ));
        }
        other => panic!("expected the lighting pass, got {:?}", other),
    }
    match &actions[4] {
        FrameAction::RecordComputePass { pass, commands } => {
            assert_eq!(*pass, PassId::PostProcess);
            assert_eq!(commands[2], ComputeCommand::DispatchWorkgroups { x: 333, y: 77, z: 1 });
        }
        other => panic!("expected the post-process pass, got {:?}", other),
    }
}

#[test]
fn action_of_each_state_is_its_place_in_the_frame() {
    let renderer = renderer(16, 9);
    let actions = renderer.record_frame();
    assert_eq!(renderer.action(FrameState::Idle), None);
    for (i, state) in STATES.iter().enumerate().skip(1) {
        assert_eq!(renderer.action(*state).as_ref(), Some(&actions[i - 1]));
    }
    assert_eq!(renderer.action(FrameState::Submitted), Some(FrameAction::Submit));
}

#[test]
fn targets_are_built_for_the_output_size() {
    let renderer = renderer(1024, 768);
    assert_eq!(
        renderer.targets(),
        vec![
            IntermediateTarget { kind: BindGroupLayoutKind::GBuffer, width: 1024, height: 768 },
            IntermediateTarget {
                kind: BindGroupLayoutKind::ShadowDepthTexture,
                width: 1024,
                height: 768
            },
            IntermediateTarget {
                kind: BindGroupLayoutKind::ComputePingPong,
                width: 1024,
                height: 768
            },
        ]
    );
}

#[test]
fn first_frame_builds_the_targets() {
    let mut renderer = renderer(1024, 768);
    assert_eq!(renderer.targets_size, None);
    assert!(!renderer.targets_are_current());
    let targets = renderer.targets();
    let frame = renderer.record_frame();
    let actions = renderer.render();
    assert_eq!(actions.len(), 8);
    assert_eq!(actions[0], FrameAction::ReloadShaders);
    assert_eq!(actions[1], FrameAction::RebuildTargets { targets });
    assert_eq!(actions[2..], frame[..]);
    assert!(renderer.targets_are_current());
    assert_eq!(renderer.targets_size, Some(SurfaceSize { width: 1024, height: 768 }));
}

#[test]
fn later_frames_rebuild_nothing() {
    let mut renderer = renderer(1024, 768);
    renderer.render();
    let settled = renderer.targets_size;
    for _ in 0..3 {
        let actions = renderer.render();
        assert_eq!(actions[0], FrameAction::ReloadShaders);
        assert_eq!(actions[1..], renderer.record_frame()[..]);
        assert!(!actions.iter().any(|action| matches!(action, FrameAction::RebuildTargets { .. })));
        assert_eq!(renderer.targets_size, settled);
    }
}

#[test]
fn resize_makes_the_next_frame_rebuild_every_target() {
    let mut renderer = renderer(1024, 768);
    renderer.render();
    renderer.resize(SurfaceSize { width: 640, height: 480 });
    assert_eq!(renderer.size, SurfaceSize { width: 640, height: 480 });
    // Nothing was built yet for the new size.
    assert_eq!(renderer.targets_size, Some(SurfaceSize { width: 1024, height: 768 }));
    assert!(!renderer.targets_are_current());

    let actions = renderer.render();
    let expected = vec![
        IntermediateTarget { kind: BindGroupLayoutKind::GBuffer, width: 640, height: 480 },
        IntermediateTarget { kind: BindGroupLayoutKind::ShadowDepthTexture, width: 640, height: 480 },
        IntermediateTarget { kind: BindGroupLayoutKind::ComputePingPong, width: 640, height: 480 },
    ];
    assert_eq!(actions[0], FrameAction::ReloadShaders);
    assert_eq!(actions[1], FrameAction::RebuildTargets { targets: expected });
    // The rebuild comes before every pass.
    let rebuild_at = actions
        .iter()
        .position(|action| matches!(action, FrameAction::RebuildTargets { .. }))
        .unwrap();
    let first_pass_at = actions.iter().position(|action| recorded_pass(action).is_some()).unwrap();
    assert!(rebuild_at < first_pass_at);
    assert!(renderer.targets_are_current());

    // The pipelines are the ones from before.
    assert_eq!(*renderer.main_rp.compute_pipeline(), 1);
    assert_eq!(renderer.main_rp.shader_modification_time(), 10);
    assert_eq!(*renderer.post_process_manager.pipeline.compute_pipeline(), 2);
    assert!(renderer.should_draw_gui);
}

#[test]
fn renderer_resize_round_trip_without_a_frame_touches_nothing() {
    let mut resized = renderer(1024, 768);
    resized.render();
    let mut untouched = renderer(1024, 768);
    untouched.render();

    resized.resize(SurfaceSize { width: 31, height: 4000 });
    assert_ne!(resized.targets(), untouched.targets());
    resized.resize(SurfaceSize { width: 1024, height: 768 });
    assert_eq!(resized, untouched);
    assert_eq!(resized.targets(), untouched.targets());
    assert!(resized.targets_are_current());
    assert_eq!(resized.render()[1..], untouched.record_frame()[..]);
}

#[test]
fn renderer_resize_round_trip_with_frames_restores_the_targets() {
    let mut resized = renderer(1024, 768);
    resized.render();
    let targets = resized.targets();

    resized.resize(SurfaceSize { width: 31, height: 4000 });
    let there = resized.render();
    assert!(matches!(&there[1], FrameAction::RebuildTargets { targets } if targets[0].width == 31));
    resized.resize(SurfaceSize { width: 1024, height: 768 });
    let back = resized.render();
    assert_eq!(back[1], FrameAction::RebuildTargets { targets: targets.clone() });
    assert_eq!(resized.targets(), targets);

    let mut untouched = renderer(1024, 768);
    untouched.render();
    assert_eq!(resized, untouched);
}

#[test]
fn toggle_gui_flips_the_flag_only() {
    let mut toggled = renderer(8, 8);
    toggled.toggle_should_draw_gui();
    assert!(!toggled.should_draw_gui);
    toggled.toggle_should_draw_gui();
    assert_eq!(toggled, renderer(8, 8));
}

#[test]
fn renderer_reload_swaps_only_on_success() {
    let mut renderer = renderer(8, 8);

    let request = match renderer.main_rp.try_recompile_shader(11) {
        ReloadDecision::Recompile(request) => request,
        ReloadDecision::AlreadyUpToDate => panic!("a newer source has to be rebuilt"),
    };
    let failed = request.finish::<(), u32>(Err(ShaderCompileError { diagnostic: "bad".to_string() }));
    assert_eq!(
        renderer.reload_main_rp(failed),
        Some(ShaderCompileError { diagnostic: "bad".to_string() })
    );
    assert_eq!(*renderer.main_rp.compute_pipeline(), 1);
    assert_eq!(renderer.main_rp.shader_modification_time(), 10);

    assert_eq!(renderer.reload_main_rp(PipelineRecreationResult::AlreadyUpToDate), None);
    assert_eq!(*renderer.main_rp.compute_pipeline(), 1);

    let request = match renderer.main_rp.try_recompile_shader(12) {
        ReloadDecision::Recompile(request) => request,
        ReloadDecision::AlreadyUpToDate => panic!("a newer source has to be rebuilt"),
    };
    let rebuilt =
        request.finish(Ok((CompiledShader { shader_module: (), last_write_time: 12 }, 3u32)));
    assert_eq!(renderer.reload_main_rp(rebuilt), None);
    assert_eq!(*renderer.main_rp.compute_pipeline(), 3);
    assert_eq!(renderer.main_rp.shader_modification_time(), 12);
    assert_eq!(renderer.main_rp.color_format(), 5);
    assert_eq!(renderer.size, SurfaceSize { width: 8, height: 8 });
    assert_eq!(*renderer.post_process_manager.pipeline.compute_pipeline(), 2);
}

#[test]
fn shaders_are_checked_once_before_every_pass() {
    let mut renderer = renderer(64, 64);
    for _ in 0..2 {
        let actions = renderer.render();
        let checks: Vec<usize> = actions
            .iter()
            .enumerate()
            .filter(|(_, action)| **action == FrameAction::ReloadShaders)
            .map(|(at, _)| at)
            .collect();
        assert_eq!(checks, vec![0]);
        assert_eq!(actions.last(), Some(&FrameAction::Submit));
    }
}

#[test]
fn renderer_reloads_the_post_process_pass() {
    let mut renderer = renderer(8, 8);
    let request = match renderer.post_process_manager.pipeline.try_recompile_shader(21) {
        ReloadDecision::Recompile(request) => request,
        ReloadDecision::AlreadyUpToDate => panic!("a newer source has to be rebuilt"),
    };
    let failed = request.finish::<(), u32>(Err(ShaderCompileError { diagnostic: "bad".to_string() }));
    assert_eq!(
        renderer.reload_post_process(failed),
        Some(ShaderCompileError { diagnostic: "bad".to_string() })
    );
    assert_eq!(*renderer.post_process_manager.pipeline.compute_pipeline(), 2);
    assert_eq!(renderer.post_process_manager.pipeline.shader_modification_time(), 20);

    let request = match renderer.post_process_manager.pipeline.try_recompile_shader(21) {
        ReloadDecision::Recompile(request) => request,
        ReloadDecision::AlreadyUpToDate => panic!("a newer source has to be rebuilt"),
    };
    let rebuilt =
        request.finish(Ok((CompiledShader { shader_module: (), last_write_time: 21 }, 4u32)));
    assert_eq!(renderer.reload_post_process(rebuilt), None);
    assert_eq!(*renderer.post_process_manager.pipeline.compute_pipeline(), 4);
    assert_eq!(renderer.post_process_manager.pipeline.shader_modification_time(), 21);
    // The lighting pass and the size are as before.
    assert_eq!(*renderer.main_rp.compute_pipeline(), 1);
    assert_eq!(renderer.size, SurfaceSize { width: 8, height: 8 });
}
