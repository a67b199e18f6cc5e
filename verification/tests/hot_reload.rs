use deferred_renderer::pipelines::main_rp::{MainRP, SHADER_SOURCE};
use deferred_renderer::pipelines::post_process_rp;
use deferred_renderer::pipelines::post_process_rp::PostProcessRP;
use deferred_renderer::pipelines::render_pipeline_base::{
    need_recompile_shader, reload_decision, ReloadDecision,
};
use deferred_renderer::pipelines::shader_compilation_result::{
    CompiledShader, PipelineConstructionError, PipelineRecreationResult, ShaderCompileError,
};

/// Stand-ins for the handles of the device: a pipeline is a number, a shader
/// module a name, a colour format a tag.
type Pipeline = u32;
type Module = &'static str;
type Format = u8;

const BGRA8: Format = 17;

fn built(module: Module, time: u64, pipeline: Pipeline) -> Result<(CompiledShader<Module>, Pipeline), ShaderCompileError> {
    Ok((CompiledShader { shader_module: module, last_write_time: time }, pipeline))
}

fn broken(text: &str) -> Result<(CompiledShader<Module>, Pipeline), ShaderCompileError> {
    Err(ShaderCompileError { diagnostic: text.to_string() })
}

fn pass_at(time: u64, pipeline: Pipeline) -> MainRP<Pipeline, Format> {
    MainRP::new(built("main", time, pipeline), BGRA8).unwrap()
}

#[test]
fn need_recompile_only_when_strictly_newer() {
    assert!(need_recompile_shader(10, 11));
    assert!(!need_recompile_shader(10, 10));
    assert!(!need_recompile_shader(10, 9));
    assert!(!need_recompile_shader(0, 0));
    assert!(need_recompile_shader(0, 1));
    assert!(need_recompile_shader(u64::MAX - 1, u64::MAX));
    assert!(!need_recompile_shader(u64::MAX, u64::MAX));
    assert!(!need_recompile_shader(u64::MAX, 0));
}

#[test]
fn construction_records_shader_time_pipeline_and_format() {
    let pass = pass_at(1_700_000_000, 42);
    assert_eq!(pass.shader_modification_time(), 1_700_000_000);
    assert_eq!(*pass.compute_pipeline(), 42);
    assert_eq!(pass.color_format(), BGRA8);
}

#[test]
fn new_internal_takes_time_from_the_shader() {
    let shader = CompiledShader { shader_module: "m", last_write_time: 5 };
    let pass: MainRP<Pipeline, Format> = MainRP::new_internal(&shader, 8, 3);
    assert_eq!(pass.shader_modification_time(), 5);
    assert_eq!(*pass.compute_pipeline(), 8);
    assert_eq!(pass.color_format(), 3);
    // The shader is only read.
    assert_eq!(shader.last_write_time, 5);
}

#[test]
fn invalid_shader_at_construction_fails_without_a_pass() {
    let result: Result<MainRP<Pipeline, Format>, PipelineConstructionError> =
        MainRP::new(broken("error: expected ';', found '}'"), BGRA8);
    assert_eq!(
        result,
        Err(PipelineConstructionError {
            source: ShaderCompileError { diagnostic: "error: expected ';', found '}'".to_string() },
        })
    );
}

#[test]
fn unchanged_or_older_source_is_already_up_to_date() {
    let pass = pass_at(100, 1);
    assert_eq!(pass.try_recompile_shader(100), ReloadDecision::AlreadyUpToDate);
    assert_eq!(pass.try_recompile_shader(99), ReloadDecision::AlreadyUpToDate);
    assert_eq!(pass.try_recompile_shader(0), ReloadDecision::AlreadyUpToDate);
    // Asking does not change the pass.
    assert_eq!(pass, pass_at(100, 1));
}

#[test]
fn newer_source_asks_for_one_rebuild_with_the_captured_format() {
    let pass = pass_at(100, 1);
    match pass.try_recompile_shader(101) {
        ReloadDecision::Recompile(request) => {
            assert_eq!(request.color_format(), BGRA8);
            assert_eq!(request.shader_source(), "src/shaders/main.wgsl");
            assert_eq!(request.shader_source(), SHADER_SOURCE);
        }
        ReloadDecision::AlreadyUpToDate => panic!("a newer source has to be rebuilt"),
    }
}

#[test]
fn reload_scenario_up_to_date_then_success_after_touch() {
    let mut pass = pass_at(100, 1);
    let before = pass.shader_modification_time();

    // No change of the source.
    assert_eq!(pass.try_recompile_shader(100), ReloadDecision::AlreadyUpToDate);

    // The source is touched.
    let request = match pass.try_recompile_shader(250) {
        ReloadDecision::Recompile(request) => request,
        ReloadDecision::AlreadyUpToDate => panic!("a newer source has to be rebuilt"),
    };
    let result = request.finish(built("main", 250, 2));
    assert!(matches!(result, PipelineRecreationResult::Success(_)));
    let error = result.install(&mut pass);
    assert_eq!(error, None);
    assert_eq!(pass.shader_modification_time(), 250);
    assert!(pass.shader_modification_time() > before);
    assert_eq!(*pass.compute_pipeline(), 2);
    assert_eq!(pass.color_format(), BGRA8);

    // And the pass has settled.
    assert_eq!(pass.try_recompile_shader(250), ReloadDecision::AlreadyUpToDate);
}

#[test]
fn failed_reload_keeps_the_active_pass() {
    let mut pass = pass_at(100, 1);
    let request = match pass.try_recompile_shader(101) {
        ReloadDecision::Recompile(request) => request,
        ReloadDecision::AlreadyUpToDate => panic!("a newer source has to be rebuilt"),
    };
    let result: PipelineRecreationResult<MainRP<Pipeline, Format>> =
        request.finish(broken("unknown identifier 'colr'"));
    assert_eq!(
        result,
        PipelineRecreationResult::Failed(ShaderCompileError {
            diagnostic: "unknown identifier 'colr'".to_string()
        })
    );
    let error = result.install(&mut pass);
    assert_eq!(
        error,
        Some(ShaderCompileError { diagnostic: "unknown identifier 'colr'".to_string() })
    );
    assert_eq!(pass, pass_at(100, 1));
    assert_eq!(*pass.compute_pipeline(), 1);
    assert_eq!(pass.shader_modification_time(), 100);

    // The next attempt starts from scratch.
    assert!(matches!(pass.try_recompile_shader(101), ReloadDecision::Recompile(_)));
}

#[test]
fn successful_reload_records_exactly_the_time_of_the_new_shader() {
    // The time recorded is that of the compiled shader, also where the
    // source changed again between the check and the build.
    let pass = pass_at(100, 1);
    let request = match pass.try_recompile_shader(101) {
        ReloadDecision::Recompile(request) => request,
        ReloadDecision::AlreadyUpToDate => panic!("a newer source has to be rebuilt"),
    };
    match request.finish(built("main", 107, 9)) {
        PipelineRecreationResult::Success(rebuilt) => {
            assert_eq!(rebuilt.shader_modification_time(), 107);
            assert_eq!(*rebuilt.compute_pipeline(), 9);
            assert_eq!(rebuilt.color_format(), BGRA8);
        }
        other => panic!("expected a rebuilt pass, got {:?}", other),
    }
}

#[test]
fn install_already_up_to_date_changes_nothing() {
    let mut pass = pass_at(100, 1);
    let result: PipelineRecreationResult<MainRP<Pipeline, Format>> =
        PipelineRecreationResult::AlreadyUpToDate;
    assert_eq!(result.install(&mut pass), None);
    assert_eq!(pass, pass_at(100, 1));
}

#[test]
fn install_success_replaces_the_whole_pass() {
    let mut pass = pass_at(100, 1);
    let result = PipelineRecreationResult::Success(
        MainRP::new(built("main", 300, 4), 99u8).unwrap(),
    );
    assert_eq!(result.install(&mut pass), None);
    assert_eq!(pass.shader_modification_time(), 300);
    assert_eq!(*pass.compute_pipeline(), 4);
    assert_eq!(pass.color_format(), 99);
}

#[test]
fn reload_at_the_largest_time() {
    let pass = pass_at(u64::MAX, 1);
    assert_eq!(pass.try_recompile_shader(u64::MAX), ReloadDecision::AlreadyUpToDate);
    let pass = pass_at(u64::MAX - 1, 1);
    assert!(matches!(pass.try_recompile_shader(u64::MAX), ReloadDecision::Recompile(_)));
}

#[test]
fn reload_decision_hands_out_the_request_only_for_a_newer_source() {
    assert_eq!(reload_decision(10, 11, "request"), ReloadDecision::Recompile("request"));
    assert_eq!(reload_decision(10, 10, "request"), ReloadDecision::AlreadyUpToDate);
    assert_eq!(reload_decision(10, 0, "request"), ReloadDecision::AlreadyUpToDate);
    assert_eq!(reload_decision(u64::MAX, u64::MAX, 7), ReloadDecision::AlreadyUpToDate);
    assert_eq!(reload_decision(0, u64::MAX, 7), ReloadDecision::Recompile(7));
}

#[test]
fn post_process_reloads_like_the_lighting_pass() {
    let mut pass: PostProcessRP<Pipeline> = PostProcessRP::new(built("post", 40, 5)).unwrap();
    assert_eq!(pass.try_recompile_shader(40), ReloadDecision::AlreadyUpToDate);
    assert_eq!(pass.try_recompile_shader(39), ReloadDecision::AlreadyUpToDate);

    // A source that does not compile leaves the pass as it is.
    let request = match pass.try_recompile_shader(41) {
        ReloadDecision::Recompile(request) => request,
        ReloadDecision::AlreadyUpToDate => panic!("a newer source has to be rebuilt"),
    };
    assert_eq!(request.shader_source(), "src/shaders/post_process.wgsl");
    assert_eq!(request.shader_source(), post_process_rp::SHADER_SOURCE);
    assert_eq!(
        request.pipeline(),
        post_process_rp::create_compute_pipeline(post_process_rp::create_pipeline_layout())
    );
    let failed: PipelineRecreationResult<PostProcessRP<Pipeline>> =
        request.finish(broken("missing return"));
    assert_eq!(
        failed.install(&mut pass),
        Some(ShaderCompileError { diagnostic: "missing return".to_string() })
    );
    assert_eq!(*pass.compute_pipeline(), 5);
    assert_eq!(pass.shader_modification_time(), 40);

    // One that compiles replaces it.
    let request = match pass.try_recompile_shader(41) {
        ReloadDecision::Recompile(request) => request,
        ReloadDecision::AlreadyUpToDate => panic!("a newer source has to be rebuilt"),
    };
    assert_eq!(request.finish(built("post", 41, 6)).install(&mut pass), None);
    assert_eq!(*pass.compute_pipeline(), 6);
    assert_eq!(pass.shader_modification_time(), 41);
    assert_eq!(pass.try_recompile_shader(41), ReloadDecision::AlreadyUpToDate);
}
