use glslang::{
    CompileJob, Compiler, CompilerOptions, GlslangError, GlslangErrorLog, Shader, ShaderBuild,
    ShaderInput, ShaderSource, ShaderStage, SpvOptions, Target,
};

const FRAGMENT_SOURCE: &str = "
#version 450

layout(location = 0) out vec4 color;
layout(binding = 1) uniform sampler2D tex;

void main() {
    color = texture(tex, vec2(0.0));
}
";

fn compiler() -> Compiler {
    Compiler::from_init(true).expect("engine initialization succeeded")
}

fn empty_log() -> GlslangErrorLog {
    GlslangErrorLog::new(String::new(), String::new())
}

fn build_shader(compiler: &Compiler, stage: ShaderStage, options: &CompilerOptions) -> Shader {
    let source = ShaderSource::from(FRAGMENT_SOURCE).expect("source");
    let input = ShaderInput::new(&source, stage, options).expect("target");
    compiler
        .create_shader(&input)
        .preprocess(true, empty_log())
        .expect("preprocess")
        .parse(true, empty_log())
        .expect("parse")
}

#[test]
fn compiler_token_tracks_initialization() {
    assert!(Compiler::from_init(true).is_some());
    assert!(Compiler::from_init(false).is_none());
}

#[test]
fn compile_of_registered_spirv_stage_is_granted() {
    let compiler = compiler();
    let shader = build_shader(&compiler, ShaderStage::Fragment, &CompilerOptions::default());
    let mut program = compiler.create_program();
    program.add_shader(&shader);
    let job = program.compile(ShaderStage::Fragment).expect("stage gate");
    assert_eq!(job.stage, ShaderStage::Fragment);
    assert_eq!(job.messages, 24);
    assert_eq!(job.options, None);
}

#[test]
fn compile_of_unregistered_stage_is_refused() {
    let compiler = compiler();
    let program = compiler.create_program();
    assert_eq!(
        program.compile(ShaderStage::Vertex),
        Err(GlslangError::ShaderStageNotFound(ShaderStage::Vertex))
    );

    let shader = build_shader(&compiler, ShaderStage::Fragment, &CompilerOptions::default());
    let mut program = compiler.create_program();
    program.add_shader(&shader);
    assert_eq!(
        program.compile(ShaderStage::Compute),
        Err(GlslangError::ShaderStageNotFound(ShaderStage::Compute))
    );
}

#[test]
fn compile_without_language_target_is_refused() {
    let compiler = compiler();
    let options = CompilerOptions {
        target: Target::NoTarget(None),
        ..CompilerOptions::default()
    };
    let shader = build_shader(&compiler, ShaderStage::Vertex, &options);
    let mut program = compiler.create_program();
    program.add_shader(&shader);
    assert_eq!(
        program.compile(ShaderStage::Vertex),
        Err(GlslangError::NoLanguageTarget)
    );
}

#[test]
fn shader_compile_convenience_matches_program_gate() {
    let compiler = compiler();
    let shader = build_shader(&compiler, ShaderStage::Fragment, &CompilerOptions::default());
    let job = shader.compile(&compiler).expect("stage gate");
    assert_eq!(job.stage, ShaderStage::Fragment);
    assert_eq!(job.options, None);

    let options = CompilerOptions {
        target: Target::NoTarget(None),
        ..CompilerOptions::default()
    };
    let shader = build_shader(&compiler, ShaderStage::Vertex, &options);
    assert_eq!(
        shader.compile(&compiler),
        Err(GlslangError::NoLanguageTarget)
    );
}

#[test]
fn size_optimized_compile_carries_the_options_block() {
    let compiler = compiler();
    let shader = build_shader(&compiler, ShaderStage::Fragment, &CompilerOptions::default());
    let mut program = compiler.create_program();
    program.add_shader(&shader);
    let job = program
        .compile_size_optimized(ShaderStage::Fragment)
        .expect("stage gate");
    let expected = SpvOptions {
        generate_debug_info: false,
        strip_debug_info: false,
        disable_optimizer: false,
        optimize_size: true,
        disassemble: false,
        validate: false,
        emit_nonsemantic_shader_debug_info: false,
        emit_nonsemantic_shader_debug_source: false,
        compile_only: false,
        optimize_allow_expanded_id_bound: false,
    };
    assert_eq!(job.options, Some(expected));

    let shader = build_shader(&compiler, ShaderStage::Fragment, &CompilerOptions::default());
    let job = shader.compile_size_optimized(&compiler).expect("stage gate");
    assert_eq!(job.options, Some(expected));
}

#[test]
fn compile_job_finish_returns_words_unchanged() {
    let job = CompileJob {
        stage: ShaderStage::Fragment,
        messages: 24,
        options: None,
    };
    let words = vec![0x07230203u32, 1, 2, 3];
    assert_eq!(
        job.finish(true, empty_log(), words.clone()),
        Ok(words.clone())
    );
}

#[test]
fn compile_job_finish_reports_link_failure() {
    let job = CompileJob {
        stage: ShaderStage::Vertex,
        messages: 24,
        options: None,
    };
    let log = GlslangErrorLog::new("bad link".to_string(), "debug".to_string());
    assert_eq!(
        job.finish(false, log.clone(), vec![1, 2]),
        Err(GlslangError::LinkError(log))
    );
}

#[test]
fn link_job_reports_the_engine_reply() {
    let compiler = compiler();
    let program = compiler.create_program();
    let job = program.link();
    assert_eq!(job.messages, 24);
    assert_eq!(job.finish(true, empty_log()), Ok(()));

    let program = compiler.create_program();
    let log = GlslangErrorLog::new("bad".to_string(), String::new());
    assert_eq!(
        program.link().finish(false, log.clone()),
        Err(GlslangError::LinkError(log))
    );
}

#[test]
fn map_io_reports_the_engine_reply() {
    let compiler = compiler();
    let mut program = compiler.create_program();
    assert_eq!(program.map_io(true, empty_log()), Ok(()));
    let log = GlslangErrorLog::new("io".to_string(), "dbg".to_string());
    assert_eq!(
        program.map_io(false, log.clone()),
        Err(GlslangError::MapIoError(log))
    );
}

#[test]
fn failed_preprocess_or_parse_reports_the_log() {
    let compiler = compiler();
    let source = ShaderSource::from(FRAGMENT_SOURCE).expect("source");
    let input = ShaderInput::new(&source, ShaderStage::Fragment, &CompilerOptions::default())
        .expect("target");

    let log = GlslangErrorLog::new("preprocess failed".to_string(), String::new());
    let r = ShaderBuild::new(&compiler, &input).preprocess(false, log.clone());
    assert_eq!(r.unwrap_err(), GlslangError::ParseError(log));

    let log = GlslangErrorLog::new("parse failed".to_string(), String::new());
    let r = ShaderBuild::new(&compiler, &input)
        .preprocess(true, empty_log())
        .expect("preprocess")
        .parse(false, log.clone());
    assert_eq!(r.unwrap_err(), GlslangError::ParseError(log));
}

#[test]
fn shader_records_stage_and_capability() {
    let compiler = compiler();
    let shader = build_shader(&compiler, ShaderStage::Geometry, &CompilerOptions::default());
    assert_eq!(shader.stage(), ShaderStage::Geometry);
    assert!(shader.is_spirv());

    let options = CompilerOptions {
        target: Target::NoTarget(None),
        ..CompilerOptions::default()
    };
    let shader = build_shader(&compiler, ShaderStage::Vertex, &options);
    assert!(!shader.is_spirv());
}
