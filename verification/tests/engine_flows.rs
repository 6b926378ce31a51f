use glslang::ctypes::{MSG_DEBUG_INFO, MSG_DEFAULT};
use glslang::{
    Compiler, CompilerOptions, GlslangError, GlslangErrorLog, OpenGlVersion, GlslProfile,
    ShaderInput, ShaderMessage, ShaderSource, ShaderStage, SourceLanguage, Target,
};

fn ok_log() -> GlslangErrorLog {
    GlslangErrorLog::new(String::new(), String::new())
}

#[test]
fn test_verify_old_gl() {
    let compiler = Compiler::from_init(true).unwrap();

    let source = ShaderSource::from(
        r#"#version 120

varying vec2 texcoord;

void main() {
    gl_Position = ftransform();
    texcoord = gl_MultiTexCoord0.st;
}
        "#,
    )
    .expect("source");

    let input = ShaderInput::new(
        &source,
        ShaderStage::Vertex,
        &CompilerOptions {
            source_language: SourceLanguage::GLSL,
            target: Target::OpenGL {
                version: OpenGlVersion::OpenGL4_5,
                spirv_version: None,
            },
            messages: ShaderMessage::from_bits(MSG_DEBUG_INFO | MSG_DEFAULT),
            version_profile: Some((120, GlslProfile::NoProfile)),
        },
    )
    .expect("target");
    let _shader = compiler
        .create_shader(&input)
        .preprocess(true, ok_log())
        .expect("shader init")
        .parse(true, ok_log())
        .expect("shader init");
}

#[test]
fn test_no_language_target_does_not_segfault() {
    let compiler = Compiler::from_init(true).unwrap();

    let source = ShaderSource::from(
        r#"
#version 460


layout(location = 0) out vec4 color;
layout(binding = 1) uniform sampler2D tex;

void main() {
    color = texture(tex, vec2(0.0));
}
        "#,
    )
    .expect("source");

    let input = ShaderInput::new(
        &source,
        ShaderStage::Vertex,
        &CompilerOptions {
            source_language: SourceLanguage::GLSL,
            target: Target::NoTarget(None),
            messages: ShaderMessage::from_bits(MSG_DEBUG_INFO | MSG_DEFAULT),
            version_profile: None,
        },
    )
    .expect("target");
    let shader = compiler
        .create_shader(&input)
        .preprocess(true, ok_log())
        .expect("shader init")
        .parse(true, ok_log())
        .expect("shader init");
    assert!(matches!(
        shader.compile(&compiler),
        Err(GlslangError::NoLanguageTarget)
    ));
}
