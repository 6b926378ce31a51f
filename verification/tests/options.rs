use glslang::ctypes::{
    ShaderMessage, ShaderOptions, MSG_DEBUG_INFO, MSG_DEFAULT, MSG_SPV_RULES, MSG_VULKAN_RULES,
    OPT_AUTO_MAP_BINDINGS, OPT_AUTO_MAP_LOCATIONS,
};
use glslang::{
    CompilerOptions, GlslProfile, GlslangError, ShaderInput, ShaderSource, ShaderStage,
    SourceLanguage, SpirvVersion, Target, TargetEnv, TargetLanguage, VulkanVersion,
};

#[test]
fn message_flags_form_a_bit_set() {
    let m = ShaderMessage::new();
    assert_eq!(m.bits, MSG_DEFAULT);
    let m = m.union(ShaderMessage::from_bits(MSG_DEBUG_INFO));
    assert_eq!(m.bits, 1024);
    let link = ShaderMessage::from_bits(MSG_VULKAN_RULES | MSG_SPV_RULES);
    assert_eq!(link.bits, 24);
}

#[test]
fn option_flags_form_a_bit_set() {
    let o = ShaderOptions::new();
    assert_eq!(o.bits, 0);
    let o = o.union(ShaderOptions::from_bits(OPT_AUTO_MAP_BINDINGS)).union(
        ShaderOptions::from_bits(OPT_AUTO_MAP_LOCATIONS),
    );
    assert_eq!(o.bits, 3);
}

#[test]
fn default_options_target_vulkan_spirv() {
    let options = CompilerOptions::default();
    assert_eq!(options.source_language, SourceLanguage::GLSL);
    assert_eq!(
        options.target,
        Target::Vulkan {
            version: VulkanVersion::Vulkan1_0,
            spirv_version: SpirvVersion::SPIRV1_0,
        }
    );
    assert_eq!(options.version_profile, None);
    assert_eq!(options.messages.bits, MSG_DEFAULT);
}

#[test]
fn descriptor_carries_the_resolved_fields() {
    let source = ShaderSource::from("#version 450\nvoid main() {}\n").expect("source");
    let input = ShaderInput::new(&source, ShaderStage::Fragment, &CompilerOptions::default())
        .expect("target");
    assert_eq!(input.language, SourceLanguage::GLSL);
    assert_eq!(input.stage, ShaderStage::Fragment);
    assert_eq!(input.client, TargetEnv::Vulkan);
    assert_eq!(input.target_language, TargetLanguage::SPIRV);
    assert_eq!(input.target_language_version, SpirvVersion::SPIRV1_0);
    assert_eq!(input.code, "#version 450\nvoid main() {}\n".as_bytes());
    assert_eq!(input.default_version, 100);
    assert_eq!(input.default_profile, GlslProfile::NoProfile);
    assert_eq!(input.force_default_version_and_profile, 0);
    assert_eq!(input.forward_compatible, 0);
    assert_eq!(input.resource.max_lights, 32);
}

#[test]
fn forced_profile_is_recorded_and_forced() {
    let source = ShaderSource::from("varying vec2 texcoord;\n").expect("source");
    let options = CompilerOptions {
        source_language: SourceLanguage::GLSL,
        target: Target::OpenGL {
            version: glslang::OpenGlVersion::OpenGL4_5,
            spirv_version: None,
        },
        version_profile: Some((120, GlslProfile::NoProfile)),
        messages: ShaderMessage::from_bits(MSG_DEBUG_INFO | MSG_DEFAULT),
    };
    let input = ShaderInput::new(&source, ShaderStage::Vertex, &options).expect("target");
    assert_eq!(input.default_version, 120);
    assert_eq!(input.default_profile, GlslProfile::NoProfile);
    assert_eq!(input.force_default_version_and_profile, 1);
    assert_eq!(input.messages.bits, MSG_DEBUG_INFO);
}

#[test]
fn descriptor_build_rejects_what_validation_rejects() {
    let source = ShaderSource::from("#version 100\nvoid main() {}\n").expect("source");
    let options = CompilerOptions::default();
    let r = ShaderInput::new(&source, ShaderStage::Vertex, &options);
    assert_eq!(
        r.unwrap_err(),
        GlslangError::InvalidProfile(options.target, 100, GlslProfile::NoProfile)
    );
}

#[test]
fn non_glsl_sources_skip_profile_validation() {
    let source = ShaderSource::from("#version 100\nfloat4 main() : SV_Target {}\n")
        .expect("source");
    let options = CompilerOptions {
        source_language: SourceLanguage::HLSL,
        ..CompilerOptions::default()
    };
    assert!(ShaderInput::new(&source, ShaderStage::Fragment, &options).is_ok());
}

#[test]
fn source_profile_is_used_when_none_is_forced() {
    let source = ShaderSource::from("#version 100 es\nvoid main() {}\n").expect("source");
    let r = ShaderInput::new(&source, ShaderStage::Vertex, &CompilerOptions::default());
    assert_eq!(
        r.unwrap_err(),
        GlslangError::VersionUnsupported(100, GlslProfile::ES)
    );
    let source = ShaderSource::from("#version 450\nvoid main() {}\n").expect("source");
    assert!(ShaderInput::new(&source, ShaderStage::Vertex, &CompilerOptions::default()).is_ok());
}

#[test]
fn custom_limits_are_embedded_verbatim() {
    let mut limits = glslang::ResourceLimits::default();
    limits.set_max_lights(64);
    let source = ShaderSource::from("#version 450\nvoid main() {}\n").expect("source");
    let input = glslang::ShaderInput::new_with_limits(
        &source,
        &limits,
        ShaderStage::Fragment,
        &CompilerOptions::default(),
    )
    .expect("target");
    assert_eq!(input.resource.max_lights, 64);
    assert_eq!(input.resource.max_clip_planes, 6);
}
