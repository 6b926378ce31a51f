use glslang::{
    EnvVersion, GlslProfile, GlslangError, OpenGlVersion, SpirvVersion, Target, TargetEnv,
    TargetLanguage, VulkanVersion,
};

fn vulkan() -> Target {
    Target::Vulkan {
        version: VulkanVersion::Vulkan1_0,
        spirv_version: SpirvVersion::SPIRV1_0,
    }
}

fn opengl(spirv: Option<SpirvVersion>) -> Target {
    Target::OpenGL {
        version: OpenGlVersion::OpenGL4_5,
        spirv_version: spirv,
    }
}

#[test]
fn es_version_100_is_unsupported() {
    let r = vulkan().verify_glsl_profile(Some(&(100, GlslProfile::ES)));
    assert_eq!(r, Err(GlslangError::VersionUnsupported(100, GlslProfile::ES)));
}

#[test]
fn es_versions_300_310_320_pass() {
    for v in [300, 310, 320] {
        assert!(vulkan().verify_glsl_profile(Some(&(v, GlslProfile::ES))).is_ok());
    }
}

#[test]
fn es_version_450_is_unsupported() {
    let r = opengl(None).verify_glsl_profile(Some(&(450, GlslProfile::ES)));
    assert_eq!(r, Err(GlslangError::VersionUnsupported(450, GlslProfile::ES)));
}

#[test]
fn unknown_version_is_unsupported() {
    let r = opengl(None).verify_glsl_profile(Some(&(200, GlslProfile::NoProfile)));
    assert_eq!(
        r,
        Err(GlslangError::VersionUnsupported(200, GlslProfile::NoProfile))
    );
}

#[test]
fn vulkan_below_140_is_invalid_profile() {
    let t = vulkan();
    let r = t.verify_glsl_profile(Some(&(130, GlslProfile::Core)));
    assert_eq!(
        r,
        Err(GlslangError::InvalidProfile(t.clone(), 130, GlslProfile::Core))
    );
}

#[test]
fn vulkan_140_non_compatibility_passes() {
    assert!(vulkan()
        .verify_glsl_profile(Some(&(140, GlslProfile::Core)))
        .is_ok());
    assert!(vulkan()
        .verify_glsl_profile(Some(&(140, GlslProfile::NoProfile)))
        .is_ok());
}

#[test]
fn vulkan_refuses_compatibility() {
    let t = vulkan();
    let r = t.verify_glsl_profile(Some(&(450, GlslProfile::Compatibility)));
    assert_eq!(
        r,
        Err(GlslangError::InvalidProfile(
            t.clone(),
            450,
            GlslProfile::Compatibility
        ))
    );
}

#[test]
fn opengl_spirv_needs_330() {
    let t = opengl(Some(SpirvVersion::SPIRV1_0));
    let r = t.verify_glsl_profile(Some(&(320, GlslProfile::NoProfile)));
    assert_eq!(
        r,
        Err(GlslangError::InvalidProfile(
            t.clone(),
            320,
            GlslProfile::NoProfile
        ))
    );
    assert!(t.verify_glsl_profile(Some(&(330, GlslProfile::Core))).is_ok());
}

#[test]
fn opengl_spirv_refuses_compatibility() {
    let t = opengl(Some(SpirvVersion::SPIRV1_0));
    let r = t.verify_glsl_profile(Some(&(450, GlslProfile::Compatibility)));
    assert_eq!(
        r,
        Err(GlslangError::InvalidProfile(
            t.clone(),
            450,
            GlslProfile::Compatibility
        ))
    );
}

#[test]
fn opengl_without_spirv_accepts_old_versions() {
    assert!(opengl(None)
        .verify_glsl_profile(Some(&(120, GlslProfile::NoProfile)))
        .is_ok());
    assert!(opengl(None)
        .verify_glsl_profile(Some(&(110, GlslProfile::Compatibility)))
        .is_ok());
}

#[test]
fn no_target_with_spirv_refuses_compatibility() {
    let t = Target::NoTarget(Some(SpirvVersion::SPIRV1_3));
    let r = t.verify_glsl_profile(Some(&(450, GlslProfile::Compatibility)));
    assert_eq!(
        r,
        Err(GlslangError::InvalidProfile(
            t.clone(),
            450,
            GlslProfile::Compatibility
        ))
    );
    assert!(Target::NoTarget(None)
        .verify_glsl_profile(Some(&(450, GlslProfile::Compatibility)))
        .is_ok());
}

#[test]
fn absent_constraint_always_passes() {
    assert!(vulkan().verify_glsl_profile(None).is_ok());
    assert!(opengl(Some(SpirvVersion::SPIRV1_5)).verify_glsl_profile(None).is_ok());
    assert!(Target::NoTarget(None).verify_glsl_profile(None).is_ok());
}

#[test]
fn target_resolution_fields() {
    let t = Target::Vulkan {
        version: VulkanVersion::Vulkan1_2,
        spirv_version: SpirvVersion::SPIRV1_4,
    };
    assert_eq!(t.env(), TargetEnv::Vulkan);
    assert_eq!(t.env_version(), EnvVersion::Vulkan1_2);
    assert_eq!(t.target_spirv(), TargetLanguage::SPIRV);
    assert_eq!(t.spirv_version(), SpirvVersion::SPIRV1_4);

    let t = Target::NoTarget(None);
    assert_eq!(t.env(), TargetEnv::NoClient);
    assert_eq!(t.env_version(), EnvVersion::OpenGL450);
    assert_eq!(t.target_spirv(), TargetLanguage::NoLanguage);
    assert_eq!(t.spirv_version(), SpirvVersion::SPIRV1_0);

    let t = opengl(None);
    assert_eq!(t.env(), TargetEnv::OpenGL);
    assert_eq!(t.env_version(), EnvVersion::OpenGL450);
    assert_eq!(t.target_spirv(), TargetLanguage::NoLanguage);

    let t = opengl(Some(SpirvVersion::SPIRV1_2));
    assert_eq!(t.target_spirv(), TargetLanguage::SPIRV);
    assert_eq!(t.spirv_version(), SpirvVersion::SPIRV1_2);
}
