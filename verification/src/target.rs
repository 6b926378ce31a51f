use vstd::prelude::*;

use crate::ctypes::{EnvVersion, GlslProfile, SpirvVersion, TargetEnv, TargetLanguage};
use crate::error::GlslangError;

verus! {

/// Vulkan version.
#[allow(non_camel_case_types)]
#[derive(Debug, PartialEq, Eq, Structural, Clone, Copy)]
pub enum VulkanVersion {
    /// Vulkan 1.0
    Vulkan1_0,
    /// Vulkan 1.1
    Vulkan1_1,
    /// Vulkan 1.2
    Vulkan1_2,
    /// Vulkan 1.3
    Vulkan1_3,
}

/// OpenGL version.
#[allow(non_camel_case_types)]
#[derive(Debug, PartialEq, Eq, Structural, Clone, Copy)]
pub enum OpenGlVersion {
    /// OpenGL 4.5
    OpenGL4_5,
}

/// The target environment to compile or validate the input shader to.
///
/// If no SPIR-V version is specified, the shader will be unable to be compiled.
#[derive(Debug, PartialEq, Eq, Structural, Clone, Copy)]
pub enum Target {
    /// No specified environment.
    ///
    /// This environment can optionally include a SPIR-V version.
    NoTarget(Option<SpirvVersion>),
    /// Validate the shader against Vulkan semantics. Vulkan requires GLSL 140 or above.
    Vulkan {
        /// The Vulkan API version to validate against.
        version: VulkanVersion,
        /// The SPIR-V version to compile to.
        ///
        /// Vulkan requires a SPIR-V version to be specified.
        spirv_version: SpirvVersion,
    },
    /// Validate the shader against OpenGL semantics.
    OpenGL {
        /// The OpenGL version to validate against. Currently only OpenGL 4.5 is supported.
        version: OpenGlVersion,
        /// An optional SPIR-V version if targeting OpenGL SPIR-V. Requires GLSL 330 or above.
        spirv_version: Option<SpirvVersion>,
    },
}

/// The client environment a target resolves to.
pub open spec fn target_env_of(t: Target) -> TargetEnv {
    match t {
        Target::NoTarget(_) => TargetEnv::NoClient,
        Target::Vulkan { .. } => TargetEnv::Vulkan,
        Target::OpenGL { .. } => TargetEnv::OpenGL,
    }
}

/// The emitted language a target resolves to: SPIR-V exactly when the
/// target carries a SPIR-V version (Vulkan always does).
pub open spec fn target_language_of(t: Target) -> TargetLanguage {
    match t {
        Target::NoTarget(spirv_version) => if spirv_version is Some {
            TargetLanguage::SPIRV
        } else {
            TargetLanguage::NoLanguage
        },
        Target::OpenGL { spirv_version, .. } => if spirv_version is Some {
            TargetLanguage::SPIRV
        } else {
            TargetLanguage::NoLanguage
        },
        Target::Vulkan { .. } => TargetLanguage::SPIRV,
    }
}

/// The client version field a target resolves to; a plain default where
/// the engine ignores it.
pub open spec fn env_version_of(t: Target) -> EnvVersion {
    match t {
        Target::NoTarget(_) => EnvVersion::OpenGL450,
        Target::Vulkan { version, .. } => match version {
            VulkanVersion::Vulkan1_0 => EnvVersion::Vulkan1_0,
            VulkanVersion::Vulkan1_1 => EnvVersion::Vulkan1_1,
            VulkanVersion::Vulkan1_2 => EnvVersion::Vulkan1_2,
            VulkanVersion::Vulkan1_3 => EnvVersion::Vulkan1_3,
        },
        Target::OpenGL { version, .. } => match version {
            OpenGlVersion::OpenGL4_5 => EnvVersion::OpenGL450,
        },
    }
}

/// The SPIR-V version field a target resolves to; a plain default where
/// the engine ignores it.
pub open spec fn spirv_version_of(t: Target) -> SpirvVersion {
    match t {
        Target::NoTarget(spirv_version) => match spirv_version {
            Some(v) => v,
            None => SpirvVersion::SPIRV1_0,
        },
        Target::OpenGL { spirv_version, .. } => match spirv_version {
            Some(v) => v,
            None => SpirvVersion::SPIRV1_0,
        },
        Target::Vulkan { spirv_version, .. } => spirv_version,
    }
}

/// The fixed set of GLSL versions the engine accepts.
pub open spec fn supported_glsl_version(v: int) -> bool {
    ||| v == 100
    ||| v == 110
    ||| v == 120
    ||| v == 130
    ||| v == 140
    ||| v == 150
    ||| v == 300
    ||| v == 310
    ||| v == 320
    ||| v == 330
    ||| v == 400
    ||| v == 410
    ||| v == 420
    ||| v == 430
    ||| v == 440
    ||| v == 450
    ||| v == 460
}

/// The GLSL versions accepted for the ES profile.
pub open spec fn es_supported_version(v: int) -> bool {
    ||| v == 300
    ||| v == 310
    ||| v == 320
}

/// The exact outcome of validating a declared (version, profile) pair
/// against a target. `None` means no constraint was declared, which
/// always passes (validation is deferred to the engine's parser).
pub open spec fn spec_verify_glsl_profile(t: Target, vp: Option<(i32, GlslProfile)>) -> Result<
    (),
    GlslangError,
> {
    match vp {
        None => Ok(()),
        Some((version, profile)) => {
            if profile == GlslProfile::ES && !es_supported_version(version as int) {
                Err(GlslangError::VersionUnsupported(version, GlslProfile::ES))
            } else if !supported_glsl_version(version as int) {
                Err(GlslangError::VersionUnsupported(version, profile))
            } else {
                match t {
                    Target::NoTarget(spirv_version) => {
                        if spirv_version is Some && profile == GlslProfile::Compatibility {
                            Err(
                                GlslangError::InvalidProfile(
                                    t,
                                    version,
                                    GlslProfile::Compatibility,
                                ),
                            )
                        } else {
                            Ok(())
                        }
                    },
                    Target::Vulkan { .. } => {
                        if version < 140 {
                            Err(GlslangError::InvalidProfile(t, version, profile))
                        } else if profile == GlslProfile::Compatibility {
                            Err(
                                GlslangError::InvalidProfile(
                                    t,
                                    version,
                                    GlslProfile::Compatibility,
                                ),
                            )
                        } else {
                            Ok(())
                        }
                    },
                    Target::OpenGL { spirv_version, .. } => {
                        if spirv_version is Some {
                            if version < 330 {
                                Err(GlslangError::InvalidProfile(t, version, profile))
                            } else if profile == GlslProfile::Compatibility {
                                Err(
                                    GlslangError::InvalidProfile(
                                        t,
                                        version,
                                        GlslProfile::Compatibility,
                                    ),
                                )
                            } else {
                                Ok(())
                            }
                        } else {
                            Ok(())
                        }
                    },
                }
            }
        },
    }
}

/// The positive side of the validation: a declared (version, profile)
/// pair is acceptable for a target exactly under these conditions.
pub open spec fn glsl_profile_valid(t: Target, vp: Option<(i32, GlslProfile)>) -> bool {
    match vp {
        None => true,
        Some((version, profile)) => {
            &&& supported_glsl_version(version as int)
            &&& profile == GlslProfile::ES ==> es_supported_version(version as int)
            &&& match t {
                Target::NoTarget(spirv_version) => !(spirv_version is Some && profile
                    == GlslProfile::Compatibility),
                Target::Vulkan { .. } => version >= 140 && profile != GlslProfile::Compatibility,
                Target::OpenGL { spirv_version, .. } => spirv_version is Some ==> (version >= 330
                    && profile != GlslProfile::Compatibility),
            }
        },
    }
}

/// Validation passes exactly on the pairs `glsl_profile_valid` accepts.
pub proof fn lemma_verify_glsl_profile_ok(t: Target, vp: Option<(i32, GlslProfile)>)
    ensures
        spec_verify_glsl_profile(t, vp) is Ok <==> glsl_profile_valid(t, vp),
{
}

/// The ES profile accepts exactly the versions 300, 310 and 320,
/// whatever the target: any other declared version is refused as
/// unsupported for ES, and with one of these three the ES version rule
/// never fires.
pub proof fn lemma_es_profile_versions(t: Target, v: i32)
    ensures
        !es_supported_version(v as int) ==> spec_verify_glsl_profile(t, Some((v, GlslProfile::ES)))
            == Err::<(), GlslangError>(GlslangError::VersionUnsupported(v, GlslProfile::ES)),
        es_supported_version(v as int) ==> spec_verify_glsl_profile(t, Some((v, GlslProfile::ES)))
            != Err::<(), GlslangError>(GlslangError::VersionUnsupported(v, GlslProfile::ES)),
{
}

/// A Vulkan target refuses every supported desktop GLSL version below
/// 140 as an invalid profile, and accepts 140 and above with any
/// profile but Compatibility.
pub proof fn lemma_vulkan_version_rule(t: Target, v: i32, p: GlslProfile)
    requires
        t matches Target::Vulkan { .. },
        supported_glsl_version(v as int),
        p == GlslProfile::ES ==> es_supported_version(v as int),
    ensures
        v < 140 ==> spec_verify_glsl_profile(t, Some((v, p))) == Err::<(), GlslangError>(
            GlslangError::InvalidProfile(t, v, p),
        ),
        v >= 140 && p != GlslProfile::Compatibility ==> spec_verify_glsl_profile(t, Some((v, p)))
            == Ok::<(), GlslangError>(()),
{
}

/// An OpenGL target asked to emit SPIR-V refuses every supported
/// version below 330 as an invalid profile and accepts 330 and above
/// with any profile but Compatibility; one not emitting SPIR-V accepts
/// every supported pair.
pub proof fn lemma_opengl_spirv_rule(t: Target, v: i32, p: GlslProfile)
    requires
        t matches Target::OpenGL { .. },
        supported_glsl_version(v as int),
        p == GlslProfile::ES ==> es_supported_version(v as int),
    ensures
        (t matches Target::OpenGL { spirv_version: Some(_), .. } && v < 330)
            ==> spec_verify_glsl_profile(t, Some((v, p))) == Err::<(), GlslangError>(
            GlslangError::InvalidProfile(t, v, p),
        ),
        (t matches Target::OpenGL { spirv_version: Some(_), .. } && v >= 330 && p
            != GlslProfile::Compatibility) ==> spec_verify_glsl_profile(t, Some((v, p))) == Ok::<
            (),
            GlslangError,
        >(()),
        (t matches Target::OpenGL { spirv_version: None, .. }) ==> spec_verify_glsl_profile(
            t,
            Some((v, p)),
        ) == Ok::<(), GlslangError>(()),
{
}

impl Target {
    /// The client environment field of the native descriptor.
    pub fn env(&self) -> (r: TargetEnv)
        ensures
            r == target_env_of(*self),
    {
        match self {
            Target::NoTarget(_) => TargetEnv::NoClient,
            Target::Vulkan { .. } => TargetEnv::Vulkan,
            Target::OpenGL { .. } => TargetEnv::OpenGL,
        }
    }

    /// The emitted-language field of the native descriptor.
    pub fn target_spirv(&self) -> (r: TargetLanguage)
        ensures
            r == target_language_of(*self),
    {
        match self {
            Target::NoTarget(spirv_version) => {
                if spirv_version.is_some() {
                    TargetLanguage::SPIRV
                } else {
                    TargetLanguage::NoLanguage
                }
            },
            Target::OpenGL { spirv_version, .. } => {
                if spirv_version.is_some() {
                    TargetLanguage::SPIRV
                } else {
                    TargetLanguage::NoLanguage
                }
            },
            Target::Vulkan { .. } => TargetLanguage::SPIRV,
        }
    }

    /// The client-version field of the native descriptor.
    pub fn env_version(&self) -> (r: EnvVersion)
        ensures
            r == env_version_of(*self),
    {
        match self {
            // Doesn't matter.
            Target::NoTarget(_) => EnvVersion::OpenGL450,
            Target::Vulkan { version, .. } => match version {
                VulkanVersion::Vulkan1_0 => EnvVersion::Vulkan1_0,
                VulkanVersion::Vulkan1_1 => EnvVersion::Vulkan1_1,
                VulkanVersion::Vulkan1_2 => EnvVersion::Vulkan1_2,
                VulkanVersion::Vulkan1_3 => EnvVersion::Vulkan1_3,
            },
            Target::OpenGL { version, .. } => match version {
                OpenGlVersion::OpenGL4_5 => EnvVersion::OpenGL450,
            },
        }
    }

    /// The SPIR-V-version field of the native descriptor.
    pub fn spirv_version(&self) -> (r: SpirvVersion)
        ensures
            r == spirv_version_of(*self),
    {
        match self {
            // Doesn't matter.
            Target::NoTarget(spirv_version) => match spirv_version {
                Some(v) => *v,
                None => SpirvVersion::SPIRV1_0,
            },
            Target::OpenGL { spirv_version, .. } => match spirv_version {
                Some(v) => *v,
                None => SpirvVersion::SPIRV1_0,
            },
            Target::Vulkan { spirv_version, .. } => *spirv_version,
        }
    }

    /// Validate a declared (version, profile) pair against this target,
    /// before any native code is reached.
    pub fn verify_glsl_profile(&self, profile: Option<&(i32, GlslProfile)>) -> (r: Result<
        (),
        GlslangError,
    >)
        ensures
            r == spec_verify_glsl_profile(
                *self,
                match profile {
                    Some(p) => Some(*p),
                    None => None,
                },
            ),
            r is Ok <==> glsl_profile_valid(
                *self,
                match profile {
                    Some(p) => Some(*p),
                    None => None,
                },
            ),
    {
        let (version, profile): (i32, GlslProfile) = match profile {
            Some(p) => *p,
            None => {
                return Ok(());
            },
        };

        // only version 300, 310, 320 is supported for ES
        if profile == GlslProfile::ES && version != 300 && version != 310 && version != 320 {
            return Err(GlslangError::VersionUnsupported(version, GlslProfile::ES));
        }

        if !(version == 100 || version == 110 || version == 120 || version == 130 || version == 140
            || version == 150 || version == 300 || version == 310 || version == 320 || version
            == 330 || version == 400 || version == 410 || version == 420 || version == 430
            || version == 440 || version == 450 || version == 460) {
            return Err(GlslangError::VersionUnsupported(version, profile));
        }

        match self {
            Target::NoTarget(spirv_version) => {
                if spirv_version.is_some() && profile == GlslProfile::Compatibility {
                    return Err(
                        GlslangError::InvalidProfile(*self, version, GlslProfile::Compatibility),
                    );
                }
            },
            Target::Vulkan { .. } => {
                if version < 140 {
                    // Desktop shaders for Vulkan SPIR-V require version 140
                    return Err(GlslangError::InvalidProfile(*self, version, profile));
                }
                // compilation for SPIR-V does not support the compatibility profile
                if profile == GlslProfile::Compatibility {
                    return Err(
                        GlslangError::InvalidProfile(*self, version, GlslProfile::Compatibility),
                    );
                }
            },
            Target::OpenGL { spirv_version, .. } => {
                if spirv_version.is_some() {
                    // OpenGL SPIRV needs 330+
                    if version < 330 {
                        return Err(GlslangError::InvalidProfile(*self, version, profile));
                    }
                    // compilation for SPIR-V does not support the compatibility profile
                    if profile == GlslProfile::Compatibility {
                        return Err(
                            GlslangError::InvalidProfile(
                                *self,
                                version,
                                GlslProfile::Compatibility,
                            ),
                        );
                    }
                }
            },
        }

        Ok(())
    }
}

} // verus!
