use vstd::prelude::*;

use crate::strutil::{
    replace_bytes, spec_ends_with, spec_replace, spec_starts_with, str_ends_with, str_eq,
    str_starts_with, string_from_utf8,
};
use vstd::string::StringSliceAdditionalSpecFns;
use vstd::utf8::{decode_utf8, encode_utf8, valid_utf8};

verus! {

/// Renaming rules that turn the engine's C-style constant names into the
/// Rust names this crate exposes, used when the raw interface declarations
/// are generated.
#[derive(Debug)]
pub struct GlslangCallbacks;

/// How a renamed variant relates to the replaced bytes it was built from:
/// a name comes back exactly when the bytes are valid UTF-8, and then it
/// decodes them.
pub open spec fn replaced_name_post(out: Seq<u8>, r: Option<Seq<char>>) -> bool {
    &&& r is Some <==> valid_utf8(out)
    &&& (r matches Some(s) ==> s == decode_utf8(out))
}

/// As `replaced_name_post`, for a rule that may decline to rename.
pub open spec fn replaced_opt_post(o: Option<Seq<u8>>, r: Option<Seq<char>>) -> bool {
    match o {
        Some(out) => replaced_name_post(out, r),
        None => r is None,
    }
}

/// The resource-type variant a C constant name maps to.
pub open spec fn spec_rename_resource_type(v: Seq<char>) -> Option<Seq<char>> {
    if v == "GLSLANG_RESOURCE_TYPE_SAMPLER"@ {
        Some("Sampler"@)
    } else if v == "GLSLANG_RESOURCE_TYPE_TEXTURE"@ {
        Some("Texture"@)
    } else if v == "GLSLANG_RESOURCE_TYPE_IMAGE"@ {
        Some("Image"@)
    } else if v == "GLSLANG_RESOURCE_TYPE_UBO"@ {
        Some("UBO"@)
    } else if v == "GLSLANG_RESOURCE_TYPE_SSBO"@ {
        Some("SSBO"@)
    } else if v == "GLSLANG_RESOURCE_TYPE_UAV"@ {
        Some("UAV"@)
    } else if v == "GLSLANG_RESOURCE_TYPE_COUNT"@ {
        Some("Count"@)
    } else {
        None
    }
}

/// The shader-stage variant a C constant name maps to.
pub open spec fn spec_rename_shader_stage(v: Seq<char>) -> Option<Seq<char>> {
    if v == "GLSLANG_STAGE_VERTEX"@ {
        Some("Vertex"@)
    } else if v == "GLSLANG_STAGE_TESSCONTROL"@ {
        Some("TesselationControl"@)
    } else if v == "GLSLANG_STAGE_TESSEVALUATION"@ {
        Some("TesselationEvaluation"@)
    } else if v == "GLSLANG_STAGE_GEOMETRY"@ {
        Some("Geometry"@)
    } else if v == "GLSLANG_STAGE_FRAGMENT"@ {
        Some("Fragment"@)
    } else if v == "GLSLANG_STAGE_COMPUTE"@ {
        Some("Compute"@)
    } else if v == "GLSLANG_STAGE_KERNEL"@ {
        Some("Kernel"@)
    } else if v == "GLSLANG_STAGE_RAYGEN"@ {
        Some("RayGeneration"@)
    } else if v == "GLSLANG_STAGE_INTERSECT"@ {
        Some("Intersect"@)
    } else if v == "GLSLANG_STAGE_ANYHIT"@ {
        Some("AnyHit"@)
    } else if v == "GLSLANG_STAGE_CLOSESTHIT"@ {
        Some("ClosestHit"@)
    } else if v == "GLSLANG_STAGE_MISS"@ {
        Some("Miss"@)
    } else if v == "GLSLANG_STAGE_CALLABLE"@ {
        Some("Callable"@)
    } else if v == "GLSLANG_STAGE_TASK"@ {
        Some("Task"@)
    } else if v == "GLSLANG_STAGE_MESH"@ {
        Some("Mesh"@)
    } else if v == "GLSLANG_STAGE_COUNT"@ {
        Some("Count"@)
    } else {
        None
    }
}

/// The source-language variant a C constant name maps to.
pub open spec fn spec_rename_source_type(v: Seq<char>) -> Option<Seq<char>> {
    if v == "GLSLANG_SOURCE_NONE"@ {
        Some("None"@)
    } else if v == "GLSLANG_SOURCE_GLSL"@ {
        Some("GLSL"@)
    } else if v == "GLSLANG_SOURCE_HLSL"@ {
        Some("HLSL"@)
    } else {
        None
    }
}

/// The client-environment variant a C constant name maps to.
pub open spec fn spec_rename_client_type(v: Seq<char>) -> Option<Seq<char>> {
    if v == "GLSLANG_CLIENT_NONE"@ {
        Some("None"@)
    } else if v == "GLSLANG_CLIENT_VULKAN"@ {
        Some("Vulkan"@)
    } else if v == "GLSLANG_CLIENT_OPENGL"@ {
        Some("OpenGL"@)
    } else {
        None
    }
}

/// The emitted-language variant a C constant name maps to.
pub open spec fn spec_rename_target_language(v: Seq<char>) -> Option<Seq<char>> {
    if v == "GLSLANG_TARGET_NONE"@ {
        Some("None"@)
    } else if v == "GLSLANG_TARGET_SPV"@ {
        Some("SPIRV"@)
    } else {
        None
    }
}

/// The sampler-transform variant a C constant name maps to.
pub open spec fn spec_rename_texture_sampler_transform_mode(v: Seq<char>) -> Option<Seq<char>> {
    if v == "GLSLANG_TEX_SAMP_TRANS_KEEP"@ {
        Some("Keep"@)
    } else if v == "GLSLANG_TEX_SAMP_TRANS_UPGRADE_TEXTURE_REMOVE_SAMPLER"@ {
        Some("UpgradeTextureRemoveSampler"@)
    } else {
        None
    }
}

/// The profile variant a C constant name maps to.
pub open spec fn spec_rename_profile(v: Seq<char>) -> Option<Seq<char>> {
    if v == "GLSLANG_BAD_PROFILE"@ {
        Some("Bad"@)
    } else if v == "GLSLANG_NO_PROFILE"@ {
        Some("None"@)
    } else if v == "GLSLANG_CORE_PROFILE"@ {
        Some("Core"@)
    } else if v == "GLSLANG_COMPATIBILITY_PROFILE"@ {
        Some("Compatibility"@)
    } else if v == "GLSLANG_ES_PROFILE"@ {
        Some("ES"@)
    } else {
        None
    }
}

/// The bytes of a stage-mask name with its prefix and mask suffix removed.
pub open spec fn spec_rename_shader_stage_mask(v: Seq<char>) -> Seq<u8> {
    spec_replace(
        spec_replace(encode_utf8(v), "GLSLANG_STAGE_".spec_bytes(), "".spec_bytes()),
        "_MASK".spec_bytes(),
        "".spec_bytes(),
    )
}

/// The bytes of a SPIR-V-version name rewritten to this crate's form.
pub open spec fn spec_rename_target_language_version(v: Seq<char>) -> Seq<u8> {
    spec_replace(encode_utf8(v), "GLSLANG_TARGET_SPV_".spec_bytes(), "SPIRV".spec_bytes())
}

/// The bytes of a client-version name rewritten to this crate's form,
/// where the name belongs to a client this crate knows.
pub open spec fn spec_rename_target_client_version(v: Seq<char>) -> Option<Seq<u8>> {
    if spec_starts_with(encode_utf8(v), "GLSLANG_TARGET_VULKAN_".spec_bytes()) {
        Some(
            spec_replace(
                encode_utf8(v),
                "GLSLANG_TARGET_VULKAN_".spec_bytes(),
                "Vulkan".spec_bytes(),
            ),
        )
    } else if spec_starts_with(encode_utf8(v), "GLSLANG_TARGET_OPENGL".spec_bytes()) {
        Some(
            spec_replace(
                encode_utf8(v),
                "GLSLANG_TARGET_OPENGL_".spec_bytes(),
                "OpenGL".spec_bytes(),
            ),
        )
    } else {
        None
    }
}

/// The bytes of a message-flag name with its prefix and bit suffix removed.
pub open spec fn spec_rename_messages(v: Seq<char>) -> Seq<u8> {
    spec_replace(
        spec_replace(encode_utf8(v), "GLSLANG_MSG_".spec_bytes(), "".spec_bytes()),
        "_BIT".spec_bytes(),
        "".spec_bytes(),
    )
}

/// The bytes of an option-flag name with its prefix and bit suffix removed.
pub open spec fn spec_rename_shader_options(v: Seq<char>) -> Seq<u8> {
    spec_replace(
        spec_replace(encode_utf8(v), "GLSLANG_SHADER_".spec_bytes(), "".spec_bytes()),
        "_BIT".spec_bytes(),
        "".spec_bytes(),
    )
}

impl GlslangCallbacks {
    pub fn rename_resource_type(variant: &str) -> (r: Option<String>)
        ensures
            r.deep_view() == spec_rename_resource_type(variant@),
    {
        if str_eq(variant, "GLSLANG_RESOURCE_TYPE_SAMPLER") {
            Some("Sampler".to_owned())
        } else if str_eq(variant, "GLSLANG_RESOURCE_TYPE_TEXTURE") {
            Some("Texture".to_owned())
        } else if str_eq(variant, "GLSLANG_RESOURCE_TYPE_IMAGE") {
            Some("Image".to_owned())
        } else if str_eq(variant, "GLSLANG_RESOURCE_TYPE_UBO") {
            Some("UBO".to_owned())
        } else if str_eq(variant, "GLSLANG_RESOURCE_TYPE_SSBO") {
            Some("SSBO".to_owned())
        } else if str_eq(variant, "GLSLANG_RESOURCE_TYPE_UAV") {
            Some("UAV".to_owned())
        } else if str_eq(variant, "GLSLANG_RESOURCE_TYPE_COUNT") {
            Some("Count".to_owned())
        } else {
            None
        }
    }

    pub fn rename_shader_stage(variant: &str) -> (r: Option<String>)
        ensures
            r.deep_view() == spec_rename_shader_stage(variant@),
    {
        if str_eq(variant, "GLSLANG_STAGE_VERTEX") {
            Some("Vertex".to_owned())
        } else if str_eq(variant, "GLSLANG_STAGE_TESSCONTROL") {
            Some("TesselationControl".to_owned())
        } else if str_eq(variant, "GLSLANG_STAGE_TESSEVALUATION") {
            Some("TesselationEvaluation".to_owned())
        } else if str_eq(variant, "GLSLANG_STAGE_GEOMETRY") {
            Some("Geometry".to_owned())
        } else if str_eq(variant, "GLSLANG_STAGE_FRAGMENT") {
            Some("Fragment".to_owned())
        } else if str_eq(variant, "GLSLANG_STAGE_COMPUTE") {
            Some("Compute".to_owned())
        } else if str_eq(variant, "GLSLANG_STAGE_KERNEL") {
            Some("Kernel".to_owned())
        } else if str_eq(variant, "GLSLANG_STAGE_RAYGEN") {
            Some("RayGeneration".to_owned())
        } else if str_eq(variant, "GLSLANG_STAGE_INTERSECT") {
            Some("Intersect".to_owned())
        } else if str_eq(variant, "GLSLANG_STAGE_ANYHIT") {
            Some("AnyHit".to_owned())
        } else if str_eq(variant, "GLSLANG_STAGE_CLOSESTHIT") {
            Some("ClosestHit".to_owned())
        } else if str_eq(variant, "GLSLANG_STAGE_MISS") {
            Some("Miss".to_owned())
        } else if str_eq(variant, "GLSLANG_STAGE_CALLABLE") {
            Some("Callable".to_owned())
        } else if str_eq(variant, "GLSLANG_STAGE_TASK") {
            Some("Task".to_owned())
        } else if str_eq(variant, "GLSLANG_STAGE_MESH") {
            Some("Mesh".to_owned())
        } else if str_eq(variant, "GLSLANG_STAGE_COUNT") {
            Some("Count".to_owned())
        } else {
            None
        }
    }

    pub fn rename_source_type(variant: &str) -> (r: Option<String>)
        ensures
            r.deep_view() == spec_rename_source_type(variant@),
    {
        if str_eq(variant, "GLSLANG_SOURCE_NONE") {
            Some("None".to_owned())
        } else if str_eq(variant, "GLSLANG_SOURCE_GLSL") {
            Some("GLSL".to_owned())
        } else if str_eq(variant, "GLSLANG_SOURCE_HLSL") {
            Some("HLSL".to_owned())
        } else {
            None
        }
    }

    pub fn rename_client_type(variant: &str) -> (r: Option<String>)
        ensures
            r.deep_view() == spec_rename_client_type(variant@),
    {
        if str_eq(variant, "GLSLANG_CLIENT_NONE") {
            Some("None".to_owned())
        } else if str_eq(variant, "GLSLANG_CLIENT_VULKAN") {
            Some("Vulkan".to_owned())
        } else if str_eq(variant, "GLSLANG_CLIENT_OPENGL") {
            Some("OpenGL".to_owned())
        } else {
            None
        }
    }

    pub fn rename_shader_stage_mask(variant: &str) -> (r: Option<String>)
        ensures
            replaced_name_post(spec_rename_shader_stage_mask(variant@), r.deep_view()),
    {
        let b1 = replace_bytes(variant.as_bytes(), "GLSLANG_STAGE_".as_bytes(), "".as_bytes());
        let b2 = replace_bytes(b1.as_slice(), "_MASK".as_bytes(), "".as_bytes());
        string_from_utf8(b2)
    }

    pub fn rename_target_language(variant: &str) -> (r: Option<String>)
        ensures
            r.deep_view() == spec_rename_target_language(variant@),
    {
        if str_eq(variant, "GLSLANG_TARGET_NONE") {
            Some("None".to_owned())
        } else if str_eq(variant, "GLSLANG_TARGET_SPV") {
            Some("SPIRV".to_owned())
        } else {
            None
        }
    }

    pub fn rename_target_language_version(variant: &str) -> (r: Option<String>)
        ensures
            replaced_name_post(spec_rename_target_language_version(variant@), r.deep_view()),
    {
        let b1 = replace_bytes(
            variant.as_bytes(),
            "GLSLANG_TARGET_SPV_".as_bytes(),
            "SPIRV".as_bytes(),
        );
        string_from_utf8(b1)
    }

    pub fn rename_target_client_version(variant: &str) -> (r: Option<String>)
        ensures
            replaced_opt_post(spec_rename_target_client_version(variant@), r.deep_view()),
    {
        if str_starts_with(variant, "GLSLANG_TARGET_VULKAN_".as_bytes()) {
            let b = replace_bytes(
                variant.as_bytes(),
                "GLSLANG_TARGET_VULKAN_".as_bytes(),
                "Vulkan".as_bytes(),
            );
            string_from_utf8(b)
        } else if str_starts_with(variant, "GLSLANG_TARGET_OPENGL".as_bytes()) {
            let b = replace_bytes(
                variant.as_bytes(),
                "GLSLANG_TARGET_OPENGL_".as_bytes(),
                "OpenGL".as_bytes(),
            );
            string_from_utf8(b)
        } else {
            None
        }
    }

    pub fn rename_messages(variant: &str) -> (r: Option<String>)
        ensures
            replaced_name_post(spec_rename_messages(variant@), r.deep_view()),
    {
        let b1 = replace_bytes(variant.as_bytes(), "GLSLANG_MSG_".as_bytes(), "".as_bytes());
        let b2 = replace_bytes(b1.as_slice(), "_BIT".as_bytes(), "".as_bytes());
        string_from_utf8(b2)
    }

    pub fn rename_shader_options(variant: &str) -> (r: Option<String>)
        ensures
            replaced_name_post(spec_rename_shader_options(variant@), r.deep_view()),
    {
        let b1 = replace_bytes(variant.as_bytes(), "GLSLANG_SHADER_".as_bytes(), "".as_bytes());
        let b2 = replace_bytes(b1.as_slice(), "_BIT".as_bytes(), "".as_bytes());
        string_from_utf8(b2)
    }

    pub fn rename_texture_sampler_transform_mode(variant: &str) -> (r: Option<String>)
        ensures
            r.deep_view() == spec_rename_texture_sampler_transform_mode(variant@),
    {
        if str_eq(variant, "GLSLANG_TEX_SAMP_TRANS_KEEP") {
            Some("Keep".to_owned())
        } else if str_eq(variant, "GLSLANG_TEX_SAMP_TRANS_UPGRADE_TEXTURE_REMOVE_SAMPLER") {
            Some("UpgradeTextureRemoveSampler".to_owned())
        } else {
            None
        }
    }

    pub fn rename_profile(variant: &str) -> (r: Option<String>)
        ensures
            r.deep_view() == spec_rename_profile(variant@),
    {
        if str_eq(variant, "GLSLANG_BAD_PROFILE") {
            Some("Bad".to_owned())
        } else if str_eq(variant, "GLSLANG_NO_PROFILE") {
            Some("None".to_owned())
        } else if str_eq(variant, "GLSLANG_CORE_PROFILE") {
            Some("Core".to_owned())
        } else if str_eq(variant, "GLSLANG_COMPATIBILITY_PROFILE") {
            Some("Compatibility".to_owned())
        } else if str_eq(variant, "GLSLANG_ES_PROFILE") {
            Some("ES".to_owned())
        } else {
            None
        }
    }
}

/// What renaming a variant of a named enum yields, over the rules above.
pub open spec fn enum_variant_name_post(
    en: Option<Seq<char>>,
    v: Seq<char>,
    r: Option<Seq<char>>,
) -> bool {
    match en {
        Some(e) => {
            if e == "glslang_stage_t"@ {
                r == spec_rename_shader_stage(v)
            } else if e == "glslang_stage_mask_t"@ {
                replaced_name_post(spec_rename_shader_stage_mask(v), r)
            } else if e == "glslang_resource_type_t"@ {
                r == spec_rename_resource_type(v)
            } else if e == "glslang_source_t"@ {
                r == spec_rename_source_type(v)
            } else if e == "glslang_client_t"@ {
                r == spec_rename_client_type(v)
            } else if e == "glslang_target_language_t"@ {
                r == spec_rename_target_language(v)
            } else if e == "glslang_target_client_version_t"@ {
                replaced_opt_post(spec_rename_target_client_version(v), r)
            } else if e == "glslang_target_language_version_t"@ {
                replaced_name_post(spec_rename_target_language_version(v), r)
            } else if e == "glslang_texture_sampler_transform_mode_t"@ {
                r == spec_rename_texture_sampler_transform_mode(v)
            } else if e == "glslang_messages_t"@ {
                replaced_name_post(spec_rename_messages(v), r)
            } else if e == "glslang_reflection_options_t"@ {
                replaced_name_post(spec_rename_messages(v), r)
            } else if e == "glslang_shader_options_t"@ {
                replaced_name_post(spec_rename_shader_options(v), r)
            } else if e == "glslang_profile_t"@ {
                r == spec_rename_profile(v)
            } else {
                r is None
            }
        },
        None => r is None,
    }
}

/// What to do with a variant beyond renaming: hide it.
#[derive(Clone, Copy, PartialEq, Eq, Structural, Debug)]
pub enum VariantBehavior {
    Hide,
}

/// Which variants of a named enum are hidden: counts, vendor-suffixed
/// stages and masks, and the bad profile.
pub open spec fn spec_enum_variant_behavior(en: Option<Seq<char>>, v: Seq<char>) -> Option<
    VariantBehavior,
> {
    if spec_ends_with(encode_utf8(v), "_COUNT".spec_bytes()) {
        Some(VariantBehavior::Hide)
    } else {
        match en {
            Some(e) => {
                if e == "glslang_stage_t"@ {
                    if spec_ends_with(encode_utf8(v), "_NV".spec_bytes()) {
                        Some(VariantBehavior::Hide)
                    } else {
                        None
                    }
                } else if e == "glslang_stage_mask_t"@ {
                    if spec_ends_with(encode_utf8(v), "_NV_MASK".spec_bytes()) {
                        Some(VariantBehavior::Hide)
                    } else {
                        None
                    }
                } else if e == "glslang_profile_t"@ {
                    if v == "GLSLANG_BAD_PROFILE"@ {
                        Some(VariantBehavior::Hide)
                    } else {
                        None
                    }
                } else {
                    None
                }
            },
            None => None,
        }
    }
}

impl GlslangCallbacks {
    /// The Rust name a C enum variant is given, by the enum it belongs to.
    pub fn enum_variant_name(enum_name: Option<&str>, original_variant_name: &str) -> (r: Option<
        String,
    >)
        ensures
            enum_variant_name_post(
                match enum_name {
                    Some(e) => Some(e@),
                    None => None,
                },
                original_variant_name@,
                r.deep_view(),
            ),
    {
        match enum_name {
            Some(e) => {
                if str_eq(e, "glslang_stage_t") {
                    Self::rename_shader_stage(original_variant_name)
                } else if str_eq(e, "glslang_stage_mask_t") {
                    Self::rename_shader_stage_mask(original_variant_name)
                } else if str_eq(e, "glslang_resource_type_t") {
                    Self::rename_resource_type(original_variant_name)
                } else if str_eq(e, "glslang_source_t") {
                    Self::rename_source_type(original_variant_name)
                } else if str_eq(e, "glslang_client_t") {
                    Self::rename_client_type(original_variant_name)
                } else if str_eq(e, "glslang_target_language_t") {
                    Self::rename_target_language(original_variant_name)
                } else if str_eq(e, "glslang_target_client_version_t") {
                    Self::rename_target_client_version(original_variant_name)
                } else if str_eq(e, "glslang_target_language_version_t") {
                    Self::rename_target_language_version(original_variant_name)
                } else if str_eq(e, "glslang_texture_sampler_transform_mode_t") {
                    Self::rename_texture_sampler_transform_mode(original_variant_name)
                } else if str_eq(e, "glslang_messages_t") {
                    Self::rename_messages(original_variant_name)
                } else if str_eq(e, "glslang_reflection_options_t") {
                    Self::rename_messages(original_variant_name)
                } else if str_eq(e, "glslang_shader_options_t") {
                    Self::rename_shader_options(original_variant_name)
                } else if str_eq(e, "glslang_profile_t") {
                    Self::rename_profile(original_variant_name)
                } else {
                    None
                }
            },
            None => None,
        }
    }

    /// Whether a C enum variant is hidden rather than renamed.
    pub fn enum_variant_behavior(enum_name: Option<&str>, original_variant_name: &str) -> (r:
        Option<VariantBehavior>)
        ensures
            r == spec_enum_variant_behavior(
                match enum_name {
                    Some(e) => Some(e@),
                    None => None,
                },
                original_variant_name@,
            ),
    {
        if str_ends_with(original_variant_name, "_COUNT".as_bytes()) {
            return Some(VariantBehavior::Hide);
        }
        match enum_name {
            Some(e) => {
                if str_eq(e, "glslang_stage_t") {
                    if str_ends_with(original_variant_name, "_NV".as_bytes()) {
                        Some(VariantBehavior::Hide)
                    } else {
                        None
                    }
                } else if str_eq(e, "glslang_stage_mask_t") {
                    if str_ends_with(original_variant_name, "_NV_MASK".as_bytes()) {
                        Some(VariantBehavior::Hide)
                    } else {
                        None
                    }
                } else if str_eq(e, "glslang_profile_t") {
                    if str_eq(original_variant_name, "GLSLANG_BAD_PROFILE") {
                        Some(VariantBehavior::Hide)
                    } else {
                        None
                    }
                } else {
                    None
                }
            },
            None => None,
        }
    }

    /// Items keep their own names; the one task-stage constant this rule
    /// cannot take is left out by the caller.
    pub fn item_name(name: &str) -> (r: Option<String>)
        requires
            name@ != "GLSLANG_STAGE_TASK_NV"@,
        ensures
            r is None,
    {
        None
    }
}

} // verus!
