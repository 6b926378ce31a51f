use glslang::naming::{GlslangCallbacks, VariantBehavior};

#[test]
fn resource_types_are_renamed() {
    assert_eq!(
        GlslangCallbacks::rename_resource_type("GLSLANG_RESOURCE_TYPE_SAMPLER"),
        Some("Sampler".to_string())
    );
    assert_eq!(
        GlslangCallbacks::rename_resource_type("GLSLANG_RESOURCE_TYPE_UBO"),
        Some("UBO".to_string())
    );
    assert_eq!(GlslangCallbacks::rename_resource_type("SOMETHING_ELSE"), None);
}

#[test]
fn shader_stages_are_renamed() {
    assert_eq!(
        GlslangCallbacks::rename_shader_stage("GLSLANG_STAGE_VERTEX"),
        Some("Vertex".to_string())
    );
    assert_eq!(
        GlslangCallbacks::rename_shader_stage("GLSLANG_STAGE_TESSCONTROL"),
        Some("TesselationControl".to_string())
    );
    assert_eq!(
        GlslangCallbacks::rename_shader_stage("GLSLANG_STAGE_RAYGEN"),
        Some("RayGeneration".to_string())
    );
    assert_eq!(GlslangCallbacks::rename_shader_stage("GLSLANG_STAGE_NEW"), None);
}

#[test]
fn source_and_client_types_are_renamed() {
    assert_eq!(
        GlslangCallbacks::rename_source_type("GLSLANG_SOURCE_GLSL"),
        Some("GLSL".to_string())
    );
    assert_eq!(
        GlslangCallbacks::rename_client_type("GLSLANG_CLIENT_VULKAN"),
        Some("Vulkan".to_string())
    );
    assert_eq!(
        GlslangCallbacks::rename_client_type("GLSLANG_CLIENT_NONE"),
        Some("None".to_string())
    );
}

#[test]
fn stage_masks_drop_prefix_and_suffix() {
    assert_eq!(
        GlslangCallbacks::rename_shader_stage_mask("GLSLANG_STAGE_VERTEX_MASK"),
        Some("VERTEX".to_string())
    );
    assert_eq!(
        GlslangCallbacks::rename_shader_stage_mask("GLSLANG_STAGE_FRAGMENT_MASK"),
        Some("FRAGMENT".to_string())
    );
    assert_eq!(
        GlslangCallbacks::rename_shader_stage_mask("UNRELATED"),
        Some("UNRELATED".to_string())
    );
}

#[test]
fn target_languages_are_renamed() {
    assert_eq!(
        GlslangCallbacks::rename_target_language("GLSLANG_TARGET_SPV"),
        Some("SPIRV".to_string())
    );
    assert_eq!(GlslangCallbacks::rename_target_language("OTHER"), None);
}

#[test]
fn spirv_versions_are_rewritten() {
    assert_eq!(
        GlslangCallbacks::rename_target_language_version("GLSLANG_TARGET_SPV_1_3"),
        Some("SPIRV1_3".to_string())
    );
    assert_eq!(
        GlslangCallbacks::rename_target_language_version("GLSLANG_TARGET_SPV_1_6"),
        Some("SPIRV1_6".to_string())
    );
}

#[test]
fn client_versions_are_rewritten() {
    assert_eq!(
        GlslangCallbacks::rename_target_client_version("GLSLANG_TARGET_VULKAN_1_2"),
        Some("Vulkan1_2".to_string())
    );
    assert_eq!(
        GlslangCallbacks::rename_target_client_version("GLSLANG_TARGET_OPENGL_450"),
        Some("OpenGL450".to_string())
    );
    assert_eq!(GlslangCallbacks::rename_target_client_version("OTHER"), None);
}

#[test]
fn message_flags_drop_prefix_and_bit() {
    assert_eq!(
        GlslangCallbacks::rename_messages("GLSLANG_MSG_DEFAULT_BIT"),
        Some("DEFAULT".to_string())
    );
    assert_eq!(
        GlslangCallbacks::rename_messages("GLSLANG_MSG_VULKAN_RULES_BIT"),
        Some("VULKAN_RULES".to_string())
    );
}

#[test]
fn shader_option_flags_drop_prefix_and_bit() {
    assert_eq!(
        GlslangCallbacks::rename_shader_options("GLSLANG_SHADER_AUTO_MAP_BINDINGS_BIT"),
        Some("AUTO_MAP_BINDINGS".to_string())
    );
    assert_eq!(
        GlslangCallbacks::rename_shader_options("GLSLANG_SHADER_DEFAULT_BIT"),
        Some("DEFAULT".to_string())
    );
}

#[test]
fn sampler_transform_modes_are_renamed() {
    assert_eq!(
        GlslangCallbacks::rename_texture_sampler_transform_mode("GLSLANG_TEX_SAMP_TRANS_KEEP"),
        Some("Keep".to_string())
    );
    assert_eq!(
        GlslangCallbacks::rename_texture_sampler_transform_mode(
            "GLSLANG_TEX_SAMP_TRANS_UPGRADE_TEXTURE_REMOVE_SAMPLER"
        ),
        Some("UpgradeTextureRemoveSampler".to_string())
    );
}

#[test]
fn profiles_are_renamed() {
    assert_eq!(
        GlslangCallbacks::rename_profile("GLSLANG_ES_PROFILE"),
        Some("ES".to_string())
    );
    assert_eq!(
        GlslangCallbacks::rename_profile("GLSLANG_COMPATIBILITY_PROFILE"),
        Some("Compatibility".to_string())
    );
    assert_eq!(GlslangCallbacks::rename_profile("GLSLANG_X_PROFILE"), None);
}

#[test]
fn variant_names_dispatch_on_the_enum() {
    assert_eq!(
        GlslangCallbacks::enum_variant_name(Some("glslang_stage_t"), "GLSLANG_STAGE_FRAGMENT"),
        Some("Fragment".to_string())
    );
    assert_eq!(
        GlslangCallbacks::enum_variant_name(Some("glslang_profile_t"), "GLSLANG_CORE_PROFILE"),
        Some("Core".to_string())
    );
    assert_eq!(
        GlslangCallbacks::enum_variant_name(
            Some("glslang_messages_t"),
            "GLSLANG_MSG_SPV_RULES_BIT"
        ),
        Some("SPV_RULES".to_string())
    );
    assert_eq!(
        GlslangCallbacks::enum_variant_name(
            Some("glslang_reflection_options_t"),
            "GLSLANG_MSG_AST_BIT"
        ),
        Some("AST".to_string())
    );
    assert_eq!(
        GlslangCallbacks::enum_variant_name(Some("unknown_enum_t"), "GLSLANG_STAGE_FRAGMENT"),
        None
    );
    assert_eq!(
        GlslangCallbacks::enum_variant_name(None, "GLSLANG_STAGE_FRAGMENT"),
        None
    );
}

#[test]
fn counts_vendor_stages_and_bad_profile_are_hidden() {
    assert_eq!(
        GlslangCallbacks::enum_variant_behavior(Some("glslang_stage_t"), "GLSLANG_STAGE_COUNT"),
        Some(VariantBehavior::Hide)
    );
    assert_eq!(
        GlslangCallbacks::enum_variant_behavior(Some("glslang_stage_t"), "GLSLANG_STAGE_MESH_NV"),
        Some(VariantBehavior::Hide)
    );
    assert_eq!(
        GlslangCallbacks::enum_variant_behavior(
            Some("glslang_stage_mask_t"),
            "GLSLANG_STAGE_MESH_NV_MASK"
        ),
        Some(VariantBehavior::Hide)
    );
    assert_eq!(
        GlslangCallbacks::enum_variant_behavior(
            Some("glslang_profile_t"),
            "GLSLANG_BAD_PROFILE"
        ),
        Some(VariantBehavior::Hide)
    );
    assert_eq!(
        GlslangCallbacks::enum_variant_behavior(Some("glslang_stage_t"), "GLSLANG_STAGE_VERTEX"),
        None
    );
    assert_eq!(
        GlslangCallbacks::enum_variant_behavior(None, "GLSLANG_STAGE_VERTEX"),
        None
    );
}

#[test]
fn item_names_are_kept() {
    assert_eq!(GlslangCallbacks::item_name("glslang_shader_create"), None);
}
