use glslang::{CompilerLimits, ResourceLimits};

#[test]
fn defaults_mirror_the_reference_values() {
    let limits = ResourceLimits::default();
    assert_eq!(limits.max_lights, 32);
    assert_eq!(limits.max_clip_planes, 6);
    assert_eq!(limits.max_texture_units, 32);
    assert_eq!(limits.max_vertex_uniform_components, 4096);
    assert_eq!(limits.min_program_texel_offset, -8);
    assert_eq!(limits.max_program_texel_offset, 7);
    assert_eq!(limits.max_compute_work_group_count_x, 65535);
    assert_eq!(limits.max_compute_work_group_size_z, 64);
    assert_eq!(limits.max_image_samples, 0);
    assert_eq!(limits.max_atomic_counter_buffer_size, 16384);
    assert_eq!(limits.max_mesh_output_vertices_nv, 256);
    assert_eq!(limits.max_mesh_work_group_size_x_ext, 128);
    assert_eq!(limits.max_mesh_view_count_ext, 4);
    assert_eq!(limits.max_dual_source_draw_buffers_ext, 1);
}

#[test]
fn capability_flags_default_to_allowed() {
    let flags = CompilerLimits::default();
    assert!(flags.non_inductive_for_loops);
    assert!(flags.while_loops);
    assert!(flags.do_while_loops);
    assert!(flags.general_uniform_indexing);
    assert!(flags.general_attribute_matrix_vector_indexing);
    assert!(flags.general_varying_indexing);
    assert!(flags.general_sampler_indexing);
    assert!(flags.general_variable_indexing);
    assert!(flags.general_constant_matrix_vector_indexing);
}

#[test]
fn setting_max_lights_touches_only_that_field() {
    let mut limits = ResourceLimits::default();
    limits.set_max_lights(64);
    assert_eq!(limits.max_lights, 64);
    let reference = ResourceLimits::default();
    assert_eq!(limits.max_clip_planes, reference.max_clip_planes);
    assert_eq!(limits.max_texture_units, reference.max_texture_units);
    assert_eq!(limits.min_program_texel_offset, reference.min_program_texel_offset);
    assert_eq!(limits.max_samples, reference.max_samples);
    assert_eq!(limits.limits, reference.limits);
    let mut roundtrip = limits;
    roundtrip.set_max_lights(reference.max_lights);
    assert_eq!(roundtrip, reference);
}

#[test]
fn each_setter_writes_its_field() {
    let mut limits = ResourceLimits::default();
    limits.set_max_clip_planes(11);
    limits.set_min_program_texel_offset(-16);
    limits.set_max_dual_source_draw_buffers_ext(3);
    limits.set_max_compute_work_group_size_x(2048);
    assert_eq!(limits.max_clip_planes, 11);
    assert_eq!(limits.min_program_texel_offset, -16);
    assert_eq!(limits.max_dual_source_draw_buffers_ext, 3);
    assert_eq!(limits.max_compute_work_group_size_x, 2048);
}

#[test]
fn capability_flags_can_be_replaced() {
    let mut limits = ResourceLimits::default();
    let flags = CompilerLimits {
        while_loops: false,
        ..CompilerLimits::default()
    };
    limits.set_compiler_limits(flags);
    assert!(!limits.limits.while_loops);
    assert!(limits.limits.do_while_loops);
    assert_eq!(limits.max_lights, 32);
}
