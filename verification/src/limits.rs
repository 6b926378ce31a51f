use vstd::prelude::*;

verus! {

/// Capability flags the engine consults during validation: which loop
/// and indexing forms the implementation supports.
#[derive(Clone, Copy, PartialEq, Eq, Structural, Debug)]
pub struct CompilerLimits {
    pub non_inductive_for_loops: bool,
    pub while_loops: bool,
    pub do_while_loops: bool,
    pub general_uniform_indexing: bool,
    pub general_attribute_matrix_vector_indexing: bool,
    pub general_varying_indexing: bool,
    pub general_sampler_indexing: bool,
    pub general_variable_indexing: bool,
    pub general_constant_matrix_vector_indexing: bool,
}

/// The reference defaults for the capability flags: everything allowed.
pub open spec fn spec_default_compiler_limits() -> CompilerLimits {
    CompilerLimits {
        non_inductive_for_loops: true,
        while_loops: true,
        do_while_loops: true,
        general_uniform_indexing: true,
        general_attribute_matrix_vector_indexing: true,
        general_varying_indexing: true,
        general_sampler_indexing: true,
        general_variable_indexing: true,
        general_constant_matrix_vector_indexing: true,
    }
}

impl CompilerLimits {
    /// The reference defaults: every capability flag set.
    pub fn default() -> (r: CompilerLimits)
        ensures
            r == spec_default_compiler_limits(),
    {
        CompilerLimits {
            non_inductive_for_loops: true,
            while_loops: true,
            do_while_loops: true,
            general_uniform_indexing: true,
            general_attribute_matrix_vector_indexing: true,
            general_varying_indexing: true,
            general_sampler_indexing: true,
            general_variable_indexing: true,
            general_constant_matrix_vector_indexing: true,
        }
    }
}

impl Default for CompilerLimits {
    fn default() -> (r: CompilerLimits)
        ensures
            r == spec_default_compiler_limits(),
    {
        CompilerLimits::default()
    }
}

/// The fixed-size implementation limits the engine consults during
/// semantic validation. Pure data: values are opaque integers forwarded
/// verbatim to the engine at descriptor-build time, so no validation is
/// performed here.
#[derive(Clone, Copy, PartialEq, Eq, Structural, Debug)]
pub struct ResourceLimits {
    pub max_lights: i32,
    pub max_clip_planes: i32,
    pub max_texture_units: i32,
    pub max_texture_coords: i32,
    pub max_vertex_attribs: i32,
    pub max_vertex_uniform_components: i32,
    pub max_varying_floats: i32,
    pub max_vertex_texture_image_units: i32,
    pub max_combined_texture_image_units: i32,
    pub max_texture_image_units: i32,
    pub max_fragment_uniform_components: i32,
    pub max_draw_buffers: i32,
    pub max_vertex_uniform_vectors: i32,
    pub max_varying_vectors: i32,
    pub max_fragment_uniform_vectors: i32,
    pub max_vertex_output_vectors: i32,
    pub max_fragment_input_vectors: i32,
    pub min_program_texel_offset: i32,
    pub max_program_texel_offset: i32,
    pub max_clip_distances: i32,
    pub max_compute_work_group_count_x: i32,
    pub max_compute_work_group_count_y: i32,
    pub max_compute_work_group_count_z: i32,
    pub max_compute_work_group_size_x: i32,
    pub max_compute_work_group_size_y: i32,
    pub max_compute_work_group_size_z: i32,
    pub max_compute_uniform_components: i32,
    pub max_compute_texture_image_units: i32,
    pub max_compute_image_uniforms: i32,
    pub max_compute_atomic_counters: i32,
    pub max_compute_atomic_counter_buffers: i32,
    pub max_varying_components: i32,
    pub max_vertex_output_components: i32,
    pub max_geometry_input_components: i32,
    pub max_geometry_output_components: i32,
    pub max_fragment_input_components: i32,
    pub max_image_units: i32,
    pub max_combined_image_units_and_fragment_outputs: i32,
    pub max_combined_shader_output_resources: i32,
    pub max_image_samples: i32,
    pub max_vertex_image_uniforms: i32,
    pub max_tess_control_image_uniforms: i32,
    pub max_tess_evaluation_image_uniforms: i32,
    pub max_geometry_image_uniforms: i32,
    pub max_fragment_image_uniforms: i32,
    pub max_combined_image_uniforms: i32,
    pub max_geometry_texture_image_units: i32,
    pub max_geometry_output_vertices: i32,
    pub max_geometry_total_output_components: i32,
    pub max_geometry_uniform_components: i32,
    pub max_geometry_varying_components: i32,
    pub max_tess_control_input_components: i32,
    pub max_tess_control_output_components: i32,
    pub max_tess_control_texture_image_units: i32,
    pub max_tess_control_uniform_components: i32,
    pub max_tess_control_total_output_components: i32,
    pub max_tess_evaluation_input_components: i32,
    pub max_tess_evaluation_output_components: i32,
    pub max_tess_evaluation_texture_image_units: i32,
    pub max_tess_evaluation_uniform_components: i32,
    pub max_tess_patch_components: i32,
    pub max_patch_vertices: i32,
    pub max_tess_gen_level: i32,
    pub max_viewports: i32,
    pub max_vertex_atomic_counters: i32,
    pub max_tess_control_atomic_counters: i32,
    pub max_tess_evaluation_atomic_counters: i32,
    pub max_geometry_atomic_counters: i32,
    pub max_fragment_atomic_counters: i32,
    pub max_combined_atomic_counters: i32,
    pub max_atomic_counter_bindings: i32,
    pub max_vertex_atomic_counter_buffers: i32,
    pub max_tess_control_atomic_counter_buffers: i32,
    pub max_tess_evaluation_atomic_counter_buffers: i32,
    pub max_geometry_atomic_counter_buffers: i32,
    pub max_fragment_atomic_counter_buffers: i32,
    pub max_combined_atomic_counter_buffers: i32,
    pub max_atomic_counter_buffer_size: i32,
    pub max_transform_feedback_buffers: i32,
    pub max_transform_feedback_interleaved_components: i32,
    pub max_cull_distances: i32,
    pub max_combined_clip_and_cull_distances: i32,
    pub max_samples: i32,
    pub max_mesh_output_vertices_nv: i32,
    pub max_mesh_output_primitives_nv: i32,
    pub max_mesh_work_group_size_x_nv: i32,
    pub max_mesh_work_group_size_y_nv: i32,
    pub max_mesh_work_group_size_z_nv: i32,
    pub max_task_work_group_size_x_nv: i32,
    pub max_task_work_group_size_y_nv: i32,
    pub max_task_work_group_size_z_nv: i32,
    pub max_mesh_view_count_nv: i32,
    pub max_mesh_output_vertices_ext: i32,
    pub max_mesh_output_primitives_ext: i32,
    pub max_mesh_work_group_size_x_ext: i32,
    pub max_mesh_work_group_size_y_ext: i32,
    pub max_mesh_work_group_size_z_ext: i32,
    pub max_task_work_group_size_x_ext: i32,
    pub max_task_work_group_size_y_ext: i32,
    pub max_task_work_group_size_z_ext: i32,
    pub max_mesh_view_count_ext: i32,
    pub max_dual_source_draw_buffers_ext: i32,
    pub limits: CompilerLimits,
}

/// The reference defaults for the implementation limits, mirroring the
/// engine's own defaults.
pub open spec fn spec_default_resource_limits() -> ResourceLimits {
    ResourceLimits {
        max_lights: 32,
        max_clip_planes: 6,
        max_texture_units: 32,
        max_texture_coords: 32,
        max_vertex_attribs: 64,
        max_vertex_uniform_components: 4096,
        max_varying_floats: 64,
        max_vertex_texture_image_units: 32,
        max_combined_texture_image_units: 80,
        max_texture_image_units: 32,
        max_fragment_uniform_components: 4096,
        max_draw_buffers: 32,
        max_vertex_uniform_vectors: 128,
        max_varying_vectors: 8,
        max_fragment_uniform_vectors: 16,
        max_vertex_output_vectors: 16,
        max_fragment_input_vectors: 15,
        min_program_texel_offset: (-8) as i32,
        max_program_texel_offset: 7,
        max_clip_distances: 8,
        max_compute_work_group_count_x: 65535,
        max_compute_work_group_count_y: 65535,
        max_compute_work_group_count_z: 65535,
        max_compute_work_group_size_x: 1024,
        max_compute_work_group_size_y: 1024,
        max_compute_work_group_size_z: 64,
        max_compute_uniform_components: 1024,
        max_compute_texture_image_units: 16,
        max_compute_image_uniforms: 8,
        max_compute_atomic_counters: 8,
        max_compute_atomic_counter_buffers: 1,
        max_varying_components: 60,
        max_vertex_output_components: 64,
        max_geometry_input_components: 64,
        max_geometry_output_components: 128,
        max_fragment_input_components: 128,
        max_image_units: 8,
        max_combined_image_units_and_fragment_outputs: 8,
        max_combined_shader_output_resources: 8,
        max_image_samples: 0,
        max_vertex_image_uniforms: 0,
        max_tess_control_image_uniforms: 0,
        max_tess_evaluation_image_uniforms: 0,
        max_geometry_image_uniforms: 0,
        max_fragment_image_uniforms: 8,
        max_combined_image_uniforms: 8,
        max_geometry_texture_image_units: 16,
        max_geometry_output_vertices: 256,
        max_geometry_total_output_components: 1024,
        max_geometry_uniform_components: 64,
        max_geometry_varying_components: 128,
        max_tess_control_input_components: 128,
        max_tess_control_output_components: 16,
        max_tess_control_texture_image_units: 1,
        max_tess_control_uniform_components: 1024,
        max_tess_control_total_output_components: 4096,
        max_tess_evaluation_input_components: 128,
        max_tess_evaluation_output_components: 128,
        max_tess_evaluation_texture_image_units: 16,
        max_tess_evaluation_uniform_components: 1024,
        max_tess_patch_components: 0,
        max_patch_vertices: 32,
        max_tess_gen_level: 64,
        max_viewports: 16,
        max_vertex_atomic_counters: 0,
        max_tess_control_atomic_counters: 0,
        max_tess_evaluation_atomic_counters: 0,
        max_geometry_atomic_counters: 0,
        max_fragment_atomic_counters: 8,
        max_combined_atomic_counters: 8,
        max_atomic_counter_bindings: 1,
        max_vertex_atomic_counter_buffers: 0,
        max_tess_control_atomic_counter_buffers: 0,
        max_tess_evaluation_atomic_counter_buffers: 0,
        max_geometry_atomic_counter_buffers: 0,
        max_fragment_atomic_counter_buffers: 1,
        max_combined_atomic_counter_buffers: 1,
        max_atomic_counter_buffer_size: 16384,
        max_transform_feedback_buffers: 4,
        max_transform_feedback_interleaved_components: 64,
        max_cull_distances: 8,
        max_combined_clip_and_cull_distances: 8,
        max_samples: 4,
        max_mesh_output_vertices_nv: 256,
        max_mesh_output_primitives_nv: 512,
        max_mesh_work_group_size_x_nv: 32,
        max_mesh_work_group_size_y_nv: 1,
        max_mesh_work_group_size_z_nv: 1,
        max_task_work_group_size_x_nv: 32,
        max_task_work_group_size_y_nv: 1,
        max_task_work_group_size_z_nv: 1,
        max_mesh_view_count_nv: 4,
        max_mesh_output_vertices_ext: 256,
        max_mesh_output_primitives_ext: 256,
        max_mesh_work_group_size_x_ext: 128,
        max_mesh_work_group_size_y_ext: 128,
        max_mesh_work_group_size_z_ext: 128,
        max_task_work_group_size_x_ext: 128,
        max_task_work_group_size_y_ext: 128,
        max_task_work_group_size_z_ext: 128,
        max_mesh_view_count_ext: 4,
        max_dual_source_draw_buffers_ext: 1,
        limits: spec_default_compiler_limits(),
    }
}

impl Default for ResourceLimits {
    /// The reference defaults, mirroring the engine's own defaults.
    fn default() -> (r: ResourceLimits)
        ensures
            r == spec_default_resource_limits(),
    {
        ResourceLimits {
            max_lights: 32,
            max_clip_planes: 6,
            max_texture_units: 32,
            max_texture_coords: 32,
            max_vertex_attribs: 64,
            max_vertex_uniform_components: 4096,
            max_varying_floats: 64,
            max_vertex_texture_image_units: 32,
            max_combined_texture_image_units: 80,
            max_texture_image_units: 32,
            max_fragment_uniform_components: 4096,
            max_draw_buffers: 32,
            max_vertex_uniform_vectors: 128,
            max_varying_vectors: 8,
            max_fragment_uniform_vectors: 16,
            max_vertex_output_vectors: 16,
            max_fragment_input_vectors: 15,
            min_program_texel_offset: -8,
            max_program_texel_offset: 7,
            max_clip_distances: 8,
            max_compute_work_group_count_x: 65535,
            max_compute_work_group_count_y: 65535,
            max_compute_work_group_count_z: 65535,
            max_compute_work_group_size_x: 1024,
            max_compute_work_group_size_y: 1024,
            max_compute_work_group_size_z: 64,
            max_compute_uniform_components: 1024,
            max_compute_texture_image_units: 16,
            max_compute_image_uniforms: 8,
            max_compute_atomic_counters: 8,
            max_compute_atomic_counter_buffers: 1,
            max_varying_components: 60,
            max_vertex_output_components: 64,
            max_geometry_input_components: 64,
            max_geometry_output_components: 128,
            max_fragment_input_components: 128,
            max_image_units: 8,
            max_combined_image_units_and_fragment_outputs: 8,
            max_combined_shader_output_resources: 8,
            max_image_samples: 0,
            max_vertex_image_uniforms: 0,
            max_tess_control_image_uniforms: 0,
            max_tess_evaluation_image_uniforms: 0,
            max_geometry_image_uniforms: 0,
            max_fragment_image_uniforms: 8,
            max_combined_image_uniforms: 8,
            max_geometry_texture_image_units: 16,
            max_geometry_output_vertices: 256,
            max_geometry_total_output_components: 1024,
            max_geometry_uniform_components: 64,
            max_geometry_varying_components: 128,
            max_tess_control_input_components: 128,
            max_tess_control_output_components: 16,
            max_tess_control_texture_image_units: 1,
            max_tess_control_uniform_components: 1024,
            max_tess_control_total_output_components: 4096,
            max_tess_evaluation_input_components: 128,
            max_tess_evaluation_output_components: 128,
            max_tess_evaluation_texture_image_units: 16,
            max_tess_evaluation_uniform_components: 1024,
            max_tess_patch_components: 0,
            max_patch_vertices: 32,
            max_tess_gen_level: 64,
            max_viewports: 16,
            max_vertex_atomic_counters: 0,
            max_tess_control_atomic_counters: 0,
            max_tess_evaluation_atomic_counters: 0,
            max_geometry_atomic_counters: 0,
            max_fragment_atomic_counters: 8,
            max_combined_atomic_counters: 8,
            max_atomic_counter_bindings: 1,
            max_vertex_atomic_counter_buffers: 0,
            max_tess_control_atomic_counter_buffers: 0,
            max_tess_evaluation_atomic_counter_buffers: 0,
            max_geometry_atomic_counter_buffers: 0,
            max_fragment_atomic_counter_buffers: 1,
            max_combined_atomic_counter_buffers: 1,
            max_atomic_counter_buffer_size: 16384,
            max_transform_feedback_buffers: 4,
            max_transform_feedback_interleaved_components: 64,
            max_cull_distances: 8,
            max_combined_clip_and_cull_distances: 8,
            max_samples: 4,
            max_mesh_output_vertices_nv: 256,
            max_mesh_output_primitives_nv: 512,
            max_mesh_work_group_size_x_nv: 32,
            max_mesh_work_group_size_y_nv: 1,
            max_mesh_work_group_size_z_nv: 1,
            max_task_work_group_size_x_nv: 32,
            max_task_work_group_size_y_nv: 1,
            max_task_work_group_size_z_nv: 1,
            max_mesh_view_count_nv: 4,
            max_mesh_output_vertices_ext: 256,
            max_mesh_output_primitives_ext: 256,
            max_mesh_work_group_size_x_ext: 128,
            max_mesh_work_group_size_y_ext: 128,
            max_mesh_work_group_size_z_ext: 128,
            max_task_work_group_size_x_ext: 128,
            max_task_work_group_size_y_ext: 128,
            max_task_work_group_size_z_ext: 128,
            max_mesh_view_count_ext: 4,
            max_dual_source_draw_buffers_ext: 1,
            limits: CompilerLimits::default(),
        }
    }
}

impl ResourceLimits {
    /// Replace the nested capability flags, leaving every limit as it was.
    pub fn set_compiler_limits(&mut self, value: CompilerLimits)
        ensures
            *final(self) == (ResourceLimits { limits: value, ..*old(self) }),
    {
        self.limits = value;
    }

    pub fn set_max_lights(&mut self, value: i32)
        ensures
            *final(self) == (ResourceLimits { max_lights: value, ..*old(self) }),
    {
        self.max_lights = value;
    }

    pub fn set_max_clip_planes(&mut self, value: i32)
        ensures
            *final(self) == (ResourceLimits { max_clip_planes: value, ..*old(self) }),
    {
        self.max_clip_planes = value;
    }

    pub fn set_max_texture_units(&mut self, value: i32)
        ensures
            *final(self) == (ResourceLimits { max_texture_units: value, ..*old(self) }),
    {
        self.max_texture_units = value;
    }

    pub fn set_max_texture_coords(&mut self, value: i32)
        ensures
            *final(self) == (ResourceLimits { max_texture_coords: value, ..*old(self) }),
    {
        self.max_texture_coords = value;
    }

    pub fn set_max_vertex_attribs(&mut self, value: i32)
        ensures
            *final(self) == (ResourceLimits { max_vertex_attribs: value, ..*old(self) }),
    {
        self.max_vertex_attribs = value;
    }

    pub fn set_max_vertex_uniform_components(&mut self, value: i32)
        ensures
            *final(self) == (ResourceLimits { max_vertex_uniform_components: value, ..*old(self) }),
    {
        self.max_vertex_uniform_components = value;
    }

    pub fn set_max_varying_floats(&mut self, value: i32)
        ensures
            *final(self) == (ResourceLimits { max_varying_floats: value, ..*old(self) }),
    {
        self.max_varying_floats = value;
    }

    pub fn set_max_vertex_texture_image_units(&mut self, value: i32)
        ensures
            *final(self) == (ResourceLimits { max_vertex_texture_image_units: value, ..*old(self) }),
    {
        self.max_vertex_texture_image_units = value;
    }

    pub fn set_max_combined_texture_image_units(&mut self, value: i32)
        ensures
            *final(self) == (ResourceLimits { max_combined_texture_image_units: value, ..*old(self) }),
    {
        self.max_combined_texture_image_units = value;
    }

    pub fn set_max_texture_image_units(&mut self, value: i32)
        ensures
            *final(self) == (ResourceLimits { max_texture_image_units: value, ..*old(self) }),
    {
        self.max_texture_image_units = value;
    }

    pub fn set_max_fragment_uniform_components(&mut self, value: i32)
        ensures
            *final(self) == (ResourceLimits { max_fragment_uniform_components: value, ..*old(self) }),
    {
        self.max_fragment_uniform_components = value;
    }

    pub fn set_max_draw_buffers(&mut self, value: i32)
        ensures
            *final(self) == (ResourceLimits { max_draw_buffers: value, ..*old(self) }),
    {
        self.max_draw_buffers = value;
    }

    pub fn set_max_vertex_uniform_vectors(&mut self, value: i32)
        ensures
            *final(self) == (ResourceLimits { max_vertex_uniform_vectors: value, ..*old(self) }),
    {
        self.max_vertex_uniform_vectors = value;
    }

    pub fn set_max_varying_vectors(&mut self, value: i32)
        ensures
            *final(self) == (ResourceLimits { max_varying_vectors: value, ..*old(self) }),
    {
        self.max_varying_vectors = value;
    }

    pub fn set_max_fragment_uniform_vectors(&mut self, value: i32)
        ensures
            *final(self) == (ResourceLimits { max_fragment_uniform_vectors: value, ..*old(self) }),
    {
        self.max_fragment_uniform_vectors = value;
    }

    pub fn set_max_vertex_output_vectors(&mut self, value: i32)
        ensures
            *final(self) == (ResourceLimits { max_vertex_output_vectors: value, ..*old(self) }),
    {
        self.max_vertex_output_vectors = value;
    }

    pub fn set_max_fragment_input_vectors(&mut self, value: i32)
        ensures
            *final(self) == (ResourceLimits { max_fragment_input_vectors: value, ..*old(self) }),
    {
        self.max_fragment_input_vectors = value;
    }

    pub fn set_min_program_texel_offset(&mut self, value: i32)
        ensures
            *final(self) == (ResourceLimits { min_program_texel_offset: value, ..*old(self) }),
    {
        self.min_program_texel_offset = value;
    }

    pub fn set_max_program_texel_offset(&mut self, value: i32)
        ensures
            *final(self) == (ResourceLimits { max_program_texel_offset: value, ..*old(self) }),
    {
        self.max_program_texel_offset = value;
    }

    pub fn set_max_clip_distances(&mut self, value: i32)
        ensures
            *final(self) == (ResourceLimits { max_clip_distances: value, ..*old(self) }),
    {
        self.max_clip_distances = value;
    }

    pub fn set_max_compute_work_group_count_x(&mut self, value: i32)
        ensures
            *final(self) == (ResourceLimits { max_compute_work_group_count_x: value, ..*old(self) }),
    {
        self.max_compute_work_group_count_x = value;
    }

    pub fn set_max_compute_work_group_count_y(&mut self, value: i32)
        ensures
            *final(self) == (ResourceLimits { max_compute_work_group_count_y: value, ..*old(self) }),
    {
        self.max_compute_work_group_count_y = value;
    }

    pub fn set_max_compute_work_group_count_z(&mut self, value: i32)
        ensures
            *final(self) == (ResourceLimits { max_compute_work_group_count_z: value, ..*old(self) }),
    {
        self.max_compute_work_group_count_z = value;
    }

    pub fn set_max_compute_work_group_size_x(&mut self, value: i32)
        ensures
            *final(self) == (ResourceLimits { max_compute_work_group_size_x: value, ..*old(self) }),
    {
        self.max_compute_work_group_size_x = value;
    }

    pub fn set_max_compute_work_group_size_y(&mut self, value: i32)
        ensures
            *final(self) == (ResourceLimits { max_compute_work_group_size_y: value, ..*old(self) }),
    {
        self.max_compute_work_group_size_y = value;
    }

    pub fn set_max_compute_work_group_size_z(&mut self, value: i32)
        ensures
            *final(self) == (ResourceLimits { max_compute_work_group_size_z: value, ..*old(self) }),
    {
        self.max_compute_work_group_size_z = value;
    }

    pub fn set_max_compute_uniform_components(&mut self, value: i32)
        ensures
            *final(self) == (ResourceLimits { max_compute_uniform_components: value, ..*old(self) }),
    {
        self.max_compute_uniform_components = value;
    }

    pub fn set_max_compute_texture_image_units(&mut self, value: i32)
        ensures
            *final(self) == (ResourceLimits { max_compute_texture_image_units: value, ..*old(self) }),
    {
        self.max_compute_texture_image_units = value;
    }

    pub fn set_max_compute_image_uniforms(&mut self, value: i32)
        ensures
            *final(self) == (ResourceLimits { max_compute_image_uniforms: value, ..*old(self) }),
    {
        self.max_compute_image_uniforms = value;
    }

    pub fn set_max_compute_atomic_counters(&mut self, value: i32)
        ensures
            *final(self) == (ResourceLimits { max_compute_atomic_counters: value, ..*old(self) }),
    {
        self.max_compute_atomic_counters = value;
    }

    pub fn set_max_compute_atomic_counter_buffers(&mut self, value: i32)
        ensures
            *final(self) == (ResourceLimits { max_compute_atomic_counter_buffers: value, ..*old(self) }),
    {
        self.max_compute_atomic_counter_buffers = value;
    }

    pub fn set_max_varying_components(&mut self, value: i32)
        ensures
            *final(self) == (ResourceLimits { max_varying_components: value, ..*old(self) }),
    {
        self.max_varying_components = value;
    }

    pub fn set_max_vertex_output_components(&mut self, value: i32)
        ensures
            *final(self) == (ResourceLimits { max_vertex_output_components: value, ..*old(self) }),
    {
        self.max_vertex_output_components = value;
    }

    pub fn set_max_geometry_input_components(&mut self, value: i32)
        ensures
            *final(self) == (ResourceLimits { max_geometry_input_components: value, ..*old(self) }),
    {
        self.max_geometry_input_components = value;
    }

    pub fn set_max_geometry_output_components(&mut self, value: i32)
        ensures
            *final(self) == (ResourceLimits { max_geometry_output_components: value, ..*old(self) }),
    {
        self.max_geometry_output_components = value;
    }

    pub fn set_max_fragment_input_components(&mut self, value: i32)
        ensures
            *final(self) == (ResourceLimits { max_fragment_input_components: value, ..*old(self) }),
    {
        self.max_fragment_input_components = value;
    }

    pub fn set_max_image_units(&mut self, value: i32)
        ensures
            *final(self) == (ResourceLimits { max_image_units: value, ..*old(self) }),
    {
        self.max_image_units = value;
    }

    pub fn set_max_combined_image_units_and_fragment_outputs(&mut self, value: i32)
        ensures
            *final(self) == (ResourceLimits { max_combined_image_units_and_fragment_outputs: value, ..*old(self) }),
    {
        self.max_combined_image_units_and_fragment_outputs = value;
    }

    pub fn set_max_combined_shader_output_resources(&mut self, value: i32)
        ensures
            *final(self) == (ResourceLimits { max_combined_shader_output_resources: value, ..*old(self) }),
    {
        self.max_combined_shader_output_resources = value;
    }

    pub fn set_max_image_samples(&mut self, value: i32)
        ensures
            *final(self) == (ResourceLimits { max_image_samples: value, ..*old(self) }),
    {
        self.max_image_samples = value;
    }

    pub fn set_max_vertex_image_uniforms(&mut self, value: i32)
        ensures
            *final(self) == (ResourceLimits { max_vertex_image_uniforms: value, ..*old(self) }),
    {
        self.max_vertex_image_uniforms = value;
    }

    pub fn set_max_tess_control_image_uniforms(&mut self, value: i32)
        ensures
            *final(self) == (ResourceLimits { max_tess_control_image_uniforms: value, ..*old(self) }),
    {
        self.max_tess_control_image_uniforms = value;
    }

    pub fn set_max_tess_evaluation_image_uniforms(&mut self, value: i32)
        ensures
            *final(self) == (ResourceLimits { max_tess_evaluation_image_uniforms: value, ..*old(self) }),
    {
        self.max_tess_evaluation_image_uniforms = value;
    }

    pub fn set_max_geometry_image_uniforms(&mut self, value: i32)
        ensures
            *final(self) == (ResourceLimits { max_geometry_image_uniforms: value, ..*old(self) }),
    {
        self.max_geometry_image_uniforms = value;
    }

    pub fn set_max_fragment_image_uniforms(&mut self, value: i32)
        ensures
            *final(self) == (ResourceLimits { max_fragment_image_uniforms: value, ..*old(self) }),
    {
        self.max_fragment_image_uniforms = value;
    }

    pub fn set_max_combined_image_uniforms(&mut self, value: i32)
        ensures
            *final(self) == (ResourceLimits { max_combined_image_uniforms: value, ..*old(self) }),
    {
        self.max_combined_image_uniforms = value;
    }

    pub fn set_max_geometry_texture_image_units(&mut self, value: i32)
        ensures
            *final(self) == (ResourceLimits { max_geometry_texture_image_units: value, ..*old(self) }),
    {
        self.max_geometry_texture_image_units = value;
    }

    pub fn set_max_geometry_output_vertices(&mut self, value: i32)
        ensures
            *final(self) == (ResourceLimits { max_geometry_output_vertices: value, ..*old(self) }),
    {
        self.max_geometry_output_vertices = value;
    }

    pub fn set_max_geometry_total_output_components(&mut self, value: i32)
        ensures
            *final(self) == (ResourceLimits { max_geometry_total_output_components: value, ..*old(self) }),
    {
        self.max_geometry_total_output_components = value;
    }

    pub fn set_max_geometry_uniform_components(&mut self, value: i32)
        ensures
            *final(self) == (ResourceLimits { max_geometry_uniform_components: value, ..*old(self) }),
    {
        self.max_geometry_uniform_components = value;
    }

    pub fn set_max_geometry_varying_components(&mut self, value: i32)
        ensures
            *final(self) == (ResourceLimits { max_geometry_varying_components: value, ..*old(self) }),
    {
        self.max_geometry_varying_components = value;
    }

    pub fn set_max_tess_control_input_components(&mut self, value: i32)
        ensures
            *final(self) == (ResourceLimits { max_tess_control_input_components: value, ..*old(self) }),
    {
        self.max_tess_control_input_components = value;
    }

    pub fn set_max_tess_control_output_components(&mut self, value: i32)
        ensures
            *final(self) == (ResourceLimits { max_tess_control_output_components: value, ..*old(self) }),
    {
        self.max_tess_control_output_components = value;
    }

    pub fn set_max_tess_control_texture_image_units(&mut self, value: i32)
        ensures
            *final(self) == (ResourceLimits { max_tess_control_texture_image_units: value, ..*old(self) }),
    {
        self.max_tess_control_texture_image_units = value;
    }

    pub fn set_max_tess_control_uniform_components(&mut self, value: i32)
        ensures
            *final(self) == (ResourceLimits { max_tess_control_uniform_components: value, ..*old(self) }),
    {
        self.max_tess_control_uniform_components = value;
    }

    pub fn set_max_tess_control_total_output_components(&mut self, value: i32)
        ensures
            *final(self) == (ResourceLimits { max_tess_control_total_output_components: value, ..*old(self) }),
    {
        self.max_tess_control_total_output_components = value;
    }

    pub fn set_max_tess_evaluation_input_components(&mut self, value: i32)
        ensures
            *final(self) == (ResourceLimits { max_tess_evaluation_input_components: value, ..*old(self) }),
    {
        self.max_tess_evaluation_input_components = value;
    }

    pub fn set_max_tess_evaluation_output_components(&mut self, value: i32)
        ensures
            *final(self) == (ResourceLimits { max_tess_evaluation_output_components: value, ..*old(self) }),
    {
        self.max_tess_evaluation_output_components = value;
    }

    pub fn set_max_tess_evaluation_texture_image_units(&mut self, value: i32)
        ensures
            *final(self) == (ResourceLimits { max_tess_evaluation_texture_image_units: value, ..*old(self) }),
    {
        self.max_tess_evaluation_texture_image_units = value;
    }

    pub fn set_max_tess_evaluation_uniform_components(&mut self, value: i32)
        ensures
            *final(self) == (ResourceLimits { max_tess_evaluation_uniform_components: value, ..*old(self) }),
    {
        self.max_tess_evaluation_uniform_components = value;
    }

    pub fn set_max_tess_patch_components(&mut self, value: i32)
        ensures
            *final(self) == (ResourceLimits { max_tess_patch_components: value, ..*old(self) }),
    {
        self.max_tess_patch_components = value;
    }

    pub fn set_max_patch_vertices(&mut self, value: i32)
        ensures
            *final(self) == (ResourceLimits { max_patch_vertices: value, ..*old(self) }),
    {
        self.max_patch_vertices = value;
    }

    pub fn set_max_tess_gen_level(&mut self, value: i32)
        ensures
            *final(self) == (ResourceLimits { max_tess_gen_level: value, ..*old(self) }),
    {
        self.max_tess_gen_level = value;
    }

    pub fn set_max_viewports(&mut self, value: i32)
        ensures
            *final(self) == (ResourceLimits { max_viewports: value, ..*old(self) }),
    {
        self.max_viewports = value;
    }

    pub fn set_max_vertex_atomic_counters(&mut self, value: i32)
        ensures
            *final(self) == (ResourceLimits { max_vertex_atomic_counters: value, ..*old(self) }),
    {
        self.max_vertex_atomic_counters = value;
    }

    pub fn set_max_tess_control_atomic_counters(&mut self, value: i32)
        ensures
            *final(self) == (ResourceLimits { max_tess_control_atomic_counters: value, ..*old(self) }),
    {
        self.max_tess_control_atomic_counters = value;
    }

    pub fn set_max_tess_evaluation_atomic_counters(&mut self, value: i32)
        ensures
            *final(self) == (ResourceLimits { max_tess_evaluation_atomic_counters: value, ..*old(self) }),
    {
        self.max_tess_evaluation_atomic_counters = value;
    }

    pub fn set_max_geometry_atomic_counters(&mut self, value: i32)
        ensures
            *final(self) == (ResourceLimits { max_geometry_atomic_counters: value, ..*old(self) }),
    {
        self.max_geometry_atomic_counters = value;
    }

    pub fn set_max_fragment_atomic_counters(&mut self, value: i32)
        ensures
            *final(self) == (ResourceLimits { max_fragment_atomic_counters: value, ..*old(self) }),
    {
        self.max_fragment_atomic_counters = value;
    }

    pub fn set_max_combined_atomic_counters(&mut self, value: i32)
        ensures
            *final(self) == (ResourceLimits { max_combined_atomic_counters: value, ..*old(self) }),
    {
        self.max_combined_atomic_counters = value;
    }

    pub fn set_max_atomic_counter_bindings(&mut self, value: i32)
        ensures
            *final(self) == (ResourceLimits { max_atomic_counter_bindings: value, ..*old(self) }),
    {
        self.max_atomic_counter_bindings = value;
    }

    pub fn set_max_vertex_atomic_counter_buffers(&mut self, value: i32)
        ensures
            *final(self) == (ResourceLimits { max_vertex_atomic_counter_buffers: value, ..*old(self) }),
    {
        self.max_vertex_atomic_counter_buffers = value;
    }

    pub fn set_max_tess_control_atomic_counter_buffers(&mut self, value: i32)
        ensures
            *final(self) == (ResourceLimits { max_tess_control_atomic_counter_buffers: value, ..*old(self) }),
    {
        self.max_tess_control_atomic_counter_buffers = value;
    }

    pub fn set_max_tess_evaluation_atomic_counter_buffers(&mut self, value: i32)
        ensures
            *final(self) == (ResourceLimits { max_tess_evaluation_atomic_counter_buffers: value, ..*old(self) }),
    {
        self.max_tess_evaluation_atomic_counter_buffers = value;
    }

    pub fn set_max_geometry_atomic_counter_buffers(&mut self, value: i32)
        ensures
            *final(self) == (ResourceLimits { max_geometry_atomic_counter_buffers: value, ..*old(self) }),
    {
        self.max_geometry_atomic_counter_buffers = value;
    }

    pub fn set_max_fragment_atomic_counter_buffers(&mut self, value: i32)
        ensures
            *final(self) == (ResourceLimits { max_fragment_atomic_counter_buffers: value, ..*old(self) }),
    {
        self.max_fragment_atomic_counter_buffers = value;
    }

    pub fn set_max_combined_atomic_counter_buffers(&mut self, value: i32)
        ensures
            *final(self) == (ResourceLimits { max_combined_atomic_counter_buffers: value, ..*old(self) }),
    {
        self.max_combined_atomic_counter_buffers = value;
    }

    pub fn set_max_atomic_counter_buffer_size(&mut self, value: i32)
        ensures
            *final(self) == (ResourceLimits { max_atomic_counter_buffer_size: value, ..*old(self) }),
    {
        self.max_atomic_counter_buffer_size = value;
    }

    pub fn set_max_transform_feedback_buffers(&mut self, value: i32)
        ensures
            *final(self) == (ResourceLimits { max_transform_feedback_buffers: value, ..*old(self) }),
    {
        self.max_transform_feedback_buffers = value;
    }

    pub fn set_max_transform_feedback_interleaved_components(&mut self, value: i32)
        ensures
            *final(self) == (ResourceLimits { max_transform_feedback_interleaved_components: value, ..*old(self) }),
    {
        self.max_transform_feedback_interleaved_components = value;
    }

    pub fn set_max_cull_distances(&mut self, value: i32)
        ensures
            *final(self) == (ResourceLimits { max_cull_distances: value, ..*old(self) }),
    {
        self.max_cull_distances = value;
    }

    pub fn set_max_combined_clip_and_cull_distances(&mut self, value: i32)
        ensures
            *final(self) == (ResourceLimits { max_combined_clip_and_cull_distances: value, ..*old(self) }),
    {
        self.max_combined_clip_and_cull_distances = value;
    }

    pub fn set_max_samples(&mut self, value: i32)
        ensures
            *final(self) == (ResourceLimits { max_samples: value, ..*old(self) }),
    {
        self.max_samples = value;
    }

    pub fn set_max_mesh_output_vertices_nv(&mut self, value: i32)
        ensures
            *final(self) == (ResourceLimits { max_mesh_output_vertices_nv: value, ..*old(self) }),
    {
        self.max_mesh_output_vertices_nv = value;
    }

    pub fn set_max_mesh_output_primitives_nv(&mut self, value: i32)
        ensures
            *final(self) == (ResourceLimits { max_mesh_output_primitives_nv: value, ..*old(self) }),
    {
        self.max_mesh_output_primitives_nv = value;
    }

    pub fn set_max_mesh_work_group_size_x_nv(&mut self, value: i32)
        ensures
            *final(self) == (ResourceLimits { max_mesh_work_group_size_x_nv: value, ..*old(self) }),
    {
        self.max_mesh_work_group_size_x_nv = value;
    }

    pub fn set_max_mesh_work_group_size_y_nv(&mut self, value: i32)
        ensures
            *final(self) == (ResourceLimits { max_mesh_work_group_size_y_nv: value, ..*old(self) }),
    {
        self.max_mesh_work_group_size_y_nv = value;
    }

    pub fn set_max_mesh_work_group_size_z_nv(&mut self, value: i32)
        ensures
            *final(self) == (ResourceLimits { max_mesh_work_group_size_z_nv: value, ..*old(self) }),
    {
        self.max_mesh_work_group_size_z_nv = value;
    }

    pub fn set_max_task_work_group_size_x_nv(&mut self, value: i32)
        ensures
            *final(self) == (ResourceLimits { max_task_work_group_size_x_nv: value, ..*old(self) }),
    {
        self.max_task_work_group_size_x_nv = value;
    }

    pub fn set_max_task_work_group_size_y_nv(&mut self, value: i32)
        ensures
            *final(self) == (ResourceLimits { max_task_work_group_size_y_nv: value, ..*old(self) }),
    {
        self.max_task_work_group_size_y_nv = value;
    }

    pub fn set_max_task_work_group_size_z_nv(&mut self, value: i32)
        ensures
            *final(self) == (ResourceLimits { max_task_work_group_size_z_nv: value, ..*old(self) }),
    {
        self.max_task_work_group_size_z_nv = value;
    }

    pub fn set_max_mesh_view_count_nv(&mut self, value: i32)
        ensures
            *final(self) == (ResourceLimits { max_mesh_view_count_nv: value, ..*old(self) }),
    {
        self.max_mesh_view_count_nv = value;
    }

    pub fn set_max_mesh_output_vertices_ext(&mut self, value: i32)
        ensures
            *final(self) == (ResourceLimits { max_mesh_output_vertices_ext: value, ..*old(self) }),
    {
        self.max_mesh_output_vertices_ext = value;
    }

    pub fn set_max_mesh_output_primitives_ext(&mut self, value: i32)
        ensures
            *final(self) == (ResourceLimits { max_mesh_output_primitives_ext: value, ..*old(self) }),
    {
        self.max_mesh_output_primitives_ext = value;
    }

    pub fn set_max_mesh_work_group_size_x_ext(&mut self, value: i32)
        ensures
            *final(self) == (ResourceLimits { max_mesh_work_group_size_x_ext: value, ..*old(self) }),
    {
        self.max_mesh_work_group_size_x_ext = value;
    }

    pub fn set_max_mesh_work_group_size_y_ext(&mut self, value: i32)
        ensures
            *final(self) == (ResourceLimits { max_mesh_work_group_size_y_ext: value, ..*old(self) }),
    {
        self.max_mesh_work_group_size_y_ext = value;
    }

    pub fn set_max_mesh_work_group_size_z_ext(&mut self, value: i32)
        ensures
            *final(self) == (ResourceLimits { max_mesh_work_group_size_z_ext: value, ..*old(self) }),
    {
        self.max_mesh_work_group_size_z_ext = value;
    }

    pub fn set_max_task_work_group_size_x_ext(&mut self, value: i32)
        ensures
            *final(self) == (ResourceLimits { max_task_work_group_size_x_ext: value, ..*old(self) }),
    {
        self.max_task_work_group_size_x_ext = value;
    }

    pub fn set_max_task_work_group_size_y_ext(&mut self, value: i32)
        ensures
            *final(self) == (ResourceLimits { max_task_work_group_size_y_ext: value, ..*old(self) }),
    {
        self.max_task_work_group_size_y_ext = value;
    }

    pub fn set_max_task_work_group_size_z_ext(&mut self, value: i32)
        ensures
            *final(self) == (ResourceLimits { max_task_work_group_size_z_ext: value, ..*old(self) }),
    {
        self.max_task_work_group_size_z_ext = value;
    }

    pub fn set_max_mesh_view_count_ext(&mut self, value: i32)
        ensures
            *final(self) == (ResourceLimits { max_mesh_view_count_ext: value, ..*old(self) }),
    {
        self.max_mesh_view_count_ext = value;
    }

    pub fn set_max_dual_source_draw_buffers_ext(&mut self, value: i32)
        ensures
            *final(self) == (ResourceLimits { max_dual_source_draw_buffers_ext: value, ..*old(self) }),
    {
        self.max_dual_source_draw_buffers_ext = value;
    }

}

} // verus!
