use vstd::prelude::*;

verus! {

/// Shader stages a single compilation unit can target.
#[derive(Clone, Copy, PartialEq, Eq, Structural, Debug, Hash)]
pub enum ShaderStage {
    Vertex,
    TesselationControl,
    TesselationEvaluation,
    Geometry,
    Fragment,
    Compute,
    Kernel,
    RayGeneration,
    Intersect,
    AnyHit,
    ClosestHit,
    Miss,
    Callable,
    Task,
    Mesh,
}

/// GLSL profiles.
#[derive(Clone, Copy, PartialEq, Eq, Structural, Debug, Hash)]
pub enum GlslProfile {
    /// No profile word was given.
    NoProfile,
    Core,
    Compatibility,
    ES,
}

/// The language of the source file.
#[derive(Clone, Copy, PartialEq, Eq, Structural, Debug, Hash)]
pub enum SourceLanguage {
    NoSource,
    GLSL,
    HLSL,
}

/// The consuming runtime a shader is validated against.
#[derive(Clone, Copy, PartialEq, Eq, Structural, Debug, Hash)]
pub enum TargetEnv {
    NoClient,
    Vulkan,
    OpenGL,
}

/// The version of the consuming runtime.
#[allow(non_camel_case_types)]
#[derive(Clone, Copy, PartialEq, Eq, Structural, Debug, Hash)]
pub enum EnvVersion {
    Vulkan1_0,
    Vulkan1_1,
    Vulkan1_2,
    Vulkan1_3,
    OpenGL450,
}

/// The binary form the engine is asked to emit.
#[derive(Clone, Copy, PartialEq, Eq, Structural, Debug, Hash)]
pub enum TargetLanguage {
    NoLanguage,
    SPIRV,
}

/// SPIR-V language versions.
#[allow(non_camel_case_types)]
#[derive(Clone, Copy, PartialEq, Eq, Structural, Debug, Hash)]
pub enum SpirvVersion {
    SPIRV1_0,
    SPIRV1_1,
    SPIRV1_2,
    SPIRV1_3,
    SPIRV1_4,
    SPIRV1_5,
    SPIRV1_6,
}

/// Resource kinds whose bindings can be shifted.
#[derive(Clone, Copy, PartialEq, Eq, Structural, Debug, Hash)]
pub enum ResourceType {
    Sampler,
    Texture,
    Image,
    UBO,
    SSBO,
    UAV,
}

pub const MSG_DEFAULT: i32 = 0;

pub const MSG_RELAXED_ERRORS: i32 = 1;

pub const MSG_SUPPRESS_WARNINGS: i32 = 2;

pub const MSG_AST: i32 = 4;

pub const MSG_SPV_RULES: i32 = 8;

pub const MSG_VULKAN_RULES: i32 = 16;

pub const MSG_ONLY_PREPROCESSOR: i32 = 32;

pub const MSG_READ_HLSL: i32 = 64;

pub const MSG_CASCADING_ERRORS: i32 = 128;

pub const MSG_KEEP_UNCALLED: i32 = 256;

pub const MSG_HLSL_OFFSETS: i32 = 512;

pub const MSG_DEBUG_INFO: i32 = 1024;

pub const MSG_HLSL_ENABLE_16BIT_TYPES: i32 = 2048;

pub const MSG_HLSL_LEGALIZATION: i32 = 4096;

pub const MSG_HLSL_DX9_COMPATIBLE: i32 = 8192;

pub const MSG_BUILTIN_SYMBOL_TABLE: i32 = 16384;

pub const MSG_ENHANCED: i32 = 32768;

pub const MSG_ABSOLUTE_PATH: i32 = 65536;

pub const MSG_DISPLAY_ERROR_COLUMN: i32 = 131072;

/// Message flags handed to the engine, a plain bit set.
#[derive(Clone, Copy, PartialEq, Eq, Structural, Debug, Hash)]
pub struct ShaderMessage {
    pub bits: i32,
}

impl ShaderMessage {
    /// The default, empty set of message flags.
    pub fn new() -> (r: ShaderMessage)
        ensures
            r.bits == MSG_DEFAULT,
    {
        ShaderMessage { bits: MSG_DEFAULT }
    }

    /// A set of message flags from raw bits.
    pub fn from_bits(bits: i32) -> (r: ShaderMessage)
        ensures
            r.bits == bits,
    {
        ShaderMessage { bits }
    }

    /// The union of two sets of message flags.
    pub fn union(self, other: ShaderMessage) -> (r: ShaderMessage)
        ensures
            r.bits == self.bits | other.bits,
    {
        ShaderMessage { bits: self.bits | other.bits }
    }
}

pub const OPT_DEFAULT: i32 = 0;

pub const OPT_AUTO_MAP_BINDINGS: i32 = 1;

pub const OPT_AUTO_MAP_LOCATIONS: i32 = 2;

pub const OPT_VULKAN_RULES_RELAXED: i32 = 4;

/// Shader compilation flags, a plain bit set.
#[derive(Clone, Copy, PartialEq, Eq, Structural, Debug, Hash)]
pub struct ShaderOptions {
    pub bits: i32,
}

impl ShaderOptions {
    /// The default, empty set of option flags.
    pub fn new() -> (r: ShaderOptions)
        ensures
            r.bits == OPT_DEFAULT,
    {
        ShaderOptions { bits: OPT_DEFAULT }
    }

    /// A set of option flags from raw bits.
    pub fn from_bits(bits: i32) -> (r: ShaderOptions)
        ensures
            r.bits == bits,
    {
        ShaderOptions { bits }
    }

    /// The union of two sets of option flags.
    pub fn union(self, other: ShaderOptions) -> (r: ShaderOptions)
        ensures
            r.bits == self.bits | other.bits,
    {
        ShaderOptions { bits: self.bits | other.bits }
    }
}

} // verus!
