use vstd::prelude::*;

use crate::ctypes::{
    EnvVersion, GlslProfile, ShaderMessage, ShaderStage, SourceLanguage, SpirvVersion, TargetEnv,
    TargetLanguage, MSG_DEFAULT,
};
use crate::error::{GlslangError, GlslangErrorLog};
use crate::limits::{spec_default_resource_limits, ResourceLimits};
use crate::program::{compile_outcome, CompileJob, Program};
use crate::source::{spec_parse_profile, ShaderSource};
use crate::strutil::copy_bytes;
use crate::target::{
    env_version_of, spec_verify_glsl_profile, target_env_of, target_language_of, spirv_version_of,
    Target, VulkanVersion,
};
use crate::Compiler;

verus! {

/// Options to configure the compilation of a shader.
#[derive(Debug, Clone, PartialEq)]
pub struct CompilerOptions {
    /// The source language of the shader.
    pub source_language: SourceLanguage,
    /// The target.
    pub target: Target,
    /// The GLSL version profile.
    /// If specified, will force the specified profile on compilation.
    pub version_profile: Option<(i32, GlslProfile)>,
    /// Messages for the engine to emit.
    pub messages: ShaderMessage,
}

/// The default options: GLSL source for Vulkan 1.0, SPIR-V 1.0, no
/// forced profile, default messages.
pub open spec fn spec_default_compiler_options() -> CompilerOptions {
    CompilerOptions {
        source_language: SourceLanguage::GLSL,
        target: Target::Vulkan {
            version: VulkanVersion::Vulkan1_0,
            spirv_version: SpirvVersion::SPIRV1_0,
        },
        version_profile: None,
        messages: ShaderMessage { bits: MSG_DEFAULT },
    }
}

impl Default for CompilerOptions {
    fn default() -> (r: CompilerOptions)
        ensures
            r == spec_default_compiler_options(),
    {
        CompilerOptions {
            source_language: SourceLanguage::GLSL,
            target: Target::Vulkan {
                version: VulkanVersion::Vulkan1_0,
                spirv_version: SpirvVersion::SPIRV1_0,
            },
            version_profile: None,
            messages: ShaderMessage { bits: MSG_DEFAULT },
        }
    }
}

/// The input descriptor a shader unit is built from: the validated,
/// plain fields the engine's create call reads.
#[derive(Debug)]
pub struct ShaderInput {
    pub language: SourceLanguage,
    pub stage: ShaderStage,
    pub client: TargetEnv,
    pub client_version: EnvVersion,
    pub target_language: TargetLanguage,
    pub target_language_version: SpirvVersion,
    /// The nul-free source text.
    pub code: Vec<u8>,
    pub default_version: i32,
    pub default_profile: GlslProfile,
    pub force_default_version_and_profile: i32,
    pub forward_compatible: i32,
    pub messages: ShaderMessage,
    pub resource: ResourceLimits,
}

/// The (version, profile) constraint validation sees: the explicit one
/// from the options, else the one declared in the source text.
pub open spec fn effective_profile(options: CompilerOptions, source: Seq<u8>) -> Option<
    (i32, GlslProfile),
> {
    match options.version_profile {
        Some(p) => Some(p),
        None => spec_parse_profile(source),
    }
}

/// The validation a descriptor build performs: for GLSL the target is
/// checked against the effective profile; other languages are the
/// engine's own concern and pass.
pub open spec fn input_validation(options: CompilerOptions, source: Seq<u8>) -> Result<
    (),
    GlslangError,
> {
    if options.source_language == SourceLanguage::GLSL {
        spec_verify_glsl_profile(options.target, effective_profile(options, source))
    } else {
        Ok(())
    }
}

/// The descriptor fields a successful build must carry, resolved from
/// the source, limits, stage and options.
pub open spec fn input_matches(
    input: ShaderInput,
    source: Seq<u8>,
    resource: ResourceLimits,
    stage: ShaderStage,
    options: CompilerOptions,
) -> bool {
    &&& input.language == options.source_language
    &&& input.stage == stage
    &&& input.client == target_env_of(options.target)
    &&& input.client_version == env_version_of(options.target)
    &&& input.target_language == target_language_of(options.target)
    &&& input.target_language_version == spirv_version_of(options.target)
    &&& input.code@ == source
    &&& input.default_version == match options.version_profile {
        Some(p) => p.0,
        None => 100,
    }
    &&& input.default_profile == match options.version_profile {
        Some(p) => p.1,
        None => GlslProfile::NoProfile,
    }
    &&& input.force_default_version_and_profile == match options.version_profile {
        Some(_) => 1int,
        None => 0int,
    }
    &&& input.forward_compatible == 0
    &&& input.messages == options.messages
    &&& input.resource == resource
}

impl ShaderInput {
    /// Build a descriptor with default limits; fails exactly where the
    /// target validation fails.
    pub fn new(source: &ShaderSource, stage: ShaderStage, options: &CompilerOptions) -> (r: Result<
        ShaderInput,
        GlslangError,
    >)
        ensures
            r is Ok <==> input_validation(*options, source@) is Ok,
            r matches Ok(input) ==> input_matches(
                input,
                source@,
                spec_default_resource_limits(),
                stage,
                *options,
            ),
            r matches Err(e) ==> input_validation(*options, source@) == Err::<(), GlslangError>(e),
    {
        let limits = ResourceLimits::default();
        Self::new_with_limits(source, &limits, stage, options)
    }

    /// Build a descriptor with the given limits; fails exactly where the
    /// target validation fails.
    pub fn new_with_limits(
        source: &ShaderSource,
        resource: &ResourceLimits,
        stage: ShaderStage,
        options: &CompilerOptions,
    ) -> (r: Result<ShaderInput, GlslangError>)
        ensures
            r is Ok <==> input_validation(*options, source@) is Ok,
            r matches Ok(input) ==> input_matches(input, source@, *resource, stage, *options),
            r matches Err(e) ==> input_validation(*options, source@) == Err::<(), GlslangError>(e),
    {
        let profile: Option<(i32, GlslProfile)> = match options.version_profile {
            Some(p) => Some(p),
            None => source.parse_profile(),
        };

        if options.source_language == SourceLanguage::GLSL {
            match options.target.verify_glsl_profile(profile.as_ref()) {
                Err(e) => {
                    return Err(e);
                },
                Ok(()) => {},
            }
        }

        let (default_version, default_profile, force): (i32, GlslProfile, i32) =
            match options.version_profile {
            Some(p) => (p.0, p.1, 1),
            None => (100, GlslProfile::NoProfile, 0),
        };

        Ok(
            ShaderInput {
                language: options.source_language,
                stage,
                client: options.target.env(),
                client_version: options.target.env_version(),
                target_language: options.target.target_spirv(),
                target_language_version: options.target.spirv_version(),
                code: copy_bytes(source.text()),
                default_version,
                default_profile,
                force_default_version_and_profile: force,
                forward_compatible: 0,
                messages: options.messages,
                resource: *resource,
            },
        )
    }
}

/// A shader unit whose native handle was allocated from a descriptor
/// but which the engine has not yet preprocessed.
#[derive(Debug)]
pub struct ShaderBuild {
    stage: ShaderStage,
    is_spirv: bool,
}

/// A shader unit the engine has preprocessed but not yet parsed.
#[derive(Debug)]
pub struct PreprocessedShader {
    stage: ShaderStage,
    is_spirv: bool,
}

/// A shader unit the engine has preprocessed and parsed: the only state
/// a program will accept. The typed chain from `ShaderBuild` on makes
/// out-of-order native calls unrepresentable.
#[derive(Debug)]
pub struct Shader {
    stage: ShaderStage,
    is_spirv: bool,
}

impl ShaderBuild {
    /// Begin building a shader unit from a descriptor: what the unit
    /// retains is the declared stage and whether a SPIR-V language
    /// target was configured.
    pub fn new(_compiler: &Compiler, input: &ShaderInput) -> (r: ShaderBuild)
        ensures
            r.stage_spec() == input.stage,
            r.spirv_capable() == (input.target_language == TargetLanguage::SPIRV),
    {
        ShaderBuild {
            stage: input.stage,
            is_spirv: input.target_language == TargetLanguage::SPIRV,
        }
    }

    /// Whether a SPIR-V language target was configured.
    pub closed spec fn spirv_capable(&self) -> bool {
        self.is_spirv
    }

    /// The stage the descriptor declared.
    pub closed spec fn stage_spec(&self) -> ShaderStage {
        self.stage
    }

    /// The stage the descriptor declared.
    #[verifier::when_used_as_spec(stage_spec)]
    pub fn stage(&self) -> (r: ShaderStage)
        ensures
            r == self.stage_spec(),
    {
        self.stage
    }

    /// Resolve the engine's reply to the preprocess call: on failure the
    /// unit is spent and the captured log is the parse error.
    pub fn preprocess(self, succeeded: bool, log: GlslangErrorLog) -> (r: Result<
        PreprocessedShader,
        GlslangError,
    >)
        ensures
            succeeded ==> (r matches Ok(p) && p.stage_spec() == self.stage_spec()
                && p.spirv_capable() == self.spirv_capable()),
            !succeeded ==> r == Err::<PreprocessedShader, GlslangError>(
                GlslangError::ParseError(log),
            ),
    {
        if succeeded {
            Ok(PreprocessedShader { stage: self.stage, is_spirv: self.is_spirv })
        } else {
            Err(GlslangError::ParseError(log))
        }
    }
}

impl PreprocessedShader {
    /// Whether a SPIR-V language target was configured.
    pub closed spec fn spirv_capable(&self) -> bool {
        self.is_spirv
    }

    /// The stage the descriptor declared.
    pub closed spec fn stage_spec(&self) -> ShaderStage {
        self.stage
    }

    /// The stage the descriptor declared.
    #[verifier::when_used_as_spec(stage_spec)]
    pub fn stage(&self) -> (r: ShaderStage)
        ensures
            r == self.stage_spec(),
    {
        self.stage
    }

    /// Resolve the engine's reply to the parse call: on failure the unit
    /// is spent and the captured log is the parse error.
    pub fn parse(self, succeeded: bool, log: GlslangErrorLog) -> (r: Result<Shader, GlslangError>)
        ensures
            succeeded ==> (r matches Ok(s) && s.stage_spec() == self.stage_spec()
                && s.spirv_capable() == self.spirv_capable()),
            !succeeded ==> r == Err::<Shader, GlslangError>(GlslangError::ParseError(log)),
    {
        if succeeded {
            Ok(Shader { stage: self.stage, is_spirv: self.is_spirv })
        } else {
            Err(GlslangError::ParseError(log))
        }
    }
}

impl Shader {
    /// Whether a SPIR-V language target was configured for this unit.
    pub closed spec fn spirv_capable(&self) -> bool {
        self.is_spirv
    }

    /// The stage the unit was built for.
    pub closed spec fn stage_spec(&self) -> ShaderStage {
        self.stage
    }

    /// The stage the unit was built for.
    #[verifier::when_used_as_spec(stage_spec)]
    pub fn stage(&self) -> (r: ShaderStage)
        ensures
            r == self.stage_spec(),
    {
        self.stage
    }

    /// Whether a SPIR-V language target was configured for this unit.
    #[verifier::when_used_as_spec(spirv_capable)]
    pub fn is_spirv(&self) -> (r: bool)
        ensures
            r == self.spirv_capable(),
    {
        self.is_spirv
    }

    /// Gate compiling this shader alone: a throwaway program is built,
    /// this shader added, and generation for its stage requested. The
    /// request is granted exactly when a SPIR-V language target was
    /// configured; else `NoLanguageTarget`.
    pub fn compile(&self, compiler: &Compiler) -> (r: Result<CompileJob, GlslangError>)
        ensures
            r == compile_outcome(
                crate::program::no_stages().insert(self.stage_spec(), self.spirv_capable()),
                self.stage_spec(),
                false,
            ),
            self.spirv_capable() ==> r is Ok,
            !self.spirv_capable() ==> r == Err::<CompileJob, GlslangError>(
                GlslangError::NoLanguageTarget,
            ),
    {
        let mut program = Program::new(compiler);
        program.add_shader(self);
        program.compile(self.stage)
    }

    /// As `compile`, with the size-optimization options block.
    pub fn compile_size_optimized(&self, compiler: &Compiler) -> (r: Result<
        CompileJob,
        GlslangError,
    >)
        ensures
            r == compile_outcome(
                crate::program::no_stages().insert(self.stage_spec(), self.spirv_capable()),
                self.stage_spec(),
                true,
            ),
            self.spirv_capable() ==> r is Ok,
            !self.spirv_capable() ==> r == Err::<CompileJob, GlslangError>(
                GlslangError::NoLanguageTarget,
            ),
    {
        let mut program = Program::new(compiler);
        program.add_shader(self);
        program.compile_size_optimized(self.stage)
    }
}

/// A shader built against a target that carries no SPIR-V version is
/// recorded as not generatable, and any generation request for its
/// stage is refused with `NoLanguageTarget`, whatever else the program
/// holds for other stages.
pub proof fn lemma_target_without_spirv_rejected(
    t: Target,
    stages: Map<ShaderStage, bool>,
    stage: ShaderStage,
    size_optimized: bool,
)
    requires
        target_language_of(t) != TargetLanguage::SPIRV,
    ensures
        compile_outcome(
            stages.insert(stage, target_language_of(t) == TargetLanguage::SPIRV),
            stage,
            size_optimized,
        ) == Err::<CompileJob, GlslangError>(GlslangError::NoLanguageTarget),
{
}

} // verus!
