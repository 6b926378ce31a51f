use vstd::prelude::*;

use crate::ctypes::{ShaderStage, MSG_DEFAULT, MSG_SPV_RULES, MSG_VULKAN_RULES};
use crate::error::{GlslangError, GlslangErrorLog};
use crate::shader::Shader;
use crate::Compiler;
use rustc_hash::FxBuildHasher;
use std::collections::HashMap;

verus! {

/// The build-hasher rustc-hash seeds every FxHashMap with.
#[verifier::external_type_specification]
#[verifier::external_body]
pub struct ExFxBuildHasher(FxBuildHasher);

/// The contents of a program with no recorded stages.
pub open spec fn no_stages() -> Map<ShaderStage, bool> {
    Map::empty()
}

/// Relies on `FxHashMap::default` (std's `HashMap` with the Fx hasher):
/// a fresh map is empty.
#[verifier::external_body]
fn stage_map_new() -> (r: HashMap<ShaderStage, bool, FxBuildHasher>)
    ensures
        r@ == no_stages(),
{
    rustc_hash::FxHashMap::default()
}

/// Relies on `HashMap::insert`, for a fieldless-enum key whose derived
/// `Eq` and `Hash` are structural: the contents gain or overwrite the key.
#[verifier::external_body]
fn stage_map_insert(
    m: &mut HashMap<ShaderStage, bool, FxBuildHasher>,
    k: ShaderStage,
    v: bool,
)
    ensures
        final(m)@ == old(m)@.insert(k, v),
{
    m.insert(k, v);
}

/// Relies on `HashMap::contains_key`, for the same key model.
#[verifier::external_body]
fn stage_map_contains(m: &HashMap<ShaderStage, bool, FxBuildHasher>, k: ShaderStage) -> (r:
    bool)
    ensures
        r == m@.dom().contains(k),
{
    m.contains_key(&k)
}

/// Relies on `HashMap::get`, for the same key model: the value recorded
/// under the key, if the key is present.
#[verifier::external_body]
fn stage_map_get(m: &HashMap<ShaderStage, bool, FxBuildHasher>, k: ShaderStage) -> (r:
    Option<bool>)
    ensures
        r == if m@.dom().contains(k) {
            Some(m@[k])
        } else {
            None::<bool>
        },
{
    m.get(&k).copied()
}

/// The message flags every link and generation call passes to the engine.
pub open spec fn link_messages() -> i32 {
    MSG_DEFAULT | MSG_VULKAN_RULES | MSG_SPV_RULES
}

/// The options block handed to a size-optimized generation call: only
/// the size optimization is switched on.
#[derive(Clone, Copy, PartialEq, Eq, Structural, Debug)]
pub struct SpvOptions {
    pub generate_debug_info: bool,
    pub strip_debug_info: bool,
    pub disable_optimizer: bool,
    pub optimize_size: bool,
    pub disassemble: bool,
    pub validate: bool,
    pub emit_nonsemantic_shader_debug_info: bool,
    pub emit_nonsemantic_shader_debug_source: bool,
    pub compile_only: bool,
    pub optimize_allow_expanded_id_bound: bool,
}

/// The options block for size-optimized generation.
pub open spec fn spec_size_optimized_options() -> SpvOptions {
    SpvOptions {
        generate_debug_info: false,
        strip_debug_info: false,
        disable_optimizer: false,
        optimize_size: true,
        disassemble: false,
        validate: false,
        emit_nonsemantic_shader_debug_info: false,
        emit_nonsemantic_shader_debug_source: false,
        compile_only: false,
        optimize_allow_expanded_id_bound: false,
    }
}

/// A generation request that passed the stage gate: the engine may now
/// be asked to link and to generate code for this stage.
#[derive(Debug, PartialEq, Eq)]
pub struct CompileJob {
    /// The stage to generate code for.
    pub stage: ShaderStage,
    /// The message flags for the link call.
    pub messages: i32,
    /// The options for the generation call; `None` asks for plain
    /// generation without an options block.
    pub options: Option<SpvOptions>,
}

impl CompileJob {
    /// Interpret the engine's replies to this request. A failed link
    /// yields `LinkError` with the captured logs and the engine is not
    /// asked to generate; on success the words the engine generated are
    /// handed back unchanged.
    pub fn finish(self, link_ok: bool, log: GlslangErrorLog, words: Vec<u32>) -> (r: Result<
        Vec<u32>,
        GlslangError,
    >)
        ensures
            link_ok ==> r == Ok::<Vec<u32>, GlslangError>(words),
            !link_ok ==> r == Err::<Vec<u32>, GlslangError>(GlslangError::LinkError(log)),
    {
        if link_ok {
            Ok(words)
        } else {
            Err(GlslangError::LinkError(log))
        }
    }
}

/// A link request: the message flags the link call passes to the engine.
#[derive(Debug, PartialEq, Eq)]
pub struct LinkJob {
    pub messages: i32,
}

impl LinkJob {
    /// Interpret the engine's reply to a link request.
    pub fn finish(self, link_ok: bool, log: GlslangErrorLog) -> (r: Result<(), GlslangError>)
        ensures
            link_ok ==> r == Ok::<(), GlslangError>(()),
            !link_ok ==> r == Err::<(), GlslangError>(GlslangError::LinkError(log)),
    {
        if link_ok {
            Ok(())
        } else {
            Err(GlslangError::LinkError(log))
        }
    }
}

/// The exact outcome of asking a program with the given recorded stages
/// to generate code for one stage: an unregistered stage is refused, a
/// stage recorded without a language target is refused, and otherwise a
/// generation request is issued.
pub open spec fn compile_outcome(
    stages: Map<ShaderStage, bool>,
    stage: ShaderStage,
    size_optimized: bool,
) -> Result<CompileJob, GlslangError> {
    if !stages.dom().contains(stage) {
        Err(GlslangError::ShaderStageNotFound(stage))
    } else if !stages[stage] {
        Err(GlslangError::NoLanguageTarget)
    } else {
        Ok(
            CompileJob {
                stage,
                messages: link_messages(),
                options: if size_optimized {
                    Some(spec_size_optimized_options())
                } else {
                    None
                },
            },
        )
    }
}

/// Generation for a stage that was never added to the program is always
/// refused with `ShaderStageNotFound`, for every stage value, before the
/// engine is reached.
pub proof fn lemma_unregistered_stage_rejected(
    stages: Map<ShaderStage, bool>,
    stage: ShaderStage,
    size_optimized: bool,
)
    requires
        !stages.dom().contains(stage),
    ensures
        compile_outcome(stages, stage, size_optimized) == Err::<CompileJob, GlslangError>(
            GlslangError::ShaderStageNotFound(stage),
        ),
{
}

/// Generation for a stage recorded as not SPIR-V-capable is always
/// refused with `NoLanguageTarget`, before the engine is reached.
pub proof fn lemma_no_language_target_rejected(
    stages: Map<ShaderStage, bool>,
    stage: ShaderStage,
    size_optimized: bool,
)
    requires
        stages.dom().contains(stage),
        !stages[stage],
    ensures
        compile_outcome(stages, stage, size_optimized) == Err::<CompileJob, GlslangError>(
            GlslangError::NoLanguageTarget,
        ),
{
}

/// A program: the authoritative record of which stages were added and
/// whether each can be generated, consulted before any generation call.
/// Consuming `compile` makes re-use of a spent program unrepresentable.
pub struct Program {
    cache: HashMap<ShaderStage, bool, FxBuildHasher>,
}

impl Program {
    /// The recorded stages: for each stage added, whether its shader was
    /// built with a SPIR-V language target.
    pub closed spec fn stages(&self) -> Map<ShaderStage, bool> {
        self.cache@
    }

    /// A new program with no recorded stages.
    pub fn new(_compiler: &Compiler) -> (r: Program)
        ensures
            r.stages() == no_stages(),
    {
        Program { cache: stage_map_new() }
    }

    /// Record a shader's stage and whether it can be generated. Adding a
    /// second shader for the same stage overwrites the record, as the
    /// engine keeps only the last one.
    pub fn add_shader(&mut self, shader: &Shader)
        ensures
            final(self).stages() == old(self).stages().insert(
                shader.stage_spec(),
                shader.spirv_capable(),
            ),
    {
        stage_map_insert(&mut self.cache, shader.stage(), shader.is_spirv());
    }

    /// Ask to link the program without generating code. Consumes the
    /// program: the native object cannot be safely linked twice.
    pub fn link(self) -> (r: LinkJob)
        ensures
            r.messages == link_messages(),
    {
        LinkJob { messages: MSG_DEFAULT | MSG_VULKAN_RULES | MSG_SPV_RULES }
    }

    /// Interpret the engine's reply to mapping shader input/output
    /// locations; the recorded stages are untouched.
    pub fn map_io(&mut self, native_ok: bool, log: GlslangErrorLog) -> (r: Result<(), GlslangError>)
        ensures
            final(self).stages() == old(self).stages(),
            native_ok ==> r == Ok::<(), GlslangError>(()),
            !native_ok ==> r == Err::<(), GlslangError>(GlslangError::MapIoError(log)),
    {
        if native_ok {
            Ok(())
        } else {
            Err(GlslangError::MapIoError(log))
        }
    }

    /// Gate a generation request for the given stage, consuming the
    /// program. The stage must have been added, and added with a SPIR-V
    /// language target; otherwise the request is refused before the
    /// engine is reached, since generation for an unregistered stage
    /// corrupts engine memory.
    pub fn compile(self, stage: ShaderStage) -> (r: Result<CompileJob, GlslangError>)
        ensures
            r == compile_outcome(self.stages(), stage, false),
    {
        if !stage_map_contains(&self.cache, stage) {
            return Err(GlslangError::ShaderStageNotFound(stage));
        }
        if let Some(false) = stage_map_get(&self.cache, stage) {
            return Err(GlslangError::NoLanguageTarget);
        }
        Ok(
            CompileJob {
                stage,
                messages: MSG_DEFAULT | MSG_VULKAN_RULES | MSG_SPV_RULES,
                options: None,
            },
        )
    }

    /// As `compile`, but the generation request carries the
    /// size-optimization options block.
    pub fn compile_size_optimized(self, stage: ShaderStage) -> (r: Result<CompileJob, GlslangError>)
        ensures
            r == compile_outcome(self.stages(), stage, true),
    {
        if !stage_map_contains(&self.cache, stage) {
            return Err(GlslangError::ShaderStageNotFound(stage));
        }
        if let Some(false) = stage_map_get(&self.cache, stage) {
            return Err(GlslangError::NoLanguageTarget);
        }
        Ok(
            CompileJob {
                stage,
                messages: MSG_DEFAULT | MSG_VULKAN_RULES | MSG_SPV_RULES,
                options: Some(
                    SpvOptions {
                        generate_debug_info: false,
                        strip_debug_info: false,
                        disable_optimizer: false,
                        optimize_size: true,
                        disassemble: false,
                        validate: false,
                        emit_nonsemantic_shader_debug_info: false,
                        emit_nonsemantic_shader_debug_source: false,
                        compile_only: false,
                        optimize_allow_expanded_id_bound: false,
                    },
                ),
            },
        )
    }
}

} // verus!
