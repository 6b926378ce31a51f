//! A verified safety facade for a foreign, stateful shader-compilation
//! engine. The engine itself (lexing, parsing, code generation) is an
//! opaque collaborator; this crate owns the boundary: validating target,
//! version and profile combinations before native code is reached, the
//! state machines that make out-of-order native calls unrepresentable,
//! the stage-gating map that prevents generation for unregistered stages,
//! and the marshaling rules for include resolution.
//!
//! Every operation here is a plain, synchronous computation. The only
//! state shared across threads is the initialization token, which is
//! immutable once it exists; shader units and programs are exclusively
//! owned, so independent compilations never alias each other's state.
use vstd::prelude::*;

pub mod callbacks;
pub mod ctypes;
pub mod error;
pub mod limits;
pub mod naming;
pub mod program;
pub mod shader;
pub mod source;
pub mod strutil;
pub mod target;

pub use crate::ctypes::{
    EnvVersion, GlslProfile, ResourceType, ShaderMessage, ShaderOptions, ShaderStage,
    SourceLanguage, SpirvVersion, TargetEnv, TargetLanguage,
};
pub use crate::callbacks::{IncludeHandler, IncludeResult, IncludeType};
pub use crate::error::{GlslangError, GlslangErrorLog};
pub use crate::limits::{CompilerLimits, ResourceLimits};
pub use crate::program::{CompileJob, LinkJob, Program, SpvOptions};
pub use crate::shader::{CompilerOptions, PreprocessedShader, Shader, ShaderBuild, ShaderInput};
pub use crate::source::ShaderSource;
pub use crate::target::{OpenGlVersion, Target, VulkanVersion};

verus! {

/// A token witnessing that the engine's one-time process initialization
/// reported success. Every compilation component is constructed from a
/// reference to it, so "engine not initialized" is unrepresentable once
/// a token exists. The token lives for the rest of the process and is
/// deliberately never torn down: engine state is reclaimed at process
/// exit, so no finalization call can run twice.
#[derive(Debug)]
pub struct Compiler {
    _priv: (),
}

impl Compiler {
    /// Resolve the engine's one-time initialization report into a token:
    /// a token exists exactly when initialization succeeded. The caller
    /// performs the native call once per process and caches the result.
    pub fn from_init(succeeded: bool) -> (r: Option<Compiler>)
        ensures
            r is Some <==> succeeded,
    {
        if succeeded {
            Some(Compiler { _priv: () })
        } else {
            None
        }
    }

    /// Begin building a shader unit from a validated descriptor.
    pub fn create_shader(&self, input: &crate::shader::ShaderInput) -> (r:
        crate::shader::ShaderBuild)
        ensures
            r.stage_spec() == input.stage,
            r.spirv_capable() == (input.target_language
                == crate::ctypes::TargetLanguage::SPIRV),
    {
        crate::shader::ShaderBuild::new(self, input)
    }

    /// A new program with no recorded stages.
    pub fn create_program(&self) -> (r: crate::program::Program)
        ensures
            r.stages() == crate::program::no_stages(),
    {
        crate::program::Program::new(self)
    }
}

} // verus!
