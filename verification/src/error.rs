use vstd::prelude::*;

use crate::ctypes::{GlslProfile, ShaderStage};
use crate::target::Target;

verus! {

/// The pair of logs the engine reports when an operation fails.
#[derive(Debug, Clone, PartialEq, Eq)]
pub struct GlslangErrorLog {
    pub log: String,
    pub debug_log: String,
}

impl GlslangErrorLog {
    pub fn new(log: String, debug_log: String) -> (r: GlslangErrorLog)
        ensures
            r.log == log,
            r.debug_log == debug_log,
    {
        GlslangErrorLog { log, debug_log }
    }
}

/// The error type for `glslang`.
#[derive(Debug, Clone, PartialEq, Eq)]
pub enum GlslangError {
    /// The engine reported a failure while preprocessing.
    PreprocessError(GlslangErrorLog),
    /// The engine reported a failure while preprocessing or parsing.
    ParseError(GlslangErrorLog),
    /// The engine reported a failure while mapping IO.
    MapIoError(GlslangErrorLog),
    /// The engine reported a failure while linking.
    LinkError(GlslangErrorLog),
    /// The shader stage was not found in the program.
    ShaderStageNotFound(ShaderStage),
    /// No SPIR-V language target was set.
    NoLanguageTarget,
    /// The target is not a valid combination of environment, version, and language version.
    InvalidTarget(Target),
    /// The GLSL profile and version is not valid for the specified target.
    InvalidProfile(Target, i32, GlslProfile),
    /// The GLSL version is unsupported for the profile.
    VersionUnsupported(i32, GlslProfile),
    /// The source text holds an embedded terminator byte.
    InvalidSourceText,
}

} // verus!
