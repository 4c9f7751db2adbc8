//! The checked core of a thin layer over a function-pointer-loaded OpenGL /
//! OpenGL ES driver.
//!
//! The driver's entry points are raw, untyped and `unsafe`; they are called by
//! the binding that sits around this library. What is decided here is
//! everything else: which identifiers count as objects, which constants stand
//! for which parameter, what each call is handed, how a compile or link
//! failure is reported, and how a program is built from two sources without
//! leaving driver objects behind.

pub mod calls;
mod constants;
pub mod context;
pub mod diagnostics;
pub mod handle;
pub mod lifecycle;
pub mod params;
pub mod program;
pub mod shader;
pub mod text;

pub use gl_constants;

pub use calls::{
    BufferDataCall, CapabilityCall, DrawArraysCall, DrawElementsCall, TexImage2dCall,
    TexParameterCall, VertexAttribPointerCall, VertexAttribPointerTy,
};
pub use context::{debug_entry_point, DebugEntryPoint, EzGl, Unsupported};
pub use diagnostics::{
    debug_message_line, debug_severity_label, debug_source_label, debug_type_label,
    format_debug_message,
};
pub use handle::{
    AllocationError, BufferObject, ProgramObject, ShaderLocation, ShaderObject, TextureObject,
    VertexArrayObject,
};
pub use lifecycle::{AwaitingInfoLog, InfoLogFetch, InfoLogStep, ShaderSourceCall};
pub use params::{
    BufferTarget, BufferUsageHint, DrawElementsType, DrawMode, MagFilter, MinFilter, ShaderType,
    TextureTarget, TextureWrap,
};
pub use program::{
    AwaitingFragmentShader, AwaitingLinkStatus, AwaitingProgramId, AwaitingProgramLog,
    AwaitingVertexShader, LinkRequest, ProgramAnswer, ProgramBuildStep, ProgramOutcome,
};
pub use shader::{
    AwaitingCompileStatus, AwaitingShaderId, AwaitingShaderLog, ShaderAnswer, ShaderBuildStep,
    ShaderFailure,
};
pub use text::{append_decimal, nul_terminated};
