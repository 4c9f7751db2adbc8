//! Building one compiled shader, step by step.
//!
//! The driver does the work; this module decides what is asked of it next and
//! what each answer means. A build starts with
//! [`EzGl::create_shader_with_source`]. Each step but the last names one
//! request to the driver and holds the continuation that takes the driver's
//! answer and gives the next step. The last step is the compiled shader, or
//! the diagnostic text together with the shader object that must be deleted.

use vstd::prelude::*;
use vstd::string::*;
use crate::context::EzGl;
use crate::handle::ShaderObject;
use crate::params::ShaderType;

verus! {

/// The diagnostic of a build for which the driver had no shader identifier.
pub open spec fn no_shader_id_text() -> Seq<char> {
    "Couldn't create a new shader ID."@
}

/// Why a shader was not built, and what is left to clean up.
#[derive(Debug)]
pub struct ShaderFailure {
    /// The text that describes the failure.
    pub diagnostic: String,
    /// The shader object that the build created and that must be deleted, if
    /// it got as far as creating one.
    pub discard: Option<ShaderObject>,
}

/// Waits for the identifier of the shader that the driver was asked for.
#[derive(Debug)]
pub struct AwaitingShaderId {}

/// Waits for the compile status of the shader.
#[derive(Debug)]
pub struct AwaitingCompileStatus {
    pub shader: ShaderObject,
}

/// Waits for the info log of the shader that failed to compile.
#[derive(Debug)]
pub struct AwaitingShaderLog {
    pub shader: ShaderObject,
}

/// Where the build of a shader stands and what it needs next.
#[derive(Debug)]
pub enum ShaderBuildStep {
    /// Create a shader object of this type; answer with the identifier.
    Allocate(ShaderType, AwaitingShaderId),
    /// Give the source to this shader and compile it; answer with the compile
    /// status.
    Compile(u32, AwaitingCompileStatus),
    /// Read the info log of this shader; answer with its text.
    ReadLog(u32, AwaitingShaderLog),
    /// The build is over.
    Finished(Result<ShaderObject, ShaderFailure>),
}

/// What a step of a shader's build is answered with.
pub enum ShaderAnswer {
    /// The identifier that the driver returned for a new shader.
    Identifier(u32),
    /// Whether the shader compiled.
    Status(bool),
    /// The text of the shader's info log.
    Log(Seq<char>),
}

impl AwaitingShaderId {
    /// The step that follows the identifier `raw`. Zero ends the build with
    /// the fixed diagnostic and nothing to delete; any other identifier is
    /// the new shader, to be compiled next.
    pub open spec fn resumes_to(self, raw: u32, step: ShaderBuildStep) -> bool {
        if raw == 0 {
            step matches ShaderBuildStep::Finished(Err(failure)) && failure.diagnostic@
                == no_shader_id_text() && failure.discard is None
        } else {
            step matches ShaderBuildStep::Compile(shader, awaiting) && shader == raw
                && awaiting.shader@ == raw
        }
    }

    /// Takes the identifier that the driver returned.
    pub fn resume(self, raw: u32) -> (step: ShaderBuildStep)
        ensures
            self.resumes_to(raw, step),
    {
        match ShaderObject::from_raw(raw) {
            Ok(shader) => ShaderBuildStep::Compile(shader.id(), AwaitingCompileStatus { shader }),
            Err(_) => ShaderBuildStep::Finished(
                Err(
                    ShaderFailure {
                        diagnostic: String::from_str("Couldn't create a new shader ID."),
                        discard: None,
                    },
                ),
            ),
        }
    }
}

impl AwaitingCompileStatus {
    /// The step that follows the compile status. A compiled shader is the
    /// result of the build; for one that failed the info log is read next.
    pub open spec fn resumes_to(self, success: bool, step: ShaderBuildStep) -> bool {
        if success {
            step matches ShaderBuildStep::Finished(Ok(shader)) && shader@ == self.shader@
        } else {
            step matches ShaderBuildStep::ReadLog(shader, awaiting) && shader == self.shader@
                && awaiting.shader@ == self.shader@
        }
    }

    /// Takes the compile status.
    pub fn resume(self, success: bool) -> (step: ShaderBuildStep)
        ensures
            self.resumes_to(success, step),
    {
        if success {
            ShaderBuildStep::Finished(Ok(self.shader))
        } else {
            ShaderBuildStep::ReadLog(self.shader.id(), AwaitingShaderLog { shader: self.shader })
        }
    }
}

impl AwaitingShaderLog {
    /// The step that follows the info log: the log is the diagnostic of the
    /// failed build, and the shader is handed over to be deleted.
    pub open spec fn resumes_to(self, log: Seq<char>, step: ShaderBuildStep) -> bool {
        step matches ShaderBuildStep::Finished(Err(failure)) && failure.diagnostic@ == log && (
        failure.discard matches Some(shader) && shader@ == self.shader@)
    }

    /// Takes the info log.
    pub fn resume(self, log: String) -> (step: ShaderBuildStep)
        ensures
            self.resumes_to(log@, step),
    {
        ShaderBuildStep::Finished(
            Err(ShaderFailure { diagnostic: log, discard: Some(self.shader) }),
        )
    }
}

impl ShaderBuildStep {
    /// The shader object that the build has in its keeping at this step.
    pub open spec fn held(self) -> Option<u32> {
        match self {
            ShaderBuildStep::Allocate(_, _) => None,
            ShaderBuildStep::Compile(_, awaiting) => Some(awaiting.shader@),
            ShaderBuildStep::ReadLog(_, awaiting) => Some(awaiting.shader@),
            ShaderBuildStep::Finished(Ok(shader)) => Some(shader@),
            ShaderBuildStep::Finished(Err(failure)) => match failure.discard {
                Some(shader) => Some(shader@),
                None => None,
            },
        }
    }

    /// How many answers the build has taken at least when it stands here.
    pub open spec fn progress(self) -> nat {
        match self {
            ShaderBuildStep::Allocate(_, _) => 0,
            ShaderBuildStep::Compile(_, _) => 1,
            ShaderBuildStep::ReadLog(_, _) => 2,
            ShaderBuildStep::Finished(_) => 3,
        }
    }

    /// Whether `next` is the step that the continuation of `self` gives for
    /// `answer`. A finished build has no next step, and a step takes no
    /// answer but the one to its own request.
    pub open spec fn follows(self, answer: ShaderAnswer, next: ShaderBuildStep) -> bool {
        match (self, answer) {
            (ShaderBuildStep::Allocate(_, awaiting), ShaderAnswer::Identifier(raw)) => {
                awaiting.resumes_to(raw, next)
            },
            (ShaderBuildStep::Compile(_, awaiting), ShaderAnswer::Status(success)) => {
                awaiting.resumes_to(success, next)
            },
            (ShaderBuildStep::ReadLog(_, awaiting), ShaderAnswer::Log(log)) => {
                awaiting.resumes_to(log, next)
            },
            _ => false,
        }
    }

    /// A shader that the build has created stays in its keeping to the end:
    /// what is held before a step is held after it, and a new identifier is
    /// held from the step that took it.
    pub proof fn lemma_nothing_is_dropped(self, answer: ShaderAnswer, next: ShaderBuildStep)
        requires
            self.follows(answer, next),
        ensures
            self.held() is Some ==> next.held() == self.held(),
            answer matches ShaderAnswer::Identifier(raw) ==> (raw != 0 ==> next.held() == Some(raw)),
            next.held() is Some ==> self.held() is Some || answer is Identifier,
    {
    }

    /// A build ends in a shader only on the answer that it compiled.
    pub proof fn lemma_built_only_when_compiled(
        self,
        answer: ShaderAnswer,
        next: ShaderBuildStep,
    )
        requires
            self.follows(answer, next),
            next matches ShaderBuildStep::Finished(Ok(_)),
        ensures
            self is Compile,
            answer == ShaderAnswer::Status(true),
    {
    }

    /// A failed build hands over for deletion the shader it had created, and
    /// reports the text of the one thing that failed.
    pub proof fn lemma_failure_cleans_up(self, answer: ShaderAnswer, next: ShaderBuildStep)
        requires
            self.follows(answer, next),
            next matches ShaderBuildStep::Finished(Err(_)),
        ensures
            next matches ShaderBuildStep::Finished(Err(failure)) && (match answer {
                ShaderAnswer::Identifier(raw) => raw == 0 && self.held() is None
                    && failure.discard is None && failure.diagnostic@ == no_shader_id_text(),
                ShaderAnswer::Log(log) => self is ReadLog && failure.diagnostic@ == log
                    && failure.discard is Some && self.held() == Some(failure.discard->Some_0@),
                ShaderAnswer::Status(_) => false,
            }),
    {
    }

    /// Every answer brings the build forward, so that it is over after
    /// three answers at most.
    pub proof fn lemma_build_advances(self, answer: ShaderAnswer, next: ShaderBuildStep)
        requires
            self.follows(answer, next),
        ensures
            self.progress() < next.progress() <= 3,
            next.progress() == 3 <==> next is Finished,
    {
    }
}

impl EzGl {
    /// Begins the build of a shader of type `shader_type` from one source:
    /// the first step is to ask the driver for a shader object of that type.
    pub fn create_shader_with_source(shader_type: ShaderType) -> (step: ShaderBuildStep)
        ensures
            step matches ShaderBuildStep::Allocate(asked, _) && asked == shader_type,
    {
        ShaderBuildStep::Allocate(shader_type, AwaitingShaderId {  })
    }
}

} // verus!
