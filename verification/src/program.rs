//! Building a linked program from a vertex and a fragment shader, step by
//! step.
//!
//! A build starts with [`EzGl::create_vertex_fragment_program`]. Each step
//! but the last names one request and holds the continuation that takes its
//! answer. Every object that the build has created so far travels with the
//! step, so that the last step either hands out a linked program or hands
//! over, for deletion, all that was created on the way to the failure. No
//! step gives out a program that did not link.

use vstd::prelude::*;
use vstd::multiset::Multiset;
use vstd::string::*;
use crate::context::EzGl;
use crate::handle::{ProgramObject, ShaderObject};
use crate::params::ShaderType;

verus! {

/// The diagnostic of a build for which the driver had no program identifier.
pub open spec fn no_program_id_text() -> Seq<char> {
    "Couldn't create a new program ID."@
}

/// How the build of a program ended.
#[allow(inconsistent_fields)]
#[derive(Debug)]
pub enum ProgramOutcome {
    /// The program linked. Both shaders stay attached to it.
    Linked { program: ProgramObject, vertex: ShaderObject, fragment: ShaderObject },
    /// The build failed. `diagnostic` is the text of the first failure; the
    /// objects are all that the build had created, and must be deleted.
    Failed {
        diagnostic: String,
        vertex: Option<ShaderObject>,
        fragment: Option<ShaderObject>,
        program: Option<ProgramObject>,
    },
}

/// The identifiers that a link request works on.
#[derive(Debug, Clone, Copy, PartialEq, Eq, Structural)]
pub struct LinkRequest {
    pub program: u32,
    pub vertex: u32,
    pub fragment: u32,
}

/// Waits for the vertex shader to be built.
#[derive(Debug)]
pub struct AwaitingVertexShader {}

/// Waits for the fragment shader to be built.
#[derive(Debug)]
pub struct AwaitingFragmentShader {
    pub vertex: ShaderObject,
}

/// Waits for the identifier of the program that the driver was asked for.
#[derive(Debug)]
pub struct AwaitingProgramId {
    pub vertex: ShaderObject,
    pub fragment: ShaderObject,
}

/// Waits for the link status of the program.
#[derive(Debug)]
pub struct AwaitingLinkStatus {
    pub vertex: ShaderObject,
    pub fragment: ShaderObject,
    pub program: ProgramObject,
}

/// Waits for the info log of the program that failed to link.
#[derive(Debug)]
pub struct AwaitingProgramLog {
    pub vertex: ShaderObject,
    pub fragment: ShaderObject,
    pub program: ProgramObject,
}

/// Where the build of a program stands and what it needs next.
#[derive(Debug)]
pub enum ProgramBuildStep {
    /// Build a shader of this type from the vertex source; answer with the
    /// shader, or with the diagnostic of its failed build.
    BuildVertexShader(ShaderType, AwaitingVertexShader),
    /// Build a shader of this type from the fragment source; answer
    /// likewise.
    BuildFragmentShader(ShaderType, AwaitingFragmentShader),
    /// Create a program object; answer with the identifier.
    Allocate(AwaitingProgramId),
    /// Attach both shaders to the program and link it; answer with the link
    /// status.
    Link(LinkRequest, AwaitingLinkStatus),
    /// Read the info log of this program; answer with its text.
    ReadLog(u32, AwaitingProgramLog),
    /// The build is over.
    Finished(ProgramOutcome),
}

/// What a step of a program's build is answered with.
pub enum ProgramAnswer {
    /// The identifier of the shader that was built, or the diagnostic of its
    /// failed build.
    Shader(Result<u32, Seq<char>>),
    /// The identifier that the driver returned for a new program.
    Identifier(u32),
    /// Whether the program linked.
    Status(bool),
    /// The text of the program's info log.
    Log(Seq<char>),
}

impl ProgramAnswer {
    /// The object that this answer brings into the build, if any: a shader
    /// that was built, or a program under a non-zero identifier.
    pub open spec fn brought(self) -> Multiset<u32> {
        match self {
            ProgramAnswer::Shader(Ok(shader)) => Multiset::singleton(shader),
            ProgramAnswer::Identifier(raw) => if raw != 0 {
                Multiset::singleton(raw)
            } else {
                Multiset::empty()
            },
            _ => Multiset::empty(),
        }
    }
}

/// The objects that a sequence of answers brings into the build.
pub open spec fn brought_by(answers: Seq<ProgramAnswer>) -> Multiset<u32>
    decreases answers.len(),
{
    if answers.len() == 0 {
        Multiset::empty()
    } else {
        brought_by(answers.drop_last()).add(answers.last().brought())
    }
}

/// The one object of an identifier that is there, none of one that is not.
pub open spec fn one(id: Option<u32>) -> Multiset<u32> {
    match id {
        Some(id) => Multiset::singleton(id),
        None => Multiset::empty(),
    }
}

/// Whether `steps` are the steps of a build from its first, each but the
/// first given by the step before it for the answer of the same position.
pub open spec fn is_run(steps: Seq<ProgramBuildStep>, answers: Seq<ProgramAnswer>) -> bool {
    &&& steps.len() == answers.len() + 1
    &&& steps[0] is BuildVertexShader
    &&& forall|i: int|
        0 <= i < answers.len() ==> (#[trigger] steps[i]).follows(answers[i], steps[i + 1])
}

/// The identifier of a shader that may be absent.
pub open spec fn shader_id(shader: Option<ShaderObject>) -> Option<u32> {
    match shader {
        Some(shader) => Some(shader@),
        None => None,
    }
}

/// The identifier of a program that may be absent.
pub open spec fn program_id(program: Option<ProgramObject>) -> Option<u32> {
    match program {
        Some(program) => Some(program@),
        None => None,
    }
}

/// The outcome of a shader's build as identifier or text.
pub open spec fn built_shader(built: Result<ShaderObject, String>) -> Result<u32, Seq<char>> {
    match built {
        Ok(shader) => Ok(shader@),
        Err(text) => Err(text@),
    }
}

/// Whether `step` is the failed end of a build, with this diagnostic and
/// these objects to delete.
pub open spec fn fails_with(
    step: ProgramBuildStep,
    text: Seq<char>,
    vertex_id: Option<u32>,
    fragment_id: Option<u32>,
    program: Option<u32>,
) -> bool {
    step matches ProgramBuildStep::Finished(
        ProgramOutcome::Failed { diagnostic, vertex, fragment, program: failed },
    ) && diagnostic@ == text && shader_id(vertex) == vertex_id && shader_id(fragment)
        == fragment_id && program_id(failed) == program
}

impl AwaitingVertexShader {
    /// The step that follows the outcome of the vertex shader's build. A
    /// failure ends the build of the program with the shader's diagnostic and
    /// nothing to delete; with the shader built, the fragment shader is next.
    pub open spec fn resumes_to(self, built: Result<u32, Seq<char>>, step: ProgramBuildStep) -> bool {
        match built {
            Ok(vertex) => step matches ProgramBuildStep::BuildFragmentShader(shader_type, awaiting)
                && shader_type == ShaderType::FragmentShader && awaiting.vertex@ == vertex,
            Err(text) => fails_with(step, text, None, None, None),
        }
    }

    /// Takes the outcome of the vertex shader's build.
    pub fn resume(self, built: Result<ShaderObject, String>) -> (step: ProgramBuildStep)
        ensures
            self.resumes_to(built_shader(built), step),
    {
        match built {
            Ok(vertex) => ProgramBuildStep::BuildFragmentShader(
                ShaderType::FragmentShader,
                AwaitingFragmentShader { vertex },
            ),
            Err(text) => ProgramBuildStep::Finished(
                ProgramOutcome::Failed {
                    diagnostic: text,
                    vertex: None,
                    fragment: None,
                    program: None,
                },
            ),
        }
    }
}

impl AwaitingFragmentShader {
    /// The step that follows the outcome of the fragment shader's build. A
    /// failure ends the build of the program with the shader's diagnostic,
    /// and the vertex shader is handed over to be deleted; with the shader
    /// built, a program object is asked for next.
    pub open spec fn resumes_to(self, built: Result<u32, Seq<char>>, step: ProgramBuildStep) -> bool {
        match built {
            Ok(fragment) => step matches ProgramBuildStep::Allocate(awaiting) && awaiting.vertex@
                == self.vertex@ && awaiting.fragment@ == fragment,
            Err(text) => fails_with(step, text, Some(self.vertex@), None, None),
        }
    }

    /// Takes the outcome of the fragment shader's build.
    pub fn resume(self, built: Result<ShaderObject, String>) -> (step: ProgramBuildStep)
        ensures
            self.resumes_to(built_shader(built), step),
    {
        match built {
            Ok(fragment) => ProgramBuildStep::Allocate(
                AwaitingProgramId { vertex: self.vertex, fragment },
            ),
            Err(text) => ProgramBuildStep::Finished(
                ProgramOutcome::Failed {
                    diagnostic: text,
                    vertex: Some(self.vertex),
                    fragment: None,
                    program: None,
                },
            ),
        }
    }
}

impl AwaitingProgramId {
    /// The step that follows the identifier `raw`. Zero ends the build with
    /// the fixed diagnostic, and both shaders are handed over to be deleted;
    /// any other identifier is the new program, to be linked next.
    pub open spec fn resumes_to(self, raw: u32, step: ProgramBuildStep) -> bool {
        if raw == 0 {
            fails_with(
                step,
                no_program_id_text(),
                Some(self.vertex@),
                Some(self.fragment@),
                None,
            )
        } else {
            step matches ProgramBuildStep::Link(request, awaiting) && request == (LinkRequest {
                program: raw,
                vertex: self.vertex@,
                fragment: self.fragment@,
            }) && awaiting.vertex@ == self.vertex@ && awaiting.fragment@ == self.fragment@
                && awaiting.program@ == raw
        }
    }

    /// Takes the identifier that the driver returned.
    pub fn resume(self, raw: u32) -> (step: ProgramBuildStep)
        ensures
            self.resumes_to(raw, step),
    {
        match ProgramObject::from_raw(raw) {
            Ok(program) => {
                let request = LinkRequest {
                    program: program.id(),
                    vertex: self.vertex.id(),
                    fragment: self.fragment.id(),
                };
                ProgramBuildStep::Link(
                    request,
                    AwaitingLinkStatus { vertex: self.vertex, fragment: self.fragment, program },
                )
            },
            Err(_) => ProgramBuildStep::Finished(
                ProgramOutcome::Failed {
                    diagnostic: String::from_str("Couldn't create a new program ID."),
                    vertex: Some(self.vertex),
                    fragment: Some(self.fragment),
                    program: None,
                },
            ),
        }
    }
}

impl AwaitingLinkStatus {
    /// The step that follows the link status. A linked program is the result
    /// of the build; for one that failed the info log is read next.
    pub open spec fn resumes_to(self, success: bool, step: ProgramBuildStep) -> bool {
        if success {
            step matches ProgramBuildStep::Finished(
                ProgramOutcome::Linked { program, vertex, fragment },
            ) && program@ == self.program@ && vertex@ == self.vertex@ && fragment@
                == self.fragment@
        } else {
            step matches ProgramBuildStep::ReadLog(program, awaiting) && program == self.program@
                && awaiting.vertex@ == self.vertex@ && awaiting.fragment@ == self.fragment@
                && awaiting.program@ == self.program@
        }
    }

    /// Takes the link status.
    pub fn resume(self, success: bool) -> (step: ProgramBuildStep)
        ensures
            self.resumes_to(success, step),
    {
        if success {
            ProgramBuildStep::Finished(
                ProgramOutcome::Linked {
                    program: self.program,
                    vertex: self.vertex,
                    fragment: self.fragment,
                },
            )
        } else {
            ProgramBuildStep::ReadLog(
                self.program.id(),
                AwaitingProgramLog {
                    vertex: self.vertex,
                    fragment: self.fragment,
                    program: self.program,
                },
            )
        }
    }
}

impl AwaitingProgramLog {
    /// The step that follows the info log: the log is the diagnostic of the
    /// failed build, and the program and both shaders are handed over to be
    /// deleted.
    pub open spec fn resumes_to(self, log: Seq<char>, step: ProgramBuildStep) -> bool {
        fails_with(step, log, Some(self.vertex@), Some(self.fragment@), Some(self.program@))
    }

    /// Takes the info log.
    pub fn resume(self, log: String) -> (step: ProgramBuildStep)
        ensures
            self.resumes_to(log@, step),
    {
        ProgramBuildStep::Finished(
            ProgramOutcome::Failed {
                diagnostic: log,
                vertex: Some(self.vertex),
                fragment: Some(self.fragment),
                program: Some(self.program),
            },
        )
    }
}

impl ProgramBuildStep {
    /// The vertex shader that the build has in its keeping at this step.
    pub open spec fn held_vertex(self) -> Option<u32> {
        match self {
            ProgramBuildStep::BuildVertexShader(_, _) => None,
            ProgramBuildStep::BuildFragmentShader(_, awaiting) => Some(awaiting.vertex@),
            ProgramBuildStep::Allocate(awaiting) => Some(awaiting.vertex@),
            ProgramBuildStep::Link(_, awaiting) => Some(awaiting.vertex@),
            ProgramBuildStep::ReadLog(_, awaiting) => Some(awaiting.vertex@),
            ProgramBuildStep::Finished(ProgramOutcome::Linked { vertex, .. }) => Some(vertex@),
            ProgramBuildStep::Finished(ProgramOutcome::Failed { vertex, .. }) => shader_id(vertex),
        }
    }

    /// The fragment shader that the build has in its keeping at this step.
    pub open spec fn held_fragment(self) -> Option<u32> {
        match self {
            ProgramBuildStep::BuildVertexShader(_, _) => None,
            ProgramBuildStep::BuildFragmentShader(_, _) => None,
            ProgramBuildStep::Allocate(awaiting) => Some(awaiting.fragment@),
            ProgramBuildStep::Link(_, awaiting) => Some(awaiting.fragment@),
            ProgramBuildStep::ReadLog(_, awaiting) => Some(awaiting.fragment@),
            ProgramBuildStep::Finished(ProgramOutcome::Linked { fragment, .. }) => Some(fragment@),
            ProgramBuildStep::Finished(ProgramOutcome::Failed { fragment, .. }) => shader_id(
                fragment,
            ),
        }
    }

    /// The program object that the build has in its keeping at this step.
    pub open spec fn held_program(self) -> Option<u32> {
        match self {
            ProgramBuildStep::BuildVertexShader(_, _) => None,
            ProgramBuildStep::BuildFragmentShader(_, _) => None,
            ProgramBuildStep::Allocate(_) => None,
            ProgramBuildStep::Link(_, awaiting) => Some(awaiting.program@),
            ProgramBuildStep::ReadLog(_, awaiting) => Some(awaiting.program@),
            ProgramBuildStep::Finished(ProgramOutcome::Linked { program, .. }) => Some(program@),
            ProgramBuildStep::Finished(ProgramOutcome::Failed { program, .. }) => program_id(
                program,
            ),
        }
    }

    /// All the objects that the build has in its keeping at this step.
    pub open spec fn held(self) -> Multiset<u32> {
        one(self.held_vertex()).add(one(self.held_fragment())).add(one(self.held_program()))
    }

    /// How many answers the build has taken at least when it stands here.
    pub open spec fn progress(self) -> nat {
        match self {
            ProgramBuildStep::BuildVertexShader(_, _) => 0,
            ProgramBuildStep::BuildFragmentShader(_, _) => 1,
            ProgramBuildStep::Allocate(_) => 2,
            ProgramBuildStep::Link(_, _) => 3,
            ProgramBuildStep::ReadLog(_, _) => 4,
            ProgramBuildStep::Finished(_) => 5,
        }
    }

    /// Whether `next` is the step that the continuation of `self` gives for
    /// `answer`. A finished build has no next step, and a step takes no
    /// answer but the one to its own request.
    pub open spec fn follows(self, answer: ProgramAnswer, next: ProgramBuildStep) -> bool {
        match (self, answer) {
            (ProgramBuildStep::BuildVertexShader(_, awaiting), ProgramAnswer::Shader(built)) => {
                awaiting.resumes_to(built, next)
            },
            (ProgramBuildStep::BuildFragmentShader(_, awaiting), ProgramAnswer::Shader(built)) => {
                awaiting.resumes_to(built, next)
            },
            (ProgramBuildStep::Allocate(awaiting), ProgramAnswer::Identifier(raw)) => {
                awaiting.resumes_to(raw, next)
            },
            (ProgramBuildStep::Link(_, awaiting), ProgramAnswer::Status(success)) => {
                awaiting.resumes_to(success, next)
            },
            (ProgramBuildStep::ReadLog(_, awaiting), ProgramAnswer::Log(log)) => {
                awaiting.resumes_to(log, next)
            },
            _ => false,
        }
    }

    /// An object that the build has created stays in its keeping to the end:
    /// what is held before a step is held after it, and what an answer
    /// brings is held from the step that took it.
    pub proof fn lemma_nothing_is_dropped(self, answer: ProgramAnswer, next: ProgramBuildStep)
        requires
            self.follows(answer, next),
        ensures
            self.held_vertex() is Some ==> next.held_vertex() == self.held_vertex(),
            self.held_fragment() is Some ==> next.held_fragment() == self.held_fragment(),
            self.held_program() is Some ==> next.held_program() == self.held_program(),
            answer matches ProgramAnswer::Shader(Ok(shader)) ==> (if self is BuildVertexShader {
                next.held_vertex() == Some(shader)
            } else {
                next.held_fragment() == Some(shader)
            }),
            answer matches ProgramAnswer::Identifier(raw) ==> (raw != 0 ==> next.held_program()
                == Some(raw)),
    {
    }

    /// Nothing comes into the keeping of the build but what an answer
    /// brought.
    pub proof fn lemma_nothing_is_made_up(self, answer: ProgramAnswer, next: ProgramBuildStep)
        requires
            self.follows(answer, next),
        ensures
            next.held_vertex() is Some ==> self.held_vertex() is Some || (self is BuildVertexShader
                && answer matches ProgramAnswer::Shader(Ok(_))),
            next.held_fragment() is Some ==> self.held_fragment() is Some || (self
                is BuildFragmentShader && answer matches ProgramAnswer::Shader(Ok(_))),
            next.held_program() is Some ==> self.held_program() is Some || (self is Allocate
                && answer is Identifier),
    {
    }

    /// A build ends in a program only on the answer that it linked, and then
    /// with the two shaders and the program that were to be linked.
    pub proof fn lemma_linked_only_when_link_succeeded(
        self,
        answer: ProgramAnswer,
        next: ProgramBuildStep,
    )
        requires
            self.follows(answer, next),
            next matches ProgramBuildStep::Finished(ProgramOutcome::Linked { .. }),
        ensures
            answer == ProgramAnswer::Status(true),
            self matches ProgramBuildStep::Link(_, awaiting) && next.held_program() == Some(
                awaiting.program@,
            ) && next.held_vertex() == Some(awaiting.vertex@) && next.held_fragment() == Some(
                awaiting.fragment@,
            ),
    {
    }

    /// A failed build hands over for deletion every object that it had
    /// created, and reports the text of the one thing that failed: the
    /// diagnostic of a shader's build, the fixed text for a missing program
    /// identifier, or the program's info log.
    pub proof fn lemma_failure_cleans_up(self, answer: ProgramAnswer, next: ProgramBuildStep)
        requires
            self.follows(answer, next),
            next matches ProgramBuildStep::Finished(ProgramOutcome::Failed { .. }),
        ensures
            next matches ProgramBuildStep::Finished(
                ProgramOutcome::Failed { diagnostic, vertex, fragment, program },
            ) && shader_id(vertex) == self.held_vertex() && shader_id(fragment)
                == self.held_fragment() && program_id(program) == self.held_program()
                && (match answer {
                ProgramAnswer::Shader(built) => built == Err::<u32, Seq<char>>(diagnostic@),
                ProgramAnswer::Identifier(raw) => raw == 0 && diagnostic@ == no_program_id_text(),
                ProgramAnswer::Log(log) => self is ReadLog && diagnostic@ == log,
                ProgramAnswer::Status(_) => false,
            }),
    {
    }

    /// Every answer brings the build forward, so that it is over after five
    /// answers at most.
    pub proof fn lemma_build_advances(self, answer: ProgramAnswer, next: ProgramBuildStep)
        requires
            self.follows(answer, next),
        ensures
            self.progress() < next.progress() <= 5,
            next.progress() == 5 <==> next is Finished,
    {
    }

    /// Across one step the build keeps exactly what it had and what the
    /// answer brought.
    pub proof fn lemma_step_accounts_for_every_object(
        self,
        answer: ProgramAnswer,
        next: ProgramBuildStep,
    )
        requires
            self.follows(answer, next),
        ensures
            next.held() =~= self.held().add(answer.brought()),
    {
        self.lemma_nothing_is_dropped(answer, next);
        self.lemma_nothing_is_made_up(answer, next);
    }
}

/// However a build runs, it takes five answers at most, and at each step it
/// has in its keeping exactly the objects that the answers so far have
/// brought: none is lost and none is counted twice. Where the run ends in a
/// failure, these are the objects handed over for deletion, so that as many
/// are deleted as were created.
pub proof fn lemma_run_accounts_for_every_object(
    steps: Seq<ProgramBuildStep>,
    answers: Seq<ProgramAnswer>,
)
    requires
        is_run(steps, answers),
    ensures
        steps.last().held() =~= brought_by(answers),
        answers.len() <= steps.last().progress() <= 5,
        steps.last() matches ProgramBuildStep::Finished(
            ProgramOutcome::Failed { vertex, fragment, program, .. },
        ) ==> one(shader_id(vertex)).add(one(shader_id(fragment))).add(one(program_id(program)))
            =~= brought_by(answers),
    decreases answers.len(),
{
    if answers.len() > 0 {
        let n = answers.len() as int;
        let before = steps.drop_last();
        let earlier = answers.drop_last();
        assert(is_run(before, earlier)) by {
            assert forall|i: int| 0 <= i < earlier.len() implies (#[trigger] before[i]).follows(
                earlier[i],
                before[i + 1],
            ) by {
                assert(steps[i].follows(answers[i], steps[i + 1]));
            }
        }
        lemma_run_accounts_for_every_object(before, earlier);
        assert(before.last() == steps[n - 1]);
        assert(steps[n - 1].follows(answers[n - 1], steps[n]));
        steps[n - 1].lemma_step_accounts_for_every_object(answers[n - 1], steps[n]);
        steps[n - 1].lemma_build_advances(answers[n - 1], steps[n]);
    }
}

impl EzGl {
    /// Begins the build of a program from a vertex and a fragment source:
    /// the first step is to build the vertex shader.
    pub fn create_vertex_fragment_program() -> (step: ProgramBuildStep)
        ensures
            step matches ProgramBuildStep::BuildVertexShader(shader_type, _) && shader_type
                == ShaderType::VertexShader,
    {
        ProgramBuildStep::BuildVertexShader(ShaderType::VertexShader, AwaitingVertexShader {  })
    }
}

} // verus!
