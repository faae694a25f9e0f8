use crate::driver::{Reply, ReplyModel};
use crate::log::{diagnostic_text, log_text, LOG_TEXT_MAX};
use crate::source::{null_terminated, TERMINATOR};
use vstd::prelude::*;

pub mod history;

verus! {

/// Why a compute program could not be built.
#[derive(Debug, PartialEq, Eq)]
pub enum CompileError {
    /// The source did not compile; the driver's diagnostic text is attached.
    ShaderCompileFailed(Vec<u8>),
    /// The compiled shader did not link into a program; the driver's diagnostic text is attached.
    LinkFailed(Vec<u8>),
}

/// One request to the graphics driver while a compute program is built.
#[derive(Debug, Clone, Copy, PartialEq, Eq)]
pub enum CompileCommand {
    /// Create a shader object of the compute kind. Answered with its handle.
    CreateComputeShader,
    /// Give the shader the text of the compilation as its only source string.
    ShaderSource { shader: u32 },
    /// Compile the shader.
    CompileShader { shader: u32 },
    /// Query the shader's compile status. Answered with the status.
    GetCompileStatus { shader: u32 },
    /// Read the shader's log, at most `max_len` bytes of it. Answered with the log buffer.
    GetShaderLog { shader: u32, max_len: usize },
    /// Create a program object. Answered with its handle.
    CreateProgram,
    /// Attach the shader to the program.
    AttachShader { program: u32, shader: u32 },
    /// Link the program.
    LinkProgram { program: u32 },
    /// Query the program's link status. Answered with the status.
    GetLinkStatus { program: u32 },
    /// Read the program's log, at most `max_len` bytes of it. Answered with the log buffer.
    GetProgramLog { program: u32, max_len: usize },
}

/// How far the building of a compute program has come. Each phase but the last three waits
/// for the reply to one command.
#[derive(Debug, Clone, Copy, PartialEq, Eq)]
pub enum CompilePhase {
    CreatingShader,
    SubmittingSource,
    Compiling,
    QueryingCompile,
    ReadingShaderLog,
    CreatingProgram,
    Attaching,
    Linking,
    QueryingLink,
    ReadingProgramLog,
    /// The program is linked.
    Linked,
    /// The source did not compile.
    CompileFailed,
    /// The shader did not link.
    LinkFailed,
}

/// The building of a compute program, as a mathematical value.
pub struct CompileModel {
    pub phase: CompilePhase,
    /// The source with its terminator.
    pub text: Seq<u8>,
    /// The shader object, once it is created.
    pub shader: u32,
    /// The program object, once it is created.
    pub program: u32,
    /// The diagnostic text, once a failure is read.
    pub log: Seq<u8>,
}

impl CompilePhase {
    /// Whether nothing is left to ask of the driver.
    pub open spec fn is_final(self) -> bool {
        self is Linked || self is CompileFailed || self is LinkFailed
    }

    /// The greatest number of replies that can still be accepted from this phase on.
    pub open spec fn remaining(self) -> nat {
        match self {
            CompilePhase::CreatingShader => 9,
            CompilePhase::SubmittingSource => 8,
            CompilePhase::Compiling => 7,
            CompilePhase::QueryingCompile => 6,
            CompilePhase::CreatingProgram => 5,
            CompilePhase::Attaching => 4,
            CompilePhase::Linking => 3,
            CompilePhase::QueryingLink => 2,
            CompilePhase::ReadingShaderLog => 1,
            CompilePhase::ReadingProgramLog => 1,
            CompilePhase::Linked => 0,
            CompilePhase::CompileFailed => 0,
            CompilePhase::LinkFailed => 0,
        }
    }
}

impl CompileModel {
    /// The state in which the building of a program from `source` begins.
    pub open spec fn start(source: Seq<u8>) -> CompileModel {
        CompileModel {
            phase: CompilePhase::CreatingShader,
            text: source.push(TERMINATOR),
            shader: 0,
            program: 0,
            log: Seq::empty(),
        }
    }

    /// What holds of every state that a compilation goes through.
    pub open spec fn wf(self) -> bool {
        &&& self.text.len() > 0
        &&& self.text.last() == TERMINATOR
        &&& self.log.len() <= LOG_TEXT_MAX
        &&& forall|j: int| 0 <= j < self.log.len() ==> self.log[j] != 0
        &&& (self.phase is CompileFailed || self.phase is LinkFailed || self.log.len() == 0)
    }

    /// The command that the driver is to perform next, if any is left.
    pub open spec fn pending(self) -> Option<CompileCommand> {
        match self.phase {
            CompilePhase::CreatingShader => Some(CompileCommand::CreateComputeShader),
            CompilePhase::SubmittingSource => Some(
                CompileCommand::ShaderSource { shader: self.shader },
            ),
            CompilePhase::Compiling => Some(CompileCommand::CompileShader { shader: self.shader }),
            CompilePhase::QueryingCompile => Some(
                CompileCommand::GetCompileStatus { shader: self.shader },
            ),
            CompilePhase::ReadingShaderLog => Some(
                CompileCommand::GetShaderLog { shader: self.shader, max_len: LOG_TEXT_MAX },
            ),
            CompilePhase::CreatingProgram => Some(CompileCommand::CreateProgram),
            CompilePhase::Attaching => Some(
                CompileCommand::AttachShader { program: self.program, shader: self.shader },
            ),
            CompilePhase::Linking => Some(CompileCommand::LinkProgram { program: self.program }),
            CompilePhase::QueryingLink => Some(
                CompileCommand::GetLinkStatus { program: self.program },
            ),
            CompilePhase::ReadingProgramLog => Some(
                CompileCommand::GetProgramLog { program: self.program, max_len: LOG_TEXT_MAX },
            ),
            CompilePhase::Linked => None,
            CompilePhase::CompileFailed => None,
            CompilePhase::LinkFailed => None,
        }
    }

    /// Whether `reply` is of the kind that answers the pending command.
    pub open spec fn accepts(self, reply: ReplyModel) -> bool {
        match self.phase {
            CompilePhase::CreatingShader | CompilePhase::CreatingProgram => reply is Handle,
            CompilePhase::SubmittingSource
            | CompilePhase::Compiling
            | CompilePhase::Attaching
            | CompilePhase::Linking => reply is Done,
            CompilePhase::QueryingCompile | CompilePhase::QueryingLink => reply is Status,
            CompilePhase::ReadingShaderLog | CompilePhase::ReadingProgramLog => reply is Bytes,
            CompilePhase::Linked | CompilePhase::CompileFailed | CompilePhase::LinkFailed => false,
        }
    }

    /// The state after the pending command was answered with `reply`.
    pub open spec fn next(self, reply: ReplyModel) -> CompileModel
        recommends
            self.accepts(reply),
    {
        match self.phase {
            CompilePhase::CreatingShader => CompileModel {
                phase: CompilePhase::SubmittingSource,
                shader: reply->Handle_0,
                ..self
            },
            CompilePhase::SubmittingSource => CompileModel {
                phase: CompilePhase::Compiling,
                ..self
            },
            CompilePhase::Compiling => CompileModel {
                phase: CompilePhase::QueryingCompile,
                ..self
            },
            CompilePhase::QueryingCompile => if reply->Status_0 == 0 {
                CompileModel { phase: CompilePhase::ReadingShaderLog, ..self }
            } else {
                CompileModel { phase: CompilePhase::CreatingProgram, ..self }
            },
            CompilePhase::ReadingShaderLog => CompileModel {
                phase: CompilePhase::CompileFailed,
                log: log_text(reply->Bytes_0),
                ..self
            },
            CompilePhase::CreatingProgram => CompileModel {
                phase: CompilePhase::Attaching,
                program: reply->Handle_0,
                ..self
            },
            CompilePhase::Attaching => CompileModel { phase: CompilePhase::Linking, ..self },
            CompilePhase::Linking => CompileModel { phase: CompilePhase::QueryingLink, ..self },
            CompilePhase::QueryingLink => if reply->Status_0 == 0 {
                CompileModel { phase: CompilePhase::ReadingProgramLog, ..self }
            } else {
                CompileModel { phase: CompilePhase::Linked, ..self }
            },
            CompilePhase::ReadingProgramLog => CompileModel {
                phase: CompilePhase::LinkFailed,
                log: log_text(reply->Bytes_0),
                ..self
            },
            CompilePhase::Linked => self,
            CompilePhase::CompileFailed => self,
            CompilePhase::LinkFailed => self,
        }
    }

    /// The state after `reply` arrived: the next one where the reply answers the pending
    /// command, the same one where it does not.
    pub open spec fn step(self, reply: ReplyModel) -> CompileModel {
        if self.accepts(reply) {
            self.next(reply)
        } else {
            self
        }
    }

    /// Whether `outcome` is what this state has to show: nothing while a command is pending,
    /// the program once it is linked, the failure and its text otherwise.
    pub open spec fn has_outcome(self, outcome: Option<Result<u32, CompileError>>) -> bool {
        match outcome {
            None => !self.phase.is_final(),
            Some(Ok(program)) => self.phase is Linked && program == self.program,
            Some(Err(CompileError::ShaderCompileFailed(log))) => self.phase is CompileFailed
                && log@ == self.log,
            Some(Err(CompileError::LinkFailed(log))) => self.phase is LinkFailed && log@
                == self.log,
        }
    }
}

/// The building of a compute program: it says which command the driver is to perform next,
/// takes the driver's reply, and ends with the linked program or with a failure.
pub struct Compilation {
    phase: CompilePhase,
    text: Vec<u8>,
    shader: u32,
    program: u32,
    log: Vec<u8>,
}

impl View for Compilation {
    type V = CompileModel;

    closed spec fn view(&self) -> CompileModel {
        CompileModel {
            phase: self.phase,
            text: self.text@,
            shader: self.shader,
            program: self.program,
            log: self.log@,
        }
    }
}

/// Begins the building of a compute program from `source`.
pub fn compile_compute_shader(source: &[u8]) -> (compilation: Compilation)
    ensures
        compilation@ == CompileModel::start(source@),
        compilation@.wf(),
{
    Compilation {
        phase: CompilePhase::CreatingShader,
        text: null_terminated(source),
        shader: 0,
        program: 0,
        log: Vec::new(),
    }
}

impl Compilation {
    /// The command that the driver is to perform next, if any is left.
    pub fn command(&self) -> (command: Option<CompileCommand>)
        ensures
            command == self@.pending(),
    {
        match self.phase {
            CompilePhase::CreatingShader => Some(CompileCommand::CreateComputeShader),
            CompilePhase::SubmittingSource => Some(
                CompileCommand::ShaderSource { shader: self.shader },
            ),
            CompilePhase::Compiling => Some(CompileCommand::CompileShader { shader: self.shader }),
            CompilePhase::QueryingCompile => Some(
                CompileCommand::GetCompileStatus { shader: self.shader },
            ),
            CompilePhase::ReadingShaderLog => Some(
                CompileCommand::GetShaderLog { shader: self.shader, max_len: LOG_TEXT_MAX },
            ),
            CompilePhase::CreatingProgram => Some(CompileCommand::CreateProgram),
            CompilePhase::Attaching => Some(
                CompileCommand::AttachShader { program: self.program, shader: self.shader },
            ),
            CompilePhase::Linking => Some(CompileCommand::LinkProgram { program: self.program }),
            CompilePhase::QueryingLink => Some(
                CompileCommand::GetLinkStatus { program: self.program },
            ),
            CompilePhase::ReadingProgramLog => Some(
                CompileCommand::GetProgramLog { program: self.program, max_len: LOG_TEXT_MAX },
            ),
            CompilePhase::Linked => None,
            CompilePhase::CompileFailed => None,
            CompilePhase::LinkFailed => None,
        }
    }

    /// The source with its terminator, as the driver's compiler takes it.
    pub fn text(&self) -> (text: &[u8])
        ensures
            text@ == self@.text,
    {
        self.text.as_slice()
    }

    /// Takes the driver's reply to the pending command. A reply of another kind than the
    /// command is answered with, or one that comes when nothing is pending, changes nothing.
    pub fn advance(&mut self, reply: Reply) -> (accepted: bool)
        ensures
            accepted == old(self)@.accepts(reply@),
            final(self)@ == old(self)@.step(reply@),
            old(self)@.wf() ==> final(self)@.wf(),
            accepted ==> final(self)@.phase.remaining() < old(self)@.phase.remaining(),
    {
        proof {
            if let ReplyModel::Bytes(buf) = reply@ {
                crate::log::lemma_log_text_is_log_text(buf);
            }
        }
        match (self.phase, reply) {
            (CompilePhase::CreatingShader, Reply::Handle(shader)) => {
                self.shader = shader;
                self.phase = CompilePhase::SubmittingSource;
                true
            },
            (CompilePhase::SubmittingSource, Reply::Done) => {
                self.phase = CompilePhase::Compiling;
                true
            },
            (CompilePhase::Compiling, Reply::Done) => {
                self.phase = CompilePhase::QueryingCompile;
                true
            },
            (CompilePhase::QueryingCompile, Reply::Status(status)) => {
                if status == 0 {
                    self.phase = CompilePhase::ReadingShaderLog;
                } else {
                    self.phase = CompilePhase::CreatingProgram;
                }
                true
            },
            (CompilePhase::ReadingShaderLog, Reply::Bytes(buf)) => {
                self.log = diagnostic_text(buf.as_slice());
                self.phase = CompilePhase::CompileFailed;
                true
            },
            (CompilePhase::CreatingProgram, Reply::Handle(program)) => {
                self.program = program;
                self.phase = CompilePhase::Attaching;
                true
            },
            (CompilePhase::Attaching, Reply::Done) => {
                self.phase = CompilePhase::Linking;
                true
            },
            (CompilePhase::Linking, Reply::Done) => {
                self.phase = CompilePhase::QueryingLink;
                true
            },
            (CompilePhase::QueryingLink, Reply::Status(status)) => {
                if status == 0 {
                    self.phase = CompilePhase::ReadingProgramLog;
                } else {
                    self.phase = CompilePhase::Linked;
                }
                true
            },
            (CompilePhase::ReadingProgramLog, Reply::Bytes(buf)) => {
                self.log = diagnostic_text(buf.as_slice());
                self.phase = CompilePhase::LinkFailed;
                true
            },
            _ => false,
        }
    }

    /// What the building has come to: nothing while a command is pending, the linked program,
    /// or the failure with the driver's diagnostic text.
    pub fn outcome(self) -> (outcome: Option<Result<u32, CompileError>>)
        ensures
            self@.has_outcome(outcome),
    {
        match self.phase {
            CompilePhase::Linked => Some(Ok(self.program)),
            CompilePhase::CompileFailed => Some(Err(CompileError::ShaderCompileFailed(self.log))),
            CompilePhase::LinkFailed => Some(Err(CompileError::LinkFailed(self.log))),
            _ => None,
        }
    }
}

} // verus!
