use crate::compile::{CompileCommand, CompileModel, CompilePhase};
use crate::driver::ReplyModel;
use crate::log::{log_text, LOG_TEXT_MAX};
use crate::source::TERMINATOR;
use vstd::prelude::*;

verus! {

impl CompilePhase {
    /// The number of commands that were answered before this phase was reached.
    pub open spec fn position(self) -> int {
        match self {
            CompilePhase::CreatingShader => 0,
            CompilePhase::SubmittingSource => 1,
            CompilePhase::Compiling => 2,
            CompilePhase::QueryingCompile => 3,
            CompilePhase::ReadingShaderLog => 4,
            CompilePhase::CompileFailed => 5,
            CompilePhase::CreatingProgram => 4,
            CompilePhase::Attaching => 5,
            CompilePhase::Linking => 6,
            CompilePhase::QueryingLink => 7,
            CompilePhase::Linked => 8,
            CompilePhase::ReadingProgramLog => 8,
            CompilePhase::LinkFailed => 9,
        }
    }

    /// Whether the shader object is created by the time of this phase.
    pub open spec fn has_shader(self) -> bool {
        !(self is CreatingShader)
    }

    /// Whether the program object is created by the time of this phase.
    pub open spec fn has_program(self) -> bool {
        self is Attaching || self is Linking || self is QueryingLink || self is Linked
            || self is ReadingProgramLog || self is LinkFailed
    }

    /// Whether a compilation in this phase can still end in the final phase `end`.
    pub open spec fn leads_to(self, end: CompilePhase) -> bool {
        match self {
            CompilePhase::CreatingShader
            | CompilePhase::SubmittingSource
            | CompilePhase::Compiling
            | CompilePhase::QueryingCompile => end.is_final(),
            CompilePhase::ReadingShaderLog | CompilePhase::CompileFailed => end is CompileFailed,
            CompilePhase::CreatingProgram
            | CompilePhase::Attaching
            | CompilePhase::Linking
            | CompilePhase::QueryingLink => end is Linked || end is LinkFailed,
            CompilePhase::Linked => end is Linked,
            CompilePhase::ReadingProgramLog | CompilePhase::LinkFailed => end is LinkFailed,
        }
    }
}

/// The commands that build a program from a shader that compiles and links.
pub open spec fn linked_script(shader: u32, program: u32) -> Seq<CompileCommand> {
    seq![
        CompileCommand::CreateComputeShader,
        CompileCommand::ShaderSource { shader },
        CompileCommand::CompileShader { shader },
        CompileCommand::GetCompileStatus { shader },
        CompileCommand::CreateProgram,
        CompileCommand::AttachShader { program, shader },
        CompileCommand::LinkProgram { program },
        CompileCommand::GetLinkStatus { program },
    ]
}

/// The commands that end in a compile failure: no program object is asked for.
pub open spec fn compile_failed_script(shader: u32) -> Seq<CompileCommand> {
    seq![
        CompileCommand::CreateComputeShader,
        CompileCommand::ShaderSource { shader },
        CompileCommand::CompileShader { shader },
        CompileCommand::GetCompileStatus { shader },
        CompileCommand::GetShaderLog { shader, max_len: LOG_TEXT_MAX },
    ]
}

/// The commands that end in a link failure.
pub open spec fn link_failed_script(shader: u32, program: u32) -> Seq<CompileCommand> {
    linked_script(shader, program).push(
        CompileCommand::GetProgramLog { program, max_len: LOG_TEXT_MAX },
    )
}

impl CompileModel {
    /// The state after the replies of `replies` arrived one after another.
    pub open spec fn after(self, replies: Seq<ReplyModel>) -> CompileModel
        decreases replies.len(),
    {
        if replies.len() == 0 {
            self
        } else {
            self.step(replies.first()).after(replies.drop_first())
        }
    }

    /// The commands that were performed while the replies of `replies` arrived: the pending
    /// one for each reply that was accepted.
    pub open spec fn issued(self, replies: Seq<ReplyModel>) -> Seq<CompileCommand>
        decreases replies.len(),
    {
        if replies.len() == 0 {
            Seq::empty()
        } else {
            let rest = self.step(replies.first()).issued(replies.drop_first());
            if self.accepts(replies.first()) {
                seq![self.pending().unwrap()] + rest
            } else {
                rest
            }
        }
    }

    /// The whole script of commands that ends in the final state `self`.
    pub open spec fn script(self) -> Seq<CompileCommand>
        recommends
            self.phase.is_final(),
    {
        match self.phase {
            CompilePhase::CompileFailed => compile_failed_script(self.shader),
            CompilePhase::LinkFailed => link_failed_script(self.shader, self.program),
            _ => linked_script(self.shader, self.program),
        }
    }
}

/// One reply keeps the source text, keeps what holds of every state, and, where it is
/// accepted, moves the compilation one command further.
pub proof fn lemma_step(m: CompileModel, reply: ReplyModel)
    ensures
        m.step(reply).text == m.text,
        m.wf() ==> m.step(reply).wf(),
        m.phase.has_shader() ==> m.step(reply).shader == m.shader,
        m.phase.has_program() ==> m.step(reply).program == m.program,
        m.accepts(reply) ==> m.step(reply).phase.position() == m.phase.position() + 1,
        m.accepts(reply) ==> m.step(reply).phase.remaining() < m.phase.remaining(),
        !m.accepts(reply) ==> m.step(reply) == m,
        m.accepts(reply) <==> m.pending().is_some() && m.step(reply).phase != m.phase,
{
    if let ReplyModel::Bytes(buf) = reply {
        crate::log::lemma_log_text_is_log_text(buf);
    }
}

/// Whatever replies arrive, the commands performed up to the end of a compilation are the
/// part of its script that was still ahead.
pub proof fn lemma_history(m: CompileModel, replies: Seq<ReplyModel>)
    requires
        m.after(replies).phase.is_final(),
    ensures
        m.phase.leads_to(m.after(replies).phase),
        m.phase.has_shader() ==> m.after(replies).shader == m.shader,
        m.phase.has_program() ==> m.after(replies).program == m.program,
        m.after(replies).text == m.text,
        m.issued(replies) == m.after(replies).script().subrange(
            m.phase.position(),
            m.after(replies).phase.position(),
        ),
    decreases replies.len(),
{
    let end = m.after(replies);
    let whole = end.script();
    if replies.len() == 0 {
        assert(m.issued(replies) =~= whole.subrange(m.phase.position(), end.phase.position()));
    } else {
        let reply = replies.first();
        let then = m.step(reply);
        lemma_step(m, reply);
        lemma_history(then, replies.drop_first());
        if m.accepts(reply) {
            assert(whole[m.phase.position()] == m.pending().unwrap());
            assert(m.issued(replies) =~= whole.subrange(
                m.phase.position(),
                end.phase.position(),
            ));
        }
    }
}

/// A compilation that ends with a linked program has created one shader, given it the
/// terminated source, compiled it, queried its status, created one program, attached the
/// shader, linked and queried the link status, in this order and with nothing else.
pub proof fn lemma_linked_history(source: Seq<u8>, replies: Seq<ReplyModel>)
    requires
        CompileModel::start(source).after(replies).phase is Linked,
    ensures
        ({
            let end = CompileModel::start(source).after(replies);
            &&& CompileModel::start(source).issued(replies) == linked_script(
                end.shader,
                end.program,
            )
            &&& end.text == source.push(TERMINATOR)
            &&& end.has_outcome(Some(Ok(end.program)))
        }),
{
    let begin = CompileModel::start(source);
    let end = begin.after(replies);
    lemma_history(begin, replies);
    assert(end.script().subrange(0, 8) =~= end.script());
}

/// A compilation that ends with a compile failure has asked for the shader's log after the
/// status query and for nothing after it: no program object was created.
pub proof fn lemma_compile_failed_history(source: Seq<u8>, replies: Seq<ReplyModel>)
    requires
        CompileModel::start(source).after(replies).phase is CompileFailed,
    ensures
        ({
            let end = CompileModel::start(source).after(replies);
            &&& CompileModel::start(source).issued(replies) == compile_failed_script(end.shader)
            &&& end.text == source.push(TERMINATOR)
        }),
{
    let begin = CompileModel::start(source);
    let end = begin.after(replies);
    lemma_history(begin, replies);
    assert(end.script().subrange(0, 5) =~= end.script());
}

/// A compilation that ends with a link failure has gone through the whole script of a
/// successful one and then asked for the program's log.
pub proof fn lemma_link_failed_history(source: Seq<u8>, replies: Seq<ReplyModel>)
    requires
        CompileModel::start(source).after(replies).phase is LinkFailed,
    ensures
        ({
            let end = CompileModel::start(source).after(replies);
            &&& CompileModel::start(source).issued(replies) == link_failed_script(
                end.shader,
                end.program,
            )
            &&& end.text == source.push(TERMINATOR)
        }),
{
    let begin = CompileModel::start(source);
    let end = begin.after(replies);
    lemma_history(begin, replies);
    assert(end.script().subrange(0, 9) =~= end.script());
}

/// Whatever replies arrive, every state of a compilation is well formed, and no more than
/// nine of the replies are accepted.
pub proof fn lemma_compilation_bounded(source: Seq<u8>, replies: Seq<ReplyModel>)
    ensures
        CompileModel::start(source).after(replies).wf(),
        CompileModel::start(source).issued(replies).len() <= 9,
{
    lemma_progress(CompileModel::start(source), replies);
}

proof fn lemma_progress(m: CompileModel, replies: Seq<ReplyModel>)
    requires
        m.wf(),
    ensures
        m.after(replies).wf(),
        m.issued(replies).len() + m.after(replies).phase.remaining() <= m.phase.remaining(),
    decreases replies.len(),
{
    if replies.len() > 0 {
        lemma_step(m, replies.first());
        lemma_progress(m.step(replies.first()), replies.drop_first());
    }
}

/// The driver's replies to a source that compiles and links, with the statuses `compiled` and
/// `linked`, lead to the program `program`.
pub proof fn lemma_compiles_and_links(
    source: Seq<u8>,
    shader: u32,
    compiled: i32,
    program: u32,
    linked: i32,
)
    requires
        compiled != 0,
        linked != 0,
    ensures
        ({
            let replies = seq![
                ReplyModel::Handle(shader),
                ReplyModel::Done,
                ReplyModel::Done,
                ReplyModel::Status(compiled),
                ReplyModel::Handle(program),
                ReplyModel::Done,
                ReplyModel::Done,
                ReplyModel::Status(linked),
            ];
            let end = CompileModel::start(source).after(replies);
            &&& end.phase is Linked
            &&& end.program == program
            &&& end.shader == shader
            &&& CompileModel::start(source).issued(replies) == linked_script(shader, program)
        }),
{
    let replies = seq![
        ReplyModel::Handle(shader),
        ReplyModel::Done,
        ReplyModel::Done,
        ReplyModel::Status(compiled),
        ReplyModel::Handle(program),
        ReplyModel::Done,
        ReplyModel::Done,
        ReplyModel::Status(linked),
    ];
    let m0 = CompileModel::start(source);
    reveal_with_fuel(prefix_state, 10);
    lemma_after_each(m0, replies, 8);
    assert(replies.skip(8) =~= Seq::empty());
    lemma_linked_history(source, replies);
}

/// The driver's replies to a source that does not compile lead to the compile failure with
/// the text of the log buffer `buf`.
pub proof fn lemma_compile_fails(source: Seq<u8>, shader: u32, buf: Seq<u8>)
    ensures
        ({
            let replies = seq![
                ReplyModel::Handle(shader),
                ReplyModel::Done,
                ReplyModel::Done,
                ReplyModel::Status(0),
                ReplyModel::Bytes(buf),
            ];
            let end = CompileModel::start(source).after(replies);
            &&& end.phase is CompileFailed
            &&& end.log == log_text(buf)
            &&& CompileModel::start(source).issued(replies) == compile_failed_script(shader)
        }),
{
    let replies = seq![
        ReplyModel::Handle(shader),
        ReplyModel::Done,
        ReplyModel::Done,
        ReplyModel::Status(0),
        ReplyModel::Bytes(buf),
    ];
    let m0 = CompileModel::start(source);
    reveal_with_fuel(prefix_state, 10);
    lemma_after_each(m0, replies, 5);
    assert(replies.skip(5) =~= Seq::empty());
    lemma_compile_failed_history(source, replies);
}

/// The driver's replies to a shader that compiles and does not link lead to the link failure
/// with the text of the log buffer `buf`.
pub proof fn lemma_link_fails(
    source: Seq<u8>,
    shader: u32,
    compiled: i32,
    program: u32,
    buf: Seq<u8>,
)
    requires
        compiled != 0,
    ensures
        ({
            let replies = seq![
                ReplyModel::Handle(shader),
                ReplyModel::Done,
                ReplyModel::Done,
                ReplyModel::Status(compiled),
                ReplyModel::Handle(program),
                ReplyModel::Done,
                ReplyModel::Done,
                ReplyModel::Status(0),
                ReplyModel::Bytes(buf),
            ];
            let end = CompileModel::start(source).after(replies);
            &&& end.phase is LinkFailed
            &&& end.log == log_text(buf)
            &&& CompileModel::start(source).issued(replies) == link_failed_script(
                shader,
                program,
            )
        }),
{
    let replies = seq![
        ReplyModel::Handle(shader),
        ReplyModel::Done,
        ReplyModel::Done,
        ReplyModel::Status(compiled),
        ReplyModel::Handle(program),
        ReplyModel::Done,
        ReplyModel::Done,
        ReplyModel::Status(0),
        ReplyModel::Bytes(buf),
    ];
    let m0 = CompileModel::start(source);
    reveal_with_fuel(prefix_state, 10);
    lemma_after_each(m0, replies, 9);
    assert(replies.skip(9) =~= Seq::empty());
    lemma_link_failed_history(source, replies);
}

/// The state after the first `n` replies of `replies`, taken from the left.
spec fn prefix_state(m: CompileModel, replies: Seq<ReplyModel>, n: nat) -> CompileModel
    decreases n,
{
    if n == 0 {
        m
    } else {
        prefix_state(m, replies, (n - 1) as nat).step(replies[n - 1])
    }
}

/// Taking the replies one by one from the left leads where taking them all at once does.
proof fn lemma_after_each(m: CompileModel, replies: Seq<ReplyModel>, n: nat)
    requires
        n <= replies.len(),
    ensures
        m.after(replies) == prefix_state(m, replies, n).after(replies.skip(n as int)),
    decreases n,
{
    if n == 0 {
        assert(replies.skip(0) =~= replies);
    } else {
        let k = (n - 1) as nat;
        lemma_after_each(m, replies, k);
        let tail = replies.skip(k as int);
        assert(tail.first() == replies[k as int]);
        assert(tail.drop_first() =~= replies.skip(n as int));
    }
}

} // verus!
