use crate::dispatch::{DispatchCommand, DispatchModel, DispatchPhase, NO_BUFFER, STORAGE_SLOT};
use crate::driver::ReplyModel;
use crate::words::{bytes_to_words, words_to_bytes, WORD_SIZE};
use vstd::prelude::*;

verus! {

/// The commands of one whole run, in their order: the barrier stands after the dispatch and
/// before the buffer is mapped.
pub open spec fn dispatch_script(
    program: u32,
    layout: (u32, u32, u32),
    size: usize,
    buffer: u32,
) -> Seq<DispatchCommand> {
    seq![
        DispatchCommand::UseProgram { program },
        DispatchCommand::GenBuffer,
        DispatchCommand::BindBufferBase { slot: STORAGE_SLOT, buffer },
        DispatchCommand::BufferData { size },
        DispatchCommand::DispatchCompute { x: layout.0, y: layout.1, z: layout.2 },
        DispatchCommand::StorageBarrier,
        DispatchCommand::BindBufferBase { slot: STORAGE_SLOT, buffer: NO_BUFFER },
        DispatchCommand::BindBuffer { buffer },
        DispatchCommand::MapBufferRead { size },
        DispatchCommand::UnmapBuffer,
    ]
}

/// The driver's replies to one whole run in which it names the buffer `buffer` and hands
/// back the contents `contents`.
pub open spec fn dispatch_replies(buffer: u32, contents: Seq<u8>) -> Seq<ReplyModel> {
    seq![
        ReplyModel::Done,
        ReplyModel::Handle(buffer),
        ReplyModel::Done,
        ReplyModel::Done,
        ReplyModel::Done,
        ReplyModel::Done,
        ReplyModel::Done,
        ReplyModel::Done,
        ReplyModel::Bytes(contents),
        ReplyModel::Done,
    ]
}

impl DispatchModel {
    /// The state after the replies of `replies` arrived one after another.
    pub open spec fn after(self, replies: Seq<ReplyModel>) -> DispatchModel
        decreases replies.len(),
    {
        if replies.len() == 0 {
            self
        } else {
            self.step(replies.first()).after(replies.drop_first())
        }
    }

    /// The commands that were performed while the replies of `replies` arrived: the pending
    /// one for each reply that was accepted.
    pub open spec fn issued(self, replies: Seq<ReplyModel>) -> Seq<DispatchCommand>
        decreases replies.len(),
    {
        if replies.len() == 0 {
            Seq::empty()
        } else {
            let rest = self.step(replies.first()).issued(replies.drop_first());
            if self.accepts(replies.first()) {
                seq![self.pending().unwrap()] + rest
            } else {
                rest
            }
        }
    }

    /// The whole script of commands of this run.
    pub open spec fn script(self) -> Seq<DispatchCommand> {
        dispatch_script(self.program, self.layout, self.size(), self.buffer)
    }
}

/// One reply keeps the program, the workgroup counts and the upload, keeps what holds of
/// every state, and, where it is accepted, moves the run one command further.
pub proof fn lemma_step(m: DispatchModel, reply: ReplyModel)
    ensures
        m.step(reply).program == m.program,
        m.step(reply).layout == m.layout,
        m.step(reply).upload == m.upload,
        m.wf() ==> m.step(reply).wf(),
        m.phase.has_buffer() ==> m.step(reply).buffer == m.buffer,
        m.phase.has_readback() ==> m.step(reply).readback == m.readback,
        m.accepts(reply) ==> m.step(reply).phase.position() == m.phase.position() + 1,
        !m.accepts(reply) ==> m.step(reply) == m,
        m.accepts(reply) ==> m.pending().is_some(),
{
}

/// Whatever replies arrive, the commands performed from a state on are the part of the run's
/// script between that state and the one reached.
pub proof fn lemma_history(m: DispatchModel, replies: Seq<ReplyModel>)
    ensures
        m.after(replies).program == m.program,
        m.after(replies).layout == m.layout,
        m.after(replies).upload == m.upload,
        m.wf() ==> m.after(replies).wf(),
        m.phase.has_buffer() ==> m.after(replies).buffer == m.buffer,
        m.phase.has_readback() ==> m.after(replies).readback == m.readback,
        m.phase.position() <= m.after(replies).phase.position(),
        m.after(replies).phase.has_buffer() ==> m.issued(replies) == m.after(
            replies,
        ).script().subrange(m.phase.position(), m.after(replies).phase.position()),
    decreases replies.len(),
{
    let end = m.after(replies);
    let whole = end.script();
    if replies.len() == 0 {
        assert(m.issued(replies) =~= whole.subrange(m.phase.position(), end.phase.position()));
    } else {
        let reply = replies.first();
        let then = m.step(reply);
        lemma_step(m, reply);
        lemma_history(then, replies.drop_first());
        if m.accepts(reply) && end.phase.has_buffer() {
            assert(whole[m.phase.position()] == m.pending().unwrap());
            assert(m.issued(replies) =~= whole.subrange(
                m.phase.position(),
                end.phase.position(),
            ));
        }
    }
}

/// Whatever replies arrive, a run that is finished has performed the ten commands of its
/// script in their order and nothing else: it uploaded exactly the initial contents, ran the
/// program, set the barrier, and only then mapped the buffer and read back exactly as many
/// bytes as it had uploaded.
pub proof fn lemma_finished_history(
    program: u32,
    initial: Seq<u8>,
    layout: (u32, u32, u32),
    replies: Seq<ReplyModel>,
)
    requires
        initial.len() <= usize::MAX,
        DispatchModel::start(program, initial, layout).after(replies).phase is Finished,
    ensures
        ({
            let begin = DispatchModel::start(program, initial, layout);
            let end = begin.after(replies);
            &&& begin.issued(replies) == dispatch_script(
                program,
                layout,
                initial.len() as usize,
                end.buffer,
            )
            &&& end.upload == initial
            &&& end.readback.len() == initial.len()
        }),
{
    let begin = DispatchModel::start(program, initial, layout);
    let end = begin.after(replies);
    lemma_history(begin, replies);
    assert(end.script().subrange(0, 10) =~= end.script());
}

/// Whatever replies arrive, no more than ten of them are accepted, and what is read back
/// has the size of what was uploaded.
pub proof fn lemma_dispatch_bounded(
    program: u32,
    initial: Seq<u8>,
    layout: (u32, u32, u32),
    replies: Seq<ReplyModel>,
)
    requires
        initial.len() <= usize::MAX,
    ensures
        DispatchModel::start(program, initial, layout).after(replies).wf(),
        DispatchModel::start(program, initial, layout).issued(replies).len() <= 10,
{
    lemma_progress(DispatchModel::start(program, initial, layout), replies);
}

proof fn lemma_progress(m: DispatchModel, replies: Seq<ReplyModel>)
    requires
        m.wf(),
    ensures
        m.after(replies).wf(),
        m.issued(replies).len() + m.phase.position() == m.after(replies).phase.position(),
    decreases replies.len(),
{
    if replies.len() > 0 {
        lemma_step(m, replies.first());
        lemma_progress(m.step(replies.first()), replies.drop_first());
    }
}

/// The state after the first `n` replies of `replies`, taken from the left.
spec fn prefix_state(m: DispatchModel, replies: Seq<ReplyModel>, n: nat) -> DispatchModel
    decreases n,
{
    if n == 0 {
        m
    } else {
        prefix_state(m, replies, (n - 1) as nat).step(replies[n - 1])
    }
}

/// Taking the replies one by one from the left leads where taking them all at once does.
proof fn lemma_after_each(m: DispatchModel, replies: Seq<ReplyModel>, n: nat)
    requires
        n <= replies.len(),
    ensures
        m.after(replies) == prefix_state(m, replies, n).after(replies.skip(n as int)),
    decreases n,
{
    if n == 0 {
        assert(replies.skip(0) =~= replies);
    } else {
        let k = (n - 1) as nat;
        lemma_after_each(m, replies, k);
        let tail = replies.skip(k as int);
        assert(tail.first() == replies[k as int]);
        assert(tail.drop_first() =~= replies.skip(n as int));
    }
}

/// A run whose driver hands back contents of the uploaded size finishes with exactly those
/// contents, whichever buffer the driver named.
pub proof fn lemma_reads_back(
    program: u32,
    initial: Seq<u8>,
    layout: (u32, u32, u32),
    buffer: u32,
    contents: Seq<u8>,
)
    requires
        initial.len() <= usize::MAX,
        contents.len() == initial.len(),
    ensures
        ({
            let begin = DispatchModel::start(program, initial, layout);
            let end = begin.after(dispatch_replies(buffer, contents));
            &&& end.phase is Finished
            &&& end.readback == contents
            &&& begin.issued(dispatch_replies(buffer, contents)) == dispatch_script(
                program,
                layout,
                initial.len() as usize,
                buffer,
            )
        }),
{
    let begin = DispatchModel::start(program, initial, layout);
    let replies = dispatch_replies(buffer, contents);
    reveal_with_fuel(prefix_state, 11);
    lemma_after_each(begin, replies, 10);
    assert(replies.skip(10) =~= Seq::empty());
    lemma_finished_history(program, initial, layout, replies);
}

/// Contents of another size than the upload are not taken for the result: the run stays
/// where the buffer is to be mapped.
pub proof fn lemma_wrong_size_refused(m: DispatchModel, contents: Seq<u8>)
    requires
        m.phase is Mapping,
        contents.len() != m.upload.len(),
    ensures
        !m.accepts(ReplyModel::Bytes(contents)),
        m.step(ReplyModel::Bytes(contents)) == m,
{
}

/// A run over `n` words uploads and reads back exactly `4 * n` bytes, and where the device
/// left the words `written` in the buffer, the result holds `written`.
pub proof fn lemma_returns_written_words(
    program: u32,
    initial: Seq<u32>,
    layout: (u32, u32, u32),
    buffer: u32,
    written: Seq<u32>,
)
    requires
        WORD_SIZE * initial.len() <= usize::MAX,
        written.len() == initial.len(),
    ensures
        ({
            let begin = DispatchModel::start(program, words_to_bytes(initial), layout);
            let replies = dispatch_replies(buffer, words_to_bytes(written));
            let end = begin.after(replies);
            &&& end.phase is Finished
            &&& bytes_to_words(end.readback) == written
            &&& end.readback.len() == WORD_SIZE * initial.len()
            &&& begin.issued(replies)[3] == DispatchCommand::BufferData {
                size: (WORD_SIZE * initial.len()) as usize,
            }
            &&& begin.issued(replies)[8] == DispatchCommand::MapBufferRead {
                size: (WORD_SIZE * initial.len()) as usize,
            }
        }),
{
    lemma_reads_back(program, words_to_bytes(initial), layout, buffer, words_to_bytes(written));
    crate::words::lemma_words_round_trip(written);
}

/// A program that writes its index into every word of the buffer gives a result whose word
/// `i` is `i`, whatever the workgroup counts and the initial contents are.
pub proof fn lemma_index_shader_result(
    program: u32,
    initial: Seq<u32>,
    layout: (u32, u32, u32),
    buffer: u32,
)
    requires
        WORD_SIZE * initial.len() <= usize::MAX,
        initial.len() <= u32::MAX,
    ensures
        ({
            let written = Seq::new(initial.len(), |i: int| i as u32);
            let begin = DispatchModel::start(program, words_to_bytes(initial), layout);
            let end = begin.after(dispatch_replies(buffer, words_to_bytes(written)));
            &&& end.phase is Finished
            &&& bytes_to_words(end.readback).len() == initial.len()
            &&& forall|i: int| 0 <= i < initial.len() ==> bytes_to_words(end.readback)[i] == i
        }),
{
    let written = Seq::new(initial.len(), |i: int| i as u32);
    lemma_returns_written_words(program, initial, layout, buffer, written);
}

/// A word that the program did not write reads back as it was uploaded; where the upload was
/// zero there, the result is zero there.
pub proof fn lemma_untouched_words_read_back(
    program: u32,
    initial: Seq<u32>,
    layout: (u32, u32, u32),
    buffer: u32,
    contents: Seq<u8>,
    i: int,
)
    requires
        WORD_SIZE * initial.len() <= usize::MAX,
        contents.len() == words_to_bytes(initial).len(),
        0 <= i < initial.len(),
        forall|k: int| 4 * i <= k < 4 * i + 4 ==> contents[k] == words_to_bytes(initial)[k],
    ensures
        ({
            let begin = DispatchModel::start(program, words_to_bytes(initial), layout);
            let end = begin.after(dispatch_replies(buffer, contents));
            &&& end.phase is Finished
            &&& bytes_to_words(end.readback)[i] == initial[i]
        }),
{
    lemma_reads_back(program, words_to_bytes(initial), layout, buffer, contents);
    crate::words::lemma_untouched_word_kept(initial, contents, i);
}

/// Two runs of the same program over the same initial contents and workgroup counts, to
/// which the device hands back the same contents, give the same result and perform the same
/// commands but for the name of the buffer: a run leaves nothing behind that the next one
/// would read.
pub proof fn lemma_repeatable(
    program: u32,
    initial: Seq<u8>,
    layout: (u32, u32, u32),
    first_buffer: u32,
    second_buffer: u32,
    contents: Seq<u8>,
)
    requires
        initial.len() <= usize::MAX,
        contents.len() == initial.len(),
    ensures
        ({
            let begin = DispatchModel::start(program, initial, layout);
            let first = dispatch_replies(first_buffer, contents);
            let second = dispatch_replies(second_buffer, contents);
            &&& begin.after(first).phase is Finished
            &&& begin.after(second).phase is Finished
            &&& begin.after(first).readback == begin.after(second).readback
            &&& begin.issued(first) == dispatch_script(
                program,
                layout,
                initial.len() as usize,
                first_buffer,
            )
            &&& begin.issued(second) == dispatch_script(
                program,
                layout,
                initial.len() as usize,
                second_buffer,
            )
        }),
{
    lemma_reads_back(program, initial, layout, first_buffer, contents);
    lemma_reads_back(program, initial, layout, second_buffer, contents);
}

} // verus!
