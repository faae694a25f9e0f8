use vstd::prelude::*;

verus! {

/// Size of the buffer into which the driver writes a compile or link log.
pub const LOG_CAPACITY: usize = 10240;

/// Longest log that the driver is asked for: the buffer less the terminator's place.
pub const LOG_TEXT_MAX: usize = 10239;

/// The first place at or after `from` where `buf` holds a zero byte, or the length of `buf`
/// where it holds none.
pub open spec fn nul_index(buf: Seq<u8>, from: int) -> int
    decreases buf.len() - from,
{
    if from < 0 || from >= buf.len() || buf[from] == 0 {
        from
    } else {
        nul_index(buf, from + 1)
    }
}

/// The part of a log buffer in which the text may stand.
pub open spec fn log_window(buf: Seq<u8>) -> Seq<u8> {
    if buf.len() > LOG_TEXT_MAX {
        buf.take(LOG_TEXT_MAX as int)
    } else {
        buf
    }
}

/// The diagnostic text that the log buffer `buf` holds: its bytes before the first zero byte,
/// and no more than `LOG_TEXT_MAX` of them.
pub open spec fn log_text(buf: Seq<u8>) -> Seq<u8> {
    log_window(buf).take(nul_index(log_window(buf), 0))
}

/// Whether `text` is the beginning of `buf` up to its first zero byte, its end, or the bound,
/// whichever comes first.
pub open spec fn is_log_text(text: Seq<u8>, buf: Seq<u8>) -> bool {
    &&& text.len() <= buf.len()
    &&& text.len() <= LOG_TEXT_MAX
    &&& text == buf.take(text.len() as int)
    &&& forall|j: int| 0 <= j < text.len() ==> text[j] != 0
    &&& (text.len() == buf.len() || text.len() == LOG_TEXT_MAX || buf[text.len() as int] == 0)
}

proof fn lemma_nul_index_range(buf: Seq<u8>, from: int)
    requires
        0 <= from <= buf.len(),
    ensures
        from <= nul_index(buf, from) <= buf.len(),
        forall|j: int| from <= j < nul_index(buf, from) ==> buf[j] != 0,
        nul_index(buf, from) == buf.len() || buf[nul_index(buf, from)] == 0,
    decreases buf.len() - from,
{
    if from < buf.len() && buf[from] != 0 {
        lemma_nul_index_range(buf, from + 1);
    }
}

proof fn lemma_nul_index_found(buf: Seq<u8>, from: int, at: int)
    requires
        0 <= from <= at <= buf.len(),
        forall|j: int| from <= j < at ==> buf[j] != 0,
        at == buf.len() || buf[at] == 0,
    ensures
        nul_index(buf, from) == at,
    decreases at - from,
{
    if from < at {
        lemma_nul_index_found(buf, from + 1, at);
    }
}

/// The text of a log buffer is the beginning of the buffer, holds no zero byte, is no longer
/// than the bound, and stops only at a zero byte, at the buffer's end or at the bound.
pub proof fn lemma_log_text_is_log_text(buf: Seq<u8>)
    ensures
        is_log_text(log_text(buf), buf),
{
    let window = log_window(buf);
    lemma_nul_index_range(window, 0);
    assert(log_text(buf) =~= buf.take(log_text(buf).len() as int));
}

/// Only one text is the text of a given log buffer.
pub proof fn lemma_log_text_unique(text: Seq<u8>, buf: Seq<u8>)
    requires
        is_log_text(text, buf),
    ensures
        text == log_text(buf),
{
    let window = log_window(buf);
    assert forall|j: int| 0 <= j < text.len() implies window[j] != 0 by {
        assert(window[j] == buf.take(text.len() as int)[j]);
        assert(text[j] != 0);
    }
    lemma_nul_index_found(window, 0, text.len() as int);
    assert(text =~= log_text(buf));
}

/// A log buffer that begins with a byte other than zero holds a text that is not empty.
pub proof fn lemma_log_text_nonempty(buf: Seq<u8>)
    requires
        buf.len() > 0,
        buf[0] != 0,
    ensures
        log_text(buf).len() > 0,
{
    lemma_nul_index_range(log_window(buf), 1);
}

/// The diagnostic text that the log buffer `buf` holds.
pub fn diagnostic_text(buf: &[u8]) -> (text: Vec<u8>)
    ensures
        text@ == log_text(buf@),
{
    let limit: usize = if buf.len() > LOG_TEXT_MAX {
        LOG_TEXT_MAX
    } else {
        buf.len()
    };
    let mut text: Vec<u8> = Vec::new();
    let mut i: usize = 0;
    while i < limit && buf[i] != 0
        invariant
            i <= limit <= buf.len(),
            limit <= LOG_TEXT_MAX,
            limit == buf.len() || limit == LOG_TEXT_MAX,
            text@ == buf@.take(i as int),
            forall|j: int| 0 <= j < i ==> buf@[j] != 0,
        decreases limit - i,
    {
        text.push(buf[i]);
        proof {
            assert(text@ =~= buf@.take(i + 1));
        }
        i = i + 1;
    }
    proof {
        lemma_log_text_unique(text@, buf@);
    }
    text
}

} // verus!
