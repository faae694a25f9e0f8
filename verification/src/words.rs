use vstd::prelude::*;

verus! {

/// Bytes that one 32-bit word occupies in a storage buffer.
pub const WORD_SIZE: usize = 4;

/// The four bytes of `w`, least significant first.
pub open spec fn word_to_bytes(w: u32) -> Seq<u8> {
    seq![
        (w % 256) as u8,
        (w / 256 % 256) as u8,
        (w / 65536 % 256) as u8,
        (w / 16777216) as u8,
    ]
}

/// The word whose bytes, least significant first, are `b0`, `b1`, `b2`, `b3`.
pub open spec fn word_from_bytes(b0: u8, b1: u8, b2: u8, b3: u8) -> u32 {
    (b0 + 256 * b1 + 65536 * b2 + 16777216 * b3) as u32
}

/// The buffer contents that hold the words `ws` one after another.
pub open spec fn words_to_bytes(ws: Seq<u32>) -> Seq<u8> {
    Seq::new(4 * ws.len(), |k: int| word_to_bytes(ws[k / 4])[k % 4])
}

/// The words that the buffer contents `bs` hold; bytes after the last whole word are left out.
pub open spec fn bytes_to_words(bs: Seq<u8>) -> Seq<u32> {
    Seq::new(
        bs.len() / 4,
        |i: int| word_from_bytes(bs[4 * i], bs[4 * i + 1], bs[4 * i + 2], bs[4 * i + 3]),
    )
}

/// The sum of the words of `ws`, as a mathematical integer.
pub open spec fn sum_of(ws: Seq<u32>) -> int
    decreases ws.len(),
{
    if ws.len() == 0 {
        0
    } else {
        sum_of(ws.drop_last()) + ws.last()
    }
}

/// A word is recovered from its four bytes.
pub proof fn lemma_word_round_trip(w: u32)
    ensures
        word_to_bytes(w).len() == 4,
        word_from_bytes(
            word_to_bytes(w)[0],
            word_to_bytes(w)[1],
            word_to_bytes(w)[2],
            word_to_bytes(w)[3],
        ) == w,
{
}

/// Four bytes are recovered from the word that they make.
pub proof fn lemma_bytes_of_word(b0: u8, b1: u8, b2: u8, b3: u8)
    ensures
        word_to_bytes(word_from_bytes(b0, b1, b2, b3)) == seq![b0, b1, b2, b3],
{
    let low: int = b0 + 256 * b1;
    let mid: int = b1 + 256 * b2 + 65536 * b3;
    let high: int = b2 + 256 * b3;
    let x: int = b0 + 256 * b1 + 65536 * b2 + 16777216 * b3;
    assert(x == 256 * mid + b0);
    assert(x == 65536 * high + low);
    assert(x == 16777216 * b3 + (low + 65536 * b2));
    assert(x / 256 == mid && x % 256 == b0);
    assert(mid % 256 == b1);
    assert(x / 65536 == high);
    assert(high % 256 == b2);
    assert(x / 16777216 == b3);
    assert(word_from_bytes(b0, b1, b2, b3) == x);
    assert(word_to_bytes(word_from_bytes(b0, b1, b2, b3)) =~= seq![b0, b1, b2, b3]);
}

/// The contents for `n` words are exactly `4 * n` bytes, whatever the words are.
pub proof fn lemma_encoded_len(ws: Seq<u32>)
    ensures
        words_to_bytes(ws).len() == WORD_SIZE * ws.len(),
{
}

/// Decoding the contents that hold `ws` gives `ws` back.
pub proof fn lemma_words_round_trip(ws: Seq<u32>)
    ensures
        bytes_to_words(words_to_bytes(ws)) == ws,
{
    let bs = words_to_bytes(ws);
    assert forall|i: int| 0 <= i < ws.len() implies #[trigger] bytes_to_words(bs)[i] == ws[i] by {
        lemma_word_round_trip(ws[i]);
        assert(bs[4 * i] == word_to_bytes(ws[i])[0]);
        assert(bs[4 * i + 1] == word_to_bytes(ws[i])[1]);
        assert(bs[4 * i + 2] == word_to_bytes(ws[i])[2]);
        assert(bs[4 * i + 3] == word_to_bytes(ws[i])[3]);
    }
    assert(bytes_to_words(bs) =~= ws);
}

/// Contents made of whole words are recovered from the words that they hold.
pub proof fn lemma_bytes_round_trip(bs: Seq<u8>)
    requires
        bs.len() % 4 == 0,
    ensures
        words_to_bytes(bytes_to_words(bs)) == bs,
{
    let ws = bytes_to_words(bs);
    assert forall|k: int| 0 <= k < bs.len() implies #[trigger] words_to_bytes(ws)[k] == bs[k] by {
        let i = k / 4;
        lemma_bytes_of_word(bs[4 * i], bs[4 * i + 1], bs[4 * i + 2], bs[4 * i + 3]);
    }
    assert(words_to_bytes(ws) =~= bs);
}

/// A word of the decoded value depends on its own four bytes only: where two contents agree
/// on them, they hold the same word there.
pub proof fn lemma_word_is_local(a: Seq<u8>, b: Seq<u8>, i: int)
    requires
        0 <= i,
        4 * i + 4 <= a.len(),
        4 * i + 4 <= b.len(),
        forall|k: int| 4 * i <= k < 4 * i + 4 ==> a[k] == b[k],
    ensures
        bytes_to_words(a)[i] == bytes_to_words(b)[i],
{
}

/// A word that the device left as it was uploaded reads back as it was supplied.
pub proof fn lemma_untouched_word_kept(initial: Seq<u32>, readback: Seq<u8>, i: int)
    requires
        0 <= i < initial.len(),
        readback.len() == words_to_bytes(initial).len(),
        forall|k: int| 4 * i <= k < 4 * i + 4 ==> readback[k] == words_to_bytes(initial)[k],
    ensures
        bytes_to_words(readback)[i] == initial[i],
{
    lemma_words_round_trip(initial);
    lemma_word_is_local(readback, words_to_bytes(initial), i);
}

proof fn lemma_sum_bounds(ws: Seq<u32>, n: int)
    requires
        0 <= n <= ws.len(),
    ensures
        0 <= sum_of(ws.take(n)) <= sum_of(ws),
    decreases ws.len() - n,
{
    lemma_sum_nonnegative(ws.take(n));
    if n == ws.len() {
        assert(ws.take(n) =~= ws);
    } else {
        lemma_sum_bounds(ws, n + 1);
        assert(ws.take(n + 1).drop_last() =~= ws.take(n));
    }
}

proof fn lemma_sum_nonnegative(ws: Seq<u32>)
    ensures
        0 <= sum_of(ws),
    decreases ws.len(),
{
    if ws.len() > 0 {
        lemma_sum_nonnegative(ws.drop_last());
    }
}

/// The buffer contents for the words `ws`.
pub fn encode_words(ws: &[u32]) -> (bytes: Vec<u8>)
    ensures
        bytes@ == words_to_bytes(ws@),
{
    let mut bytes: Vec<u8> = Vec::new();
    let mut i: usize = 0;
    while i < ws.len()
        invariant
            i <= ws.len(),
            bytes@ == words_to_bytes(ws@.take(i as int)),
        decreases ws.len() - i,
    {
        let w: u32 = ws[i];
        let ghost before = bytes@;
        bytes.push((w % 256) as u8);
        bytes.push((w / 256 % 256) as u8);
        bytes.push((w / 65536 % 256) as u8);
        bytes.push((w / 16777216) as u8);
        proof {
            let shorter = ws@.take(i as int);
            let longer = ws@.take(i + 1);
            assert(bytes@.len() == 4 * longer.len());
            assert forall|k: int| 0 <= k < bytes@.len() implies bytes@[k] == words_to_bytes(
                longer,
            )[k] by {
                if k < 4 * i {
                    assert(bytes@[k] == before[k]);
                    assert(longer[k / 4] == shorter[k / 4]);
                } else {
                    assert(k / 4 == i);
                    assert(longer[k / 4] == w);
                }
            }
            assert(bytes@ =~= words_to_bytes(longer));
        }
        i = i + 1;
    }
    proof {
        assert(ws@.take(ws.len() as int) =~= ws@);
    }
    bytes
}

/// The words that the buffer contents `bytes` hold, where they are made of whole words.
pub fn decode_words(bytes: &[u8]) -> (words: Option<Vec<u32>>)
    ensures
        words.is_some() <==> bytes@.len() % 4 == 0,
        words.is_some() ==> words.unwrap()@ == bytes_to_words(bytes@),
{
    if bytes.len() % 4 != 0 {
        return None;
    }
    let count: usize = bytes.len() / 4;
    let mut words: Vec<u32> = Vec::new();
    let mut i: usize = 0;
    while i < count
        invariant
            i <= count,
            count * 4 == bytes.len(),
            words@ == bytes_to_words(bytes@).take(i as int),
        decreases count - i,
    {
        let b0: u32 = bytes[4 * i] as u32;
        let b1: u32 = bytes[4 * i + 1] as u32;
        let b2: u32 = bytes[4 * i + 2] as u32;
        let b3: u32 = bytes[4 * i + 3] as u32;
        words.push(b0 + 256 * b1 + 65536 * b2 + 16777216 * b3);
        proof {
            assert(words@ =~= bytes_to_words(bytes@).take(i + 1));
        }
        i = i + 1;
    }
    proof {
        assert(bytes_to_words(bytes@).take(count as int) =~= bytes_to_words(bytes@));
    }
    Some(words)
}

/// The sum of the words, where it fits in a word.
pub fn checked_sum(ws: &[u32]) -> (total: Option<u32>)
    ensures
        total.is_some() <==> sum_of(ws@) <= u32::MAX,
        total.is_some() ==> total.unwrap() == sum_of(ws@),
{
    let mut total: u32 = 0;
    let mut i: usize = 0;
    while i < ws.len()
        invariant
            i <= ws.len(),
            total == sum_of(ws@.take(i as int)),
        decreases ws.len() - i,
    {
        proof {
            assert(ws@.take(i + 1).drop_last() =~= ws@.take(i as int));
            lemma_sum_bounds(ws@, i + 1);
        }
        match total.checked_add(ws[i]) {
            Some(next) => {
                total = next;
            },
            None => {
                return None;
            },
        }
        i = i + 1;
    }
    proof {
        assert(ws@.take(ws.len() as int) =~= ws@);
    }
    Some(total)
}

} // verus!
