use vstd::prelude::*;

verus! {

/// The terminator that the shader compiler expects after the last byte of a source text.
pub const TERMINATOR: u8 = 0;

/// A private copy of `source` with the terminator appended.
pub fn null_terminated(source: &[u8]) -> (text: Vec<u8>)
    ensures
        text@ == source@.push(TERMINATOR),
{
    let mut text: Vec<u8> = Vec::new();
    let mut i: usize = 0;
    while i < source.len()
        invariant
            i <= source.len(),
            text@ == source@.take(i as int),
        decreases source.len() - i,
    {
        text.push(source[i]);
        proof {
            assert(source@.take(i + 1) =~= source@.take(i as int).push(source@[i as int]));
        }
        i = i + 1;
    }
    proof {
        assert(source@.take(source.len() as int) =~= source@);
    }
    text.push(TERMINATOR);
    text
}

} // verus!
