//! Wire format of a command frame: ASCII case normalization and the
//! big-endian reading of four bytes as a 32-bit command code.

use vstd::prelude::*;

verus! {

/// ASCII uppercase of one byte: lowercase letters are shifted, every other
/// byte is left as it is.
pub open spec fn spec_upper(b: u8) -> u8 {
    if 0x61 <= b <= 0x7a {
        (b - 0x20) as u8
    } else {
        b
    }
}

/// A byte sequence with every byte ASCII-uppercased.
pub open spec fn spec_normalized(s: Seq<u8>) -> Seq<u8> {
    s.map(|_i: int, b: u8| spec_upper(b))
}

/// The big-endian 32-bit value of a four-byte frame.
pub open spec fn spec_word_be(s: Seq<u8>) -> u32
    recommends
        s.len() == 4,
{
    ((s[0] as int) * 0x1000000 + (s[1] as int) * 0x10000 + (s[2] as int) * 0x100 + (s[3] as int)) as u32
}

/// ASCII-uppercases one byte.
pub fn upper_byte(b: u8) -> (r: u8)
    ensures
        r == spec_upper(b),
{
    if 0x61 <= b && b <= 0x7a {
        b - 0x20
    } else {
        b
    }
}

/// ASCII-uppercases a whole chunk, leaving non-letter bytes unchanged.
pub fn normalize_chunk(chunk: &Vec<u8>) -> (r: Vec<u8>)
    ensures
        r@ == spec_normalized(chunk@),
{
    let mut out: Vec<u8> = Vec::new();
    let mut i: usize = 0;
    while i < chunk.len()
        invariant
            i <= chunk@.len(),
            out@ == spec_normalized(chunk@).take(i as int),
        decreases chunk@.len() - i,
    {
        out.push(upper_byte(chunk[i]));
        i = i + 1;
        proof {
            assert(out@ =~= spec_normalized(chunk@).take(i as int));
        }
    }
    proof {
        assert(out@ =~= spec_normalized(chunk@));
    }
    out
}

/// Reads a four-byte frame as a big-endian 32-bit command code.
pub fn word_from_be(frame: &Vec<u8>) -> (r: u32)
    requires
        frame@.len() == 4,
    ensures
        r == spec_word_be(frame@),
{
    (frame[0] as u32) * 0x1000000 + (frame[1] as u32) * 0x10000 + (frame[2] as u32) * 0x100
        + (frame[3] as u32)
}

} // verus!
