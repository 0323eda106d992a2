//! The gateway's per-chunk decision: what one transport read leads to.
//!
//! For every chunk the gateway uppercases the bytes and echoes them back.
//! Only a chunk of exactly four bytes is a command frame: its normalized
//! bytes are read big-endian as the code to dispatch. A chunk of any other
//! length triggers no dispatch and hence no actuation; its bytes are still
//! echoed.

use vstd::prelude::*;
use crate::codec::{normalize_chunk, spec_normalized, spec_word_be, word_from_be};

verus! {

/// The code dispatched for a chunk: the big-endian value of its normalized
/// bytes when the chunk is exactly four bytes long, nothing otherwise.
pub open spec fn spec_dispatch_of(chunk: Seq<u8>) -> Option<u32> {
    if chunk.len() == 4 {
        Some(spec_word_be(spec_normalized(chunk)))
    } else {
        None
    }
}

/// What the gateway does with one transport chunk: echo these bytes, and
/// dispatch this code first if there is one.
pub struct ChunkPlan {
    pub echo: Vec<u8>,
    pub dispatch: Option<u32>,
}

/// Decides one poll cycle's work from the chunk the transport yielded:
/// the echo is the chunk uppercased, and a code is dispatched exactly when
/// the chunk is four bytes long.
pub fn plan_chunk(chunk: &Vec<u8>) -> (r: ChunkPlan)
    ensures
        r.echo@ == spec_normalized(chunk@),
        r.dispatch == spec_dispatch_of(chunk@),
        r.dispatch is Some <==> chunk@.len() == 4,
{
    let echo = normalize_chunk(chunk);
    let dispatch = if echo.len() == 4 {
        Some(word_from_be(&echo))
    } else {
        None
    };
    ChunkPlan { echo, dispatch }
}

/// Advances the echo cursor after a partial transport write: what is still
/// to be written once the first `written` bytes went out.
pub fn echo_advance(remaining: &Vec<u8>, written: usize) -> (r: Vec<u8>)
    requires
        written <= remaining@.len(),
    ensures
        r@ == remaining@.skip(written as int),
{
    let mut out: Vec<u8> = Vec::new();
    let mut i: usize = written;
    while i < remaining.len()
        invariant
            written <= i <= remaining@.len(),
            out@ == remaining@.subrange(written as int, i as int),
        decreases remaining@.len() - i,
    {
        out.push(remaining[i]);
        i = i + 1;
        proof {
            assert(out@ =~= remaining@.subrange(written as int, i as int));
        }
    }
    proof {
        assert(out@ =~= remaining@.skip(written as int));
    }
    out
}

} // verus!
