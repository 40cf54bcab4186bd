//! The frame buffer: an append-only sequence of decoded board snapshots.
//! One producer appends, any number of readers index it by `len`-checked
//! cursor; an index once assigned stays valid for the life of the buffer.

use vstd::prelude::*;
use crate::board::Board;

verus! {

/// An ordered, append-only sequence of boards. It only ever grows, so every
/// index below `len()` stays stable.
#[derive(Debug)]
pub struct FrameBuffer {
    frames: Vec<Board>,
}

impl View for FrameBuffer {
    type V = Seq<Board>;

    closed spec fn view(&self) -> Seq<Board> {
        self.frames@
    }
}

impl FrameBuffer {
    /// An empty buffer.
    pub fn new() -> (r: FrameBuffer)
        ensures
            r@ == Seq::<Board>::empty(),
    {
        FrameBuffer { frames: Vec::new() }
    }

    /// Append one fully-formed board; every earlier frame keeps its index.
    pub fn append(&mut self, b: Board)
        ensures
            final (self)@ == old(self)@.push(b),
    {
        self.frames.push(b);
    }

    /// How many frames have been appended so far.
    pub fn len(&self) -> (n: usize)
        ensures
            n == self@.len(),
    {
        self.frames.len()
    }

    /// The frame at `i`; the caller bounds `i` by `len()` first.
    pub fn get(&self, i: usize) -> (b: &Board)
        requires
            i < self@.len(),
        ensures
            b == self@[i as int],
    {
        &self.frames[i]
    }
}

/// Appending never disturbs earlier frames, and the last frame of the grown
/// buffer is exactly the board just appended: readers can never observe a
/// partially-formed snapshot through `get`.
pub proof fn lemma_append_preserves_frames(frames: Seq<Board>, b: Board)
    ensures
        frames.push(b).len() == frames.len() + 1,
        frames.push(b)[frames.len() as int] == b,
        forall|i: int| 0 <= i < frames.len() ==> frames.push(b)[i] == frames[i],
{
}

} // verus!
