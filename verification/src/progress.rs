//! Counting the bytes of a transfer, and handing the bytes of an upload part
//! to the transport in small pieces so that the count follows the wire.

use vstd::prelude::*;
use vstd::slice::{slice_subrange, slice_to_vec};

verus! {

/// Number of bytes that the transport takes from a part at a time.
pub const STREAM_CHUNK_SIZE: usize = 8192;

/// The number of bytes transferred so far, for the eye only: no decision of
/// an engine rests on it. A download only ever adds to it. An upload takes
/// back what a failed attempt had added.
#[derive(Clone, Copy, Debug, PartialEq, Eq, Structural)]
pub struct ProgressCounter {
    /// Bytes counted so far.
    pub position: u64,
    /// Bytes of the whole transfer.
    pub length: u64,
}

impl ProgressCounter {
    /// A counter at zero for a transfer of `length` bytes.
    pub fn new(length: u64) -> (counter: ProgressCounter)
        ensures
            counter.position == 0,
            counter.length == length,
    {
        ProgressCounter { position: 0, length }
    }

    /// Puts the counter at `position`: where a resumed download begins.
    pub fn set_position(&mut self, position: u64)
        ensures
            final(self).position == position,
            final(self).length == old(self).length,
    {
        self.position = position;
    }

    /// Counts `delta` more bytes. The count never goes down by this, and
    /// stops at the largest number that it can hold.
    pub fn inc(&mut self, delta: u64)
        ensures
            final(self).position == if old(self).position + delta <= u64::MAX {
                (old(self).position + delta) as u64
            } else {
                u64::MAX
            },
            final(self).position >= old(self).position,
            final(self).length == old(self).length,
    {
        self.position = self.position.saturating_add(delta);
    }

    /// Takes back the `delta` bytes that a failed attempt had counted. The
    /// count never goes up by this, and stops at zero.
    pub fn rollback(&mut self, delta: u64)
        ensures
            final(self).position == if old(self).position >= delta {
                (old(self).position - delta) as u64
            } else {
                0
            },
            final(self).position <= old(self).position,
            final(self).length == old(self).length,
    {
        self.position = self.position.saturating_sub(delta);
    }

    /// Whether every byte of the transfer is counted.
    pub fn is_complete(&self) -> (done: bool)
        ensures
            done == (self.position >= self.length),
    {
        self.position >= self.length
    }
}

/// The bytes of one upload part, handed out front to back in pieces of a
/// fixed size, the last piece possibly shorter.
pub struct ProgressStream {
    data: Vec<u8>,
    position: usize,
    chunk_size: usize,
}

impl ProgressStream {
    /// The bytes of the part.
    pub closed spec fn data(&self) -> Seq<u8> {
        self.data@
    }

    /// Number of bytes handed out so far.
    pub closed spec fn position(&self) -> int {
        self.position as int
    }

    /// Length of every piece but possibly the last.
    pub closed spec fn chunk_size(&self) -> int {
        self.chunk_size as int
    }

    /// No more is handed out than there is, and a piece is never empty.
    pub closed spec fn wf(&self) -> bool {
        &&& self.position <= self.data@.len()
        &&& self.chunk_size > 0
    }

    /// Where the piece that begins at `position` ends.
    pub open spec fn spec_piece_end(position: int, chunk_size: int, len: int) -> int {
        if position + chunk_size < len {
            position + chunk_size
        } else {
            len
        }
    }

    /// A stream over `data` in pieces of 8192 bytes.
    pub fn new(data: Vec<u8>) -> (stream: ProgressStream)
        ensures
            stream.wf(),
            stream.data() == data@,
            stream.position() == 0,
            stream.chunk_size() == STREAM_CHUNK_SIZE,
    {
        ProgressStream { data, position: 0, chunk_size: STREAM_CHUNK_SIZE }
    }

    /// A stream over `data` in pieces of `chunk_size` bytes; none for a piece
    /// size of zero.
    pub fn with_chunk_size(data: Vec<u8>, chunk_size: usize) -> (r: Option<ProgressStream>)
        ensures
            r is Some <==> chunk_size > 0,
            r matches Some(stream) ==> {
                &&& stream.wf()
                &&& stream.data() == data@
                &&& stream.position() == 0
                &&& stream.chunk_size() == chunk_size
            },
    {
        if chunk_size == 0 {
            None
        } else {
            Some(ProgressStream { data, position: 0, chunk_size })
        }
    }

    /// Number of bytes not handed out yet.
    pub fn remaining(&self) -> (n: usize)
        requires
            self.wf(),
        ensures
            n == self.data().len() - self.position(),
    {
        self.data.len() - self.position
    }

    /// The next piece: the bytes from the position to the end of the piece,
    /// after which the position stands at that end. Nothing when every byte
    /// has been handed out. The number of bytes in the piece is what the
    /// caller adds to the progress shown.
    pub fn next_chunk(&mut self) -> (piece: Option<Vec<u8>>)
        requires
            old(self).wf(),
        ensures
            final(self).wf(),
            final(self).data() == old(self).data(),
            final(self).chunk_size() == old(self).chunk_size(),
            old(self).position() >= old(self).data().len() ==> {
                &&& piece is None
                &&& final(self).position() == old(self).position()
            },
            old(self).position() < old(self).data().len() ==> {
                &&& piece matches Some(bytes)
                &&& final(self).position() == Self::spec_piece_end(
                    old(self).position(),
                    old(self).chunk_size(),
                    old(self).data().len() as int,
                )
                &&& bytes@ == old(self).data().subrange(
                    old(self).position(),
                    final(self).position(),
                )
                &&& bytes@.len() > 0
            },
    {
        let len = self.data.len();
        if self.position >= len {
            return None;
        }
        let left = len - self.position;
        let end = if self.chunk_size < left {
            self.position + self.chunk_size
        } else {
            len
        };
        let piece = slice_to_vec(slice_subrange(self.data.as_slice(), self.position, end));
        self.position = end;
        Some(piece)
    }
}

/// The pieces that a stream hands out from `position` on, joined in order.
pub open spec fn spec_rest_of_stream(data: Seq<u8>, position: int, chunk_size: int) -> Seq<u8>
    decreases data.len() - position,
{
    if position >= data.len() || position < 0 || chunk_size <= 0 {
        Seq::empty()
    } else {
        let end = ProgressStream::spec_piece_end(position, chunk_size, data.len() as int);
        data.subrange(position, end) + spec_rest_of_stream(data, end, chunk_size)
    }
}

/// The pieces of a stream, joined in the order in which they are handed out,
/// are the bytes of the part: nothing is lost, repeated or reordered.
pub proof fn lemma_stream_hands_out_the_data(data: Seq<u8>, position: int, chunk_size: int)
    requires
        0 <= position <= data.len(),
        chunk_size > 0,
    ensures
        spec_rest_of_stream(data, position, chunk_size) == data.subrange(
            position,
            data.len() as int,
        ),
    decreases data.len() - position,
{
    if position < data.len() {
        let end = ProgressStream::spec_piece_end(position, chunk_size, data.len() as int);
        lemma_stream_hands_out_the_data(data, end, chunk_size);
        assert(data.subrange(position, end) + data.subrange(end, data.len() as int)
            =~= data.subrange(position, data.len() as int));
    } else {
        assert(data.subrange(position, data.len() as int) =~= Seq::<u8>::empty());
    }
}

} // verus!
