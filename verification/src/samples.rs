//! The Cu8 sample format: each sample is an I byte followed by a Q byte.

use vstd::prelude::*;

use crate::protocol::DEFAULT_BUF_SIZE;
use crate::reader::{ChunkView, ReadOutcome};

verus! {

/// The samples in a chunk of bytes, as pairs of I and Q; half a sample at the end is left out.
pub open spec fn samples_in(chunk: Seq<u8>) -> Seq<(u8, u8)> {
    Seq::new(chunk.len() / 2, |i: int| (chunk[2 * i], chunk[2 * i + 1]))
}

/// The samples in a chunk of bytes, as pairs of I and Q
///
/// Half a sample at the end is left out.
pub fn iq_pairs(chunk: &[u8]) -> (samples: Vec<(u8, u8)>)
    ensures
        samples@ == samples_in(chunk@),
        samples@.len() == chunk@.len() / 2,
        forall|i: int|
            0 <= i < chunk@.len() / 2 ==> (#[trigger] samples@[i]).0 == chunk@[2 * i]
                && samples@[i].1 == chunk@[2 * i + 1],
{
    let length: usize = chunk.len();
    let count: usize = length / 2;
    let mut samples: Vec<(u8, u8)> = Vec::with_capacity(count);
    let mut i: usize = 0;
    while i < count
        invariant
            i <= count,
            length == chunk@.len(),
            count == length / 2,
            samples@ == samples_in(chunk@).take(i as int),
        decreases count - i,
    {
        samples.push((chunk[2 * i], chunk[2 * i + 1]));
        i = i + 1;
        assert(samples@ =~= samples_in(chunk@).take(i as int));
    }
    assert(samples_in(chunk@).take(count as int) =~= samples_in(chunk@));
    samples
}

/// Where the bytes of the stream are cut between two samples, the chunks hold the same samples
/// as the uncut bytes.
pub proof fn cuts_between_samples_do_not_show(front: Seq<u8>, back: Seq<u8>)
    requires
        front.len() % 2 == 0,
    ensures
        samples_in(front + back) == samples_in(front) + samples_in(back),
{
    assert(samples_in(front + back) =~= samples_in(front) + samples_in(back));
}

/// A read into the buffer gives at most half as many samples as the buffer has bytes, and exactly
/// that many where it fills the buffer.
pub proof fn samples_in_a_read<E>(buf: Seq<u8>, outcome: ReadOutcome<E>)
    requires
        buf.len() == DEFAULT_BUF_SIZE,
        outcome matches ReadOutcome::Received(n) ==> n <= DEFAULT_BUF_SIZE,
    ensures
        crate::reader::chunk_of(buf, outcome) matches ChunkView::Bytes(chunk) ==> {
            &&& samples_in(chunk).len() <= DEFAULT_BUF_SIZE / 2
            &&& outcome == ReadOutcome::<E>::Received(DEFAULT_BUF_SIZE) ==> samples_in(chunk).len()
                == DEFAULT_BUF_SIZE / 2
        },
{
}

/// The bytes of samples that are written out one after the other, I before Q.
pub open spec fn written_out(samples: Seq<(u8, u8)>) -> Seq<u8> {
    Seq::new(
        2 * samples.len(),
        |j: int|
            if j % 2 == 0 {
                samples[j / 2].0
            } else {
                samples[j / 2].1
            },
    )
}

/// The samples of a chunk, written out one after the other, give back the chunk, but for half a
/// sample at its end: the I of each sample is the byte at its even place, the Q the one behind it.
pub proof fn samples_give_back_the_chunk(chunk: Seq<u8>)
    ensures
        written_out(samples_in(chunk)) == chunk.take(chunk.len() - chunk.len() % 2),
        forall|j: int|
            0 <= j < chunk.len() - chunk.len() % 2 ==> #[trigger] chunk[j] == if j % 2 == 0 {
                samples_in(chunk)[j / 2].0
            } else {
                samples_in(chunk)[j / 2].1
            },
{
    assert forall|j: int| 0 <= j < chunk.len() - chunk.len() % 2 implies #[trigger] chunk[j]
        == if j % 2 == 0 {
        samples_in(chunk)[j / 2].0
    } else {
        samples_in(chunk)[j / 2].1
    } by {
        assert(2 * (j / 2) == j - j % 2);
    }
    assert(written_out(samples_in(chunk)) =~= chunk.take(chunk.len() - chunk.len() % 2));
}

/// Any samples can be read back from the bytes that they are written out to.
pub proof fn written_out_samples_are_read_back(samples: Seq<(u8, u8)>)
    ensures
        samples_in(written_out(samples)) == samples,
{
    assert(samples_in(written_out(samples)) =~= samples);
}

} // verus!
