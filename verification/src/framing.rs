//! Cutting a stream of samples into frames of a fixed size.
//!
//! Samples arrive in pieces of any length. They are handed on in whole
//! frames, in the order in which they came; what does not fill a frame waits
//! for more.

use vstd::prelude::*;
use vstd::arithmetic::mul::{
    lemma_mul_inequality, lemma_mul_is_distributive_add_other_way, lemma_mul_nonnegative,
};
use crate::arith::{lemma_div_bounds, lemma_div_from_bounds};

verus! {

/// Number of whole frames of `size` samples in `stream`.
pub open spec fn frame_count<T>(stream: Seq<T>, size: nat) -> nat
    recommends
        size > 0,
{
    stream.len() / size
}

/// The `i`-th whole frame of `stream`.
pub open spec fn frame_at<T>(stream: Seq<T>, size: nat, i: int) -> Seq<T>
    recommends
        size > 0,
{
    stream.subrange(i * size, (i + 1) * size)
}

/// What follows the last whole frame of `stream`.
pub open spec fn leftover<T>(stream: Seq<T>, size: nat) -> Seq<T>
    recommends
        size > 0,
{
    stream.skip((frame_count(stream, size) * size) as int)
}

/// The first `upto` whole frames of `stream`, one after the other.
pub open spec fn rejoined<T>(stream: Seq<T>, size: nat, upto: nat) -> Seq<T>
    recommends
        size > 0,
        upto <= frame_count(stream, size),
    decreases upto,
{
    if upto == 0 {
        Seq::empty()
    } else {
        rejoined(stream, size, (upto - 1) as nat) + frame_at(stream, size, upto - 1)
    }
}

proof fn lemma_frame_bounds(len: nat, size: nat, i: int)
    requires
        size > 0,
        0 <= i < len / size,
    ensures
        0 <= i * size,
        (i + 1) * size <= len,
        (i + 1) * size == i * size + size,
{
    lemma_div_bounds(len, size);
    lemma_mul_is_distributive_add_other_way(size as int, i, 1);
    lemma_mul_nonnegative(i, size as int);
    lemma_mul_inequality(i + 1, (len / size) as int, size as int);
}

/// Every whole frame has exactly `size` samples, and fewer than `size`
/// samples are left over.
pub proof fn lemma_frame_sizes<T>(stream: Seq<T>, size: nat)
    requires
        size > 0,
    ensures
        forall|i: int|
            0 <= i < frame_count(stream, size) ==> (#[trigger] frame_at(stream, size, i)).len()
                == size,
        leftover(stream, size).len() < size,
        frame_count(stream, size) * size + leftover(stream, size).len() == stream.len(),
{
    assert forall|i: int| 0 <= i < frame_count(stream, size) implies (#[trigger] frame_at(
        stream,
        size,
        i,
    )).len() == size by {
        lemma_frame_bounds(stream.len(), size, i);
    }
    lemma_div_bounds(stream.len(), size);
}

/// A stream of exactly `n` frames' worth of samples splits into `n` whole
/// frames and leaves nothing over.
pub proof fn lemma_whole_frames<T>(stream: Seq<T>, size: nat, n: nat)
    requires
        size > 0,
        stream.len() == n * size,
    ensures
        frame_count(stream, size) == n,
        leftover(stream, size).len() == 0,
        forall|i: int| 0 <= i < n ==> (#[trigger] frame_at(stream, size, i)).len() == size,
{
    lemma_div_from_bounds(stream.len(), size, n);
    lemma_frame_sizes(stream, size);
}

/// Framing loses and reorders nothing: the whole frames in order, followed
/// by the leftover, are the stream.
pub proof fn lemma_frames_rejoin<T>(stream: Seq<T>, size: nat)
    requires
        size > 0,
    ensures
        rejoined(stream, size, frame_count(stream, size)) + leftover(stream, size) == stream,
{
    let n = frame_count(stream, size);
    lemma_rejoined_prefix(stream, size, n);
    lemma_frame_sizes(stream, size);
}

proof fn lemma_rejoined_prefix<T>(stream: Seq<T>, size: nat, upto: nat)
    requires
        size > 0,
        upto <= frame_count(stream, size),
    ensures
        upto * size <= stream.len(),
        rejoined(stream, size, upto) == stream.take((upto * size) as int),
    decreases upto,
{
    if upto > 0 {
        lemma_rejoined_prefix(stream, size, (upto - 1) as nat);
        lemma_frame_bounds(stream.len(), size, upto - 1);
    }
}

/// Feeding samples in two pieces cuts the same frames as feeding them at
/// once: the second piece is framed together with what the first left over.
pub proof fn lemma_framing_is_incremental<T>(first: Seq<T>, second: Seq<T>, size: nat)
    requires
        size > 0,
    ensures
        frame_count(first + second, size) == frame_count(first, size) + frame_count(
            leftover(first, size) + second,
            size,
        ),
        leftover(first + second, size) == leftover(leftover(first, size) + second, size),
        forall|i: int|
            0 <= i < frame_count(first, size) ==> #[trigger] frame_at(first + second, size, i)
                == frame_at(first, size, i),
        forall|i: int|
            0 <= i < frame_count(leftover(first, size) + second, size) ==> frame_at(
                first + second,
                size,
                frame_count(first, size) + i,
            ) == #[trigger] frame_at(leftover(first, size) + second, size, i),
{
    let all = first + second;
    let n1 = frame_count(first, size);
    let rest = leftover(first, size);
    let tail = rest + second;
    let n2 = frame_count(tail, size);
    lemma_frame_sizes(first, size);
    lemma_frame_sizes(tail, size);
    let base = n1 * size;
    assert((n1 + n2) * size == base + n2 * size) by (nonlinear_arith)
        requires
            base == n1 * size,
    ;
    lemma_div_from_bounds(all.len(), size, n1 + n2);
    assert forall|i: int| 0 <= i < n1 implies #[trigger] frame_at(all, size, i) == frame_at(
        first,
        size,
        i,
    ) by {
        lemma_frame_bounds(first.len(), size, i);
    }
    assert forall|i: int| 0 <= i < n2 implies frame_at(all, size, n1 + i) == #[trigger] frame_at(
        tail,
        size,
        i,
    ) by {
        lemma_frame_bounds(tail.len(), size, i);
        assert((n1 + i) * size == base + i * size) by (nonlinear_arith)
            requires
                base == n1 * size,
        ;
        assert((n1 + i + 1) * size == base + (i + 1) * size) by (nonlinear_arith)
            requires
                base == n1 * size,
        ;
    }
}

/// The pieces of `pieces`, one after the other.
pub open spec fn joined<T>(pieces: Seq<Seq<T>>) -> Seq<T>
    decreases pieces.len(),
{
    if pieces.len() == 0 {
        Seq::empty()
    } else {
        joined(pieces.drop_last()) + pieces.last()
    }
}

/// What waits in a buffer that was empty and then took in `pieces`, one
/// call for each.
pub open spec fn pending_after<T>(pieces: Seq<Seq<T>>, size: nat) -> Seq<T>
    recommends
        size > 0,
    decreases pieces.len(),
{
    if pieces.len() == 0 {
        Seq::empty()
    } else {
        leftover(pending_after(pieces.drop_last(), size) + pieces.last(), size)
    }
}

/// Number of frames that a buffer handed out which was empty and then took
/// in `pieces`, one call for each.
pub open spec fn frames_after<T>(pieces: Seq<Seq<T>>, size: nat) -> nat
    recommends
        size > 0,
    decreases pieces.len(),
{
    if pieces.len() == 0 {
        0
    } else {
        frames_after(pieces.drop_last(), size) + frame_count(
            pending_after(pieces.drop_last(), size) + pieces.last(),
            size,
        )
    }
}

/// However a stream is cut into pieces, a buffer hands out as many frames
/// as the whole stream has, and keeps what the whole stream leaves over.
pub proof fn lemma_pieces_do_not_matter<T>(pieces: Seq<Seq<T>>, size: nat)
    requires
        size > 0,
    ensures
        frames_after(pieces, size) == frame_count(joined(pieces), size),
        pending_after(pieces, size) == leftover(joined(pieces), size),
    decreases pieces.len(),
{
    if pieces.len() == 0 {
        lemma_div_from_bounds(0, size, 0);
    } else {
        let before = pieces.drop_last();
        lemma_pieces_do_not_matter(before, size);
        lemma_framing_is_incremental(joined(before), pieces.last(), size);
    }
}

/// Pieces that add up to exactly `n` frames' worth of samples bring out
/// exactly `n` frames and leave nothing waiting, however they are cut.
pub proof fn lemma_whole_frames_in_pieces<T>(pieces: Seq<Seq<T>>, size: nat, n: nat)
    requires
        size > 0,
        joined(pieces).len() == n * size,
    ensures
        frames_after(pieces, size) == n,
        pending_after(pieces, size).len() == 0,
{
    lemma_pieces_do_not_matter(pieces, size);
    lemma_whole_frames(joined(pieces), size, n);
}

/// `samples` followed by as many `pad` as it takes to fill `size` places.
pub open spec fn padded<T>(samples: Seq<T>, size: nat, pad: T) -> Seq<T>
    recommends
        samples.len() <= size,
{
    samples + Seq::new((size - samples.len()) as nat, |i: int| pad)
}

/// A frame whose first `filled` samples are real and whose rest is padding.
pub struct PaddedFrame<T> {
    pub samples: Vec<T>,
    pub filled: usize,
}

/// The first `filled` samples of `output`: what a processed padded frame
/// holds for the real samples that went in.
pub fn unpadded<T: Copy>(output: &[T], filled: usize) -> (kept: Vec<T>)
    requires
        filled <= output@.len(),
    ensures
        kept@ == output@.take(filled as int),
{
    let mut kept: Vec<T> = Vec::new();
    let mut i: usize = 0;
    while i < filled
        invariant
            i <= filled <= output@.len(),
            kept@ == output@.take(i as int),
        decreases filled - i,
    {
        kept.push(output[i]);
        i += 1;
    }
    kept
}

/// Collects samples until a frame is full.
pub struct FrameBuffer<T> {
    samples: Vec<T>,
    frame_size: usize,
}

impl<T: Copy> FrameBuffer<T> {
    /// The samples that wait for their frame to fill up, oldest first.
    pub closed spec fn pending(&self) -> Seq<T> {
        self.samples@
    }

    /// Number of samples in one frame.
    pub closed spec fn frame_len(&self) -> nat {
        self.frame_size as nat
    }

    /// Frames are not empty, and a full frame never waits.
    pub open spec fn wf(&self) -> bool {
        0 < self.frame_len() && self.pending().len() < self.frame_len()
    }

    /// An empty buffer for frames of `frame_size` samples.
    pub fn new(frame_size: usize) -> (b: Self)
        requires
            frame_size > 0,
        ensures
            b.wf(),
            b.frame_len() == frame_size,
            b.pending().len() == 0,
    {
        FrameBuffer { samples: Vec::new(), frame_size }
    }

    /// Number of samples in one frame.
    pub fn frame_size(&self) -> (n: usize)
        ensures
            n == self.frame_len(),
    {
        self.frame_size
    }

    /// Number of samples that wait for their frame to fill up.
    pub fn buffered(&self) -> (n: usize)
        ensures
            n == self.pending().len(),
    {
        self.samples.len()
    }

    /// Takes in samples and hands back every frame that they complete,
    /// oldest first. The rest waits for the next call.
    pub fn push(&mut self, input: &[T]) -> (frames: Vec<Vec<T>>)
        requires
            old(self).wf(),
        ensures
            final(self).wf(),
            final(self).frame_len() == old(self).frame_len(),
            frames@.len() == frame_count(old(self).pending() + input@, old(self).frame_len()),
            forall|i: int|
                0 <= i < frames@.len() ==> (#[trigger] frames@[i])@ == frame_at(
                    old(self).pending() + input@,
                    old(self).frame_len(),
                    i,
                ),
            final(self).pending() == leftover(old(self).pending() + input@, old(self).frame_len()),
    {
        let size = self.frame_size;
        let ghost stream = self.samples@ + input@;
        let mut frames: Vec<Vec<T>> = Vec::new();
        let mut current: Vec<T> = Vec::new();
        current.append(&mut self.samples);
        let ghost waiting = current@.len();
        assert(0 * size == 0) by (nonlinear_arith);
        let mut j: usize = 0;
        while j < input.len()
            invariant
                size > 0,
                stream == old(self).samples@ + input@,
                waiting == old(self).samples@.len(),
                j <= input.len(),
                current@.len() < size,
                frames@.len() * size + current@.len() == waiting + j,
                current@ == stream.subrange(frames@.len() * size, waiting + j),
                forall|i: int|
                    0 <= i < frames@.len() ==> (#[trigger] frames@[i])@ == frame_at(
                        stream,
                        size as nat,
                        i,
                    ),
            decreases input.len() - j,
        {
            let ghost k = frames@.len();
            current.push(input[j]);
            j += 1;
            if current.len() == size {
                proof {
                    lemma_mul_is_distributive_add_other_way(size as int, k as int, 1);
                }
                let mut full: Vec<T> = Vec::new();
                full.append(&mut current);
                frames.push(full);
            }
        }
        proof {
            lemma_div_from_bounds(stream.len(), size as nat, frames@.len());
        }
        self.samples = current;
        frames
    }

    /// Empties the buffer. If samples were waiting, they come back as one
    /// frame, filled up with `pad`, together with their number.
    pub fn flush(&mut self, pad: T) -> (frame: Option<PaddedFrame<T>>)
        requires
            old(self).wf(),
        ensures
            final(self).wf(),
            final(self).frame_len() == old(self).frame_len(),
            final(self).pending().len() == 0,
            old(self).pending().len() == 0 ==> frame is None,
            old(self).pending().len() > 0 ==> {
                &&& frame matches Some(f)
                &&& f.filled == old(self).pending().len()
                &&& f.samples@ == padded(old(self).pending(), old(self).frame_len(), pad)
                &&& f.samples@.len() == old(self).frame_len()
            },
    {
        if self.samples.len() == 0 {
            return None;
        }
        let filled = self.samples.len();
        let mut samples: Vec<T> = Vec::new();
        samples.append(&mut self.samples);
        let ghost genuine = samples@;
        while samples.len() < self.frame_size
            invariant
                genuine.len() <= samples@.len() <= self.frame_size,
                samples@ == genuine + Seq::new((samples@.len() - genuine.len()) as nat, |i: int| pad),
            decreases self.frame_size - samples.len(),
        {
            samples.push(pad);
        }
        Some(PaddedFrame { samples, filled })
    }

    /// Empties the buffer and hands back what was waiting, as it is.
    pub fn take_pending(&mut self) -> (rest: Vec<T>)
        requires
            old(self).wf(),
        ensures
            final(self).wf(),
            final(self).frame_len() == old(self).frame_len(),
            final(self).pending().len() == 0,
            rest@ == old(self).pending(),
    {
        let mut rest: Vec<T> = Vec::new();
        rest.append(&mut self.samples);
        rest
    }

    /// Discards everything that was waiting.
    pub fn reset(&mut self)
        requires
            old(self).frame_len() > 0,
        ensures
            final(self).wf(),
            final(self).frame_len() == old(self).frame_len(),
            final(self).pending().len() == 0,
    {
        self.samples.clear();
    }
}

} // verus!
