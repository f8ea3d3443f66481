//! Outbound audio: samples are collected into chunks of a fixed size, and
//! each chunk becomes one message. What is left at the end goes out in a
//! single closing message that asks the service to commit.

use vstd::prelude::*;
use crate::framing::{frame_at, frame_count, leftover, lemma_frame_sizes, FrameBuffer};
use crate::transcriber::client::SAMPLES_PER_CHUNK;
use crate::transcriber::message::{base64_len, AudioChunkMessage, AudioChunkMessageView};

verus! {

/// A sample as an unsigned 16-bit number in two's complement.
pub open spec fn sample_bits(s: i16) -> int {
    if s >= 0 {
        s as int
    } else {
        s + 0x1_0000
    }
}

/// Signed 16-bit samples as bytes, low byte first.
pub open spec fn pcm_le_bytes(samples: Seq<i16>) -> Seq<u8> {
    Seq::new(
        2 * samples.len(),
        |j: int|
            if j % 2 == 0 {
                (sample_bits(samples[j / 2]) % 256) as u8
            } else {
                (sample_bits(samples[j / 2]) / 256) as u8
            },
    )
}

/// Serializes samples as little-endian bytes.
pub fn encode_pcm(samples: &[i16]) -> (bytes: Vec<u8>)
    ensures
        bytes@ == pcm_le_bytes(samples@),
{
    let mut bytes: Vec<u8> = Vec::new();
    let mut i: usize = 0;
    while i < samples.len()
        invariant
            i <= samples.len(),
            bytes@ == pcm_le_bytes(samples@.take(i as int)),
        decreases samples.len() - i,
    {
        let s = samples[i];
        let bits: u32 = if s >= 0 {
            s as u32
        } else {
            (s as i32 + 0x1_0000) as u32
        };
        bytes.push((bits % 256) as u8);
        bytes.push((bits / 256) as u8);
        i += 1;
    }
    bytes
}

/// Every sample becomes two bytes, and the bytes of a stream are the bytes
/// of its parts one after the other: chunk boundaries fall between samples.
pub proof fn lemma_pcm_bytes_concat(first: Seq<i16>, second: Seq<i16>)
    ensures
        pcm_le_bytes(first).len() == 2 * first.len(),
        pcm_le_bytes(first + second) == pcm_le_bytes(first) + pcm_le_bytes(second),
{
}

/// The two bytes of a sample determine it.
pub proof fn lemma_sample_from_bytes(a: i16, b: i16)
    requires
        sample_bits(a) % 256 == sample_bits(b) % 256,
        sample_bits(a) / 256 == sample_bits(b) / 256,
    ensures
        a == b,
{
}

/// Collects samples until a chunk is full. A chunk is a frame of the
/// outbound stream.
pub struct ChunkBuffer {
    frames: FrameBuffer<i16>,
}

impl ChunkBuffer {
    /// The samples that wait for their chunk to fill up.
    pub closed spec fn pending(&self) -> Seq<i16> {
        self.frames.pending()
    }

    /// Number of samples in one chunk.
    pub closed spec fn chunk_size(&self) -> nat {
        self.frames.frame_len()
    }

    /// Chunks are not empty, a chunk's text fits in memory, and a full chunk
    /// never waits.
    pub open spec fn wf(&self) -> bool {
        &&& Self::valid_chunk_size(self.chunk_size())
        &&& self.pending().len() < self.chunk_size()
    }

    /// A chunk size that a buffer can be made with.
    pub open spec fn valid_chunk_size(size: nat) -> bool {
        0 < size && base64_len(2 * size) <= usize::MAX
    }

    /// An empty buffer for the protocol's chunks of 250 ms at 16 kHz.
    pub fn new() -> (b: Self)
        ensures
            b.wf(),
            b.chunk_size() == SAMPLES_PER_CHUNK,
            b.pending().len() == 0,
    {
        ChunkBuffer { frames: FrameBuffer::new(SAMPLES_PER_CHUNK) }
    }

    /// An empty buffer for chunks of `samples_per_chunk` samples.
    pub fn with_chunk_size(samples_per_chunk: usize) -> (b: Self)
        requires
            Self::valid_chunk_size(samples_per_chunk as nat),
        ensures
            b.wf(),
            b.chunk_size() == samples_per_chunk,
            b.pending().len() == 0,
    {
        ChunkBuffer { frames: FrameBuffer::new(samples_per_chunk) }
    }

    /// Number of samples in one chunk.
    pub fn samples_per_chunk(&self) -> (n: usize)
        ensures
            n == self.chunk_size(),
    {
        self.frames.frame_size()
    }

    /// Number of samples that wait for their chunk to fill up.
    pub fn buffered(&self) -> (n: usize)
        ensures
            n == self.pending().len(),
    {
        self.frames.buffered()
    }

    /// Takes in a frame of samples and hands back a message for every chunk
    /// that it completes, oldest first, none of them committing and each
    /// with the text of a full chunk. The rest waits for the next frame.
    pub fn push(&mut self, pcm: &[i16]) -> (out: Vec<AudioChunkMessage>)
        requires
            old(self).wf(),
        ensures
            final(self).wf(),
            final(self).chunk_size() == old(self).chunk_size(),
            out@.len() == frame_count(old(self).pending() + pcm@, old(self).chunk_size()),
            forall|i: int|
                0 <= i < out@.len() ==> {
                    &&& (#[trigger] out@[i])@ == AudioChunkMessageView::carrying(
                        pcm_le_bytes(
                            frame_at(old(self).pending() + pcm@, old(self).chunk_size(), i),
                        ),
                        false,
                    )
                    &&& out@[i].audio_base_64@.len() == base64_len(2 * old(self).chunk_size())
                },
            final(self).pending() == leftover(old(self).pending() + pcm@, old(self).chunk_size()),
    {
        let ghost stream = self.frames.pending() + pcm@;
        let ghost size = self.frames.frame_len();
        let chunks = self.frames.push(pcm);
        proof {
            lemma_frame_sizes(stream, size);
        }
        let mut out: Vec<AudioChunkMessage> = Vec::new();
        let mut i: usize = 0;
        while i < chunks.len()
            invariant
                i <= chunks@.len(),
                out@.len() == i,
                base64_len(2 * size) <= usize::MAX,
                forall|k: int|
                    0 <= k < chunks@.len() ==> (#[trigger] chunks@[k])@ == frame_at(
                        stream,
                        size,
                        k,
                    ),
                forall|k: int|
                    0 <= k < chunks@.len() ==> (#[trigger] frame_at(stream, size, k)).len()
                        == size,
                forall|k: int|
                    0 <= k < i ==> {
                        &&& (#[trigger] out@[k])@ == AudioChunkMessageView::carrying(
                            pcm_le_bytes(frame_at(stream, size, k)),
                            false,
                        )
                        &&& out@[k].audio_base_64@.len() == base64_len(2 * size)
                    },
            decreases chunks.len() - i,
        {
            let bytes = encode_pcm(chunks[i].as_slice());
            let message = AudioChunkMessage::new(bytes.as_slice(), false);
            out.push(message);
            i += 1;
        }
        out
    }

    /// Empties the buffer into the closing message of the stream: it carries
    /// whatever was waiting, possibly nothing, and asks for a commit. Its
    /// text is empty exactly when nothing was waiting.
    pub fn finish(&mut self) -> (message: AudioChunkMessage)
        requires
            old(self).wf(),
        ensures
            final(self).wf(),
            final(self).chunk_size() == old(self).chunk_size(),
            final(self).pending().len() == 0,
            message@ == AudioChunkMessageView::carrying(pcm_le_bytes(old(self).pending()), true),
            message.audio_base_64@.len() == base64_len(2 * old(self).pending().len()),
    {
        let rest = self.frames.take_pending();
        let bytes = encode_pcm(rest.as_slice());
        AudioChunkMessage::new(bytes.as_slice(), true)
    }
}

} // verus!
