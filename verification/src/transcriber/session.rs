//! The life of a session: `Connecting`, `Streaming`, `Draining`, `Closed`.
//!
//! Each activity of a session is a small state machine. The caller owns the
//! socket and the timers, reports what happened, and does what the machine
//! answers.

use vstd::prelude::*;
use crate::transcriber::client::{TranscriptEvent, DRAIN_GRACE_MS, DRAIN_TIMEOUT_MS};
use crate::transcriber::message::{
    base64_len, AudioChunkMessage, AudioChunkMessageView, ServerMessage,
};
use crate::framing::{frame_at, frame_count, leftover};
use crate::transcriber::upload::{pcm_le_bytes, ChunkBuffer};

verus! {

// ============ Phases ============

/// Where a session stands.
#[derive(Debug, Clone, Copy, PartialEq, Eq, Structural)]
pub enum SessionPhase {
    Connecting,
    Streaming,
    Draining,
    Closed,
}

/// What can move a session on.
#[derive(Debug, Clone, Copy, PartialEq, Eq, Structural)]
pub enum SessionSignal {
    /// The connection is open.
    Connected,
    /// The connection could not be opened.
    ConnectFailed,
    /// The shutdown signal arrived.
    Shutdown,
    /// Draining ended, by a committed transcript or by the timeout.
    DrainFinished,
}

impl SessionPhase {
    /// Position of the phase in the life of a session.
    pub open spec fn rank(self) -> nat {
        match self {
            SessionPhase::Connecting => 0,
            SessionPhase::Streaming => 1,
            SessionPhase::Draining => 2,
            SessionPhase::Closed => 3,
        }
    }

    /// The phase after `signal`. A signal that does not belong to the
    /// current phase changes nothing.
    pub open spec fn spec_on(self, signal: SessionSignal) -> SessionPhase {
        match (self, signal) {
            (SessionPhase::Connecting, SessionSignal::Connected) => SessionPhase::Streaming,
            (SessionPhase::Connecting, SessionSignal::ConnectFailed) => SessionPhase::Closed,
            (SessionPhase::Streaming, SessionSignal::Shutdown) => SessionPhase::Draining,
            (SessionPhase::Draining, SessionSignal::DrainFinished) => SessionPhase::Closed,
            _ => self,
        }
    }

    /// Moves the session on. It never goes back, and a repeated or late
    /// signal is ignored.
    pub fn on(self, signal: SessionSignal) -> (next: SessionPhase)
        ensures
            next == self.spec_on(signal),
            self.rank() <= next.rank(),
            self == SessionPhase::Closed ==> next == SessionPhase::Closed,
    {
        match (self, signal) {
            (SessionPhase::Connecting, SessionSignal::Connected) => SessionPhase::Streaming,
            (SessionPhase::Connecting, SessionSignal::ConnectFailed) => SessionPhase::Closed,
            (SessionPhase::Streaming, SessionSignal::Shutdown) => SessionPhase::Draining,
            (SessionPhase::Draining, SessionSignal::DrainFinished) => SessionPhase::Closed,
            _ => self,
        }
    }

    /// Whether audio frames are still accepted.
    pub fn accepts_audio(self) -> (b: bool)
        ensures
            b == (self == SessionPhase::Streaming),
    {
        match self {
            SessionPhase::Streaming => true,
            _ => false,
        }
    }
}

// ============ Outbound ============

/// What the writer is told.
pub enum WriterInput {
    /// A frame of samples came off the queue.
    Frame(Vec<i16>),
    /// Nothing came within the polling interval.
    Idle,
    /// The queue was closed by its producer.
    SourceClosed,
    /// The stop flag is set.
    Stop,
}

/// What the writer has to do: send these messages in order, and end if `done`.
pub struct WriterOutput {
    pub messages: Vec<AudioChunkMessage>,
    pub done: bool,
}

/// The outbound activity of a session.
pub struct SessionWriter {
    buffer: ChunkBuffer,
    finished: bool,
}

impl SessionWriter {
    /// The samples that wait for their chunk to fill up.
    pub closed spec fn pending(&self) -> Seq<i16> {
        self.buffer.pending()
    }

    /// Number of samples in one chunk.
    pub closed spec fn chunk_size(&self) -> nat {
        self.buffer.chunk_size()
    }

    /// Whether the closing message has gone out.
    pub closed spec fn finished(&self) -> bool {
        self.finished
    }

    pub closed spec fn wf(&self) -> bool {
        &&& self.buffer.wf()
        &&& self.finished ==> self.buffer.pending().len() == 0
    }

    /// A writer with nothing buffered, for the protocol's chunk size.
    pub fn new() -> (w: Self)
        ensures
            w.wf(),
            !w.finished(),
            w.pending().len() == 0,
            w.chunk_size() == crate::transcriber::client::SAMPLES_PER_CHUNK,
    {
        SessionWriter { buffer: ChunkBuffer::new(), finished: false }
    }

    /// A writer with nothing buffered, for chunks of `samples_per_chunk`.
    pub fn with_chunk_size(samples_per_chunk: usize) -> (w: Self)
        requires
            ChunkBuffer::valid_chunk_size(samples_per_chunk as nat),
        ensures
            w.wf(),
            !w.finished(),
            w.pending().len() == 0,
            w.chunk_size() == samples_per_chunk,
    {
        SessionWriter { buffer: ChunkBuffer::with_chunk_size(samples_per_chunk), finished: false }
    }

    /// Whether the closing message has gone out.
    pub fn is_finished(&self) -> (b: bool)
        ensures
            b == self.finished(),
    {
        self.finished
    }

    /// One step of the writer.
    ///
    /// While streaming, a frame yields one message without commit for every
    /// chunk it completes, and an idle poll yields nothing. The first stop
    /// or end of the queue yields exactly one message with commit, carrying
    /// what was left (possibly nothing), and ends the writer. After that
    /// nothing is sent any more. The text of a message is as long as the
    /// samples that it carries make it: that of a chunk is never empty, and
    /// that of the closing message is empty when nothing was left.
    pub fn step(&mut self, input: WriterInput) -> (output: WriterOutput)
        requires
            old(self).wf(),
        ensures
            final(self).wf(),
            final(self).chunk_size() == old(self).chunk_size(),
            old(self).finished() ==> {
                &&& output.done
                &&& output.messages@.len() == 0
                &&& final(self).finished()
                &&& final(self).pending() == old(self).pending()
            },
            !old(self).finished() ==> match input {
                WriterInput::Frame(pcm) => {
                    let stream = old(self).pending() + pcm@;
                    &&& !output.done
                    &&& !final(self).finished()
                    &&& output.messages@.len() == frame_count(stream, old(self).chunk_size())
                    &&& forall|i: int|
                        0 <= i < output.messages@.len() ==> {
                            &&& (#[trigger] output.messages@[i])@
                                == AudioChunkMessageView::carrying(
                                pcm_le_bytes(frame_at(stream, old(self).chunk_size(), i)),
                                false,
                            )
                            &&& output.messages@[i].audio_base_64@.len() == base64_len(
                                2 * old(self).chunk_size(),
                            )
                        }
                    &&& final(self).pending() == leftover(stream, old(self).chunk_size())
                },
                WriterInput::Idle => {
                    &&& !output.done
                    &&& !final(self).finished()
                    &&& output.messages@.len() == 0
                    &&& final(self).pending() == old(self).pending()
                },
                WriterInput::SourceClosed | WriterInput::Stop => {
                    &&& output.done
                    &&& final(self).finished()
                    &&& output.messages@.len() == 1
                    &&& output.messages@[0]@ == AudioChunkMessageView::carrying(
                        pcm_le_bytes(old(self).pending()),
                        true,
                    )
                    &&& output.messages@[0].audio_base_64@.len() == base64_len(
                        2 * old(self).pending().len(),
                    )
                    &&& final(self).pending().len() == 0
                },
            },
    {
        if self.finished {
            return WriterOutput { messages: Vec::new(), done: true };
        }
        match input {
            WriterInput::Frame(pcm) => {
                let messages = self.buffer.push(pcm.as_slice());
                WriterOutput { messages, done: false }
            },
            WriterInput::Idle => WriterOutput { messages: Vec::new(), done: false },
            WriterInput::SourceClosed | WriterInput::Stop => {
                let closing = self.buffer.finish();
                self.finished = true;
                let mut messages: Vec<AudioChunkMessage> = Vec::new();
                messages.push(closing);
                WriterOutput { messages, done: true }
            },
        }
    }
}

// ============ Inbound ============

/// What the reader is told about one item from the socket.
pub enum InboundFrame {
    /// A text message: decoded, or `None` where it could not be decoded.
    Text(Option<ServerMessage>),
    /// The service closed the connection.
    Close,
    /// A keep-alive probe.
    Ping,
    /// Receiving failed.
    Failed,
    /// Any other kind of frame.
    Other,
}

/// What the reader has to do with one item.
pub struct ReaderOutput {
    /// Hand this to the consumers of the session, if present.
    pub event: Option<TranscriptEvent>,
    /// Fire the one-shot "committed observed" signal.
    pub signal_committed: bool,
    /// Stop reading.
    pub stop: bool,
}

/// The inbound activity of a session.
pub struct SessionReader {
    committed_seen: bool,
}

impl InboundFrame {
    /// Whether this is a committed transcript, with or without text.
    pub open spec fn is_committed(&self) -> bool {
        self matches InboundFrame::Text(Some(ServerMessage::CommittedTranscript(_)))
    }

    /// The event that this item gives rise to: a transcript with text.
    pub open spec fn event(&self) -> Option<TranscriptEvent> {
        match self {
            InboundFrame::Text(Some(ServerMessage::PartialTranscript(t))) => if t.text@.len() > 0 {
                Some(TranscriptEvent::Partial(t.text))
            } else {
                None
            },
            InboundFrame::Text(Some(ServerMessage::CommittedTranscript(t))) => if t.text@.len()
                > 0 {
                Some(TranscriptEvent::Committed(t.text))
            } else {
                None
            },
            _ => None,
        }
    }

    /// Whether reading ends with this item.
    pub open spec fn ends_reading(&self) -> bool {
        self is Close || self is Failed
    }
}

impl SessionReader {
    /// Whether a committed transcript has been seen in this session.
    pub closed spec fn committed_seen(&self) -> bool {
        self.committed_seen
    }

    pub fn new() -> (r: Self)
        ensures
            !r.committed_seen(),
    {
        SessionReader { committed_seen: false }
    }

    /// Whether a committed transcript has been seen in this session.
    pub fn has_seen_committed(&self) -> (b: bool)
        ensures
            b == self.committed_seen(),
    {
        self.committed_seen
    }

    /// One step of the reader.
    ///
    /// Transcripts with text become events; the first committed transcript,
    /// with or without text, fires the signal; a close or a failure ends
    /// reading. Everything else, undecodable text included, is passed over.
    pub fn step(&mut self, frame: InboundFrame) -> (output: ReaderOutput)
        ensures
            output.event == frame.event(),
            output.signal_committed == (frame.is_committed() && !old(self).committed_seen()),
            output.stop == frame.ends_reading(),
            final(self).committed_seen() == (old(self).committed_seen() || frame.is_committed()),
    {
        match frame {
            InboundFrame::Text(Some(ServerMessage::PartialTranscript(t))) => {
                let event = if t.text.as_str().is_empty() {
                    None
                } else {
                    Some(TranscriptEvent::Partial(t.text))
                };
                ReaderOutput { event, signal_committed: false, stop: false }
            },
            InboundFrame::Text(Some(ServerMessage::CommittedTranscript(t))) => {
                let first = !self.committed_seen;
                self.committed_seen = true;
                let event = if t.text.as_str().is_empty() {
                    None
                } else {
                    Some(TranscriptEvent::Committed(t.text))
                };
                ReaderOutput { event, signal_committed: first, stop: false }
            },
            InboundFrame::Close | InboundFrame::Failed => ReaderOutput {
                event: None,
                signal_committed: false,
                stop: true,
            },
            _ => ReaderOutput { event: None, signal_committed: false, stop: false },
        }
    }
}

/// Whether a committed transcript has been seen after the reader has gone
/// through items of which `committed` tells, one by one, which were
/// committed transcripts.
pub open spec fn seen_after(seen: bool, committed: Seq<bool>) -> bool
    decreases committed.len(),
{
    if committed.len() == 0 {
        seen
    } else {
        seen_after(seen, committed.drop_last()) || committed.last()
    }
}

/// How often the committed signal fired on the way.
pub open spec fn signals_fired(seen: bool, committed: Seq<bool>) -> nat
    decreases committed.len(),
{
    if committed.len() == 0 {
        0
    } else {
        signals_fired(seen, committed.drop_last()) + if committed.last() && !seen_after(
            seen,
            committed.drop_last(),
        ) {
            1nat
        } else {
            0nat
        }
    }
}

/// The committed signal is one-shot: in a session it fires once if a
/// committed transcript comes at all, and never again after it has fired.
pub proof fn lemma_committed_signal_fires_once(seen: bool, committed: Seq<bool>)
    ensures
        seen_after(seen, committed) == (seen || committed.contains(true)),
        signals_fired(seen, committed) == (if !seen && committed.contains(true) {
            1nat
        } else {
            0nat
        }),
    decreases committed.len(),
{
    if committed.len() > 0 {
        let before = committed.drop_last();
        lemma_committed_signal_fires_once(seen, before);
        if committed.contains(true) && !committed.last() {
            let i = choose|i: int| 0 <= i < committed.len() && committed[i] == true;
            assert(before[i] == true);
        }
    }
}

// ============ Draining ============

/// How draining ended.
#[derive(Debug, Clone, Copy, PartialEq, Eq, Structural)]
pub enum DrainOutcome {
    /// The committed signal fired this many milliseconds into draining.
    CommittedObserved { after_ms: u64 },
    /// No signal came before the timeout.
    TimedOut,
}

/// Decides the race between the committed signal and the drain timeout.
/// `committed_after_ms` is when the signal fired, counted from the start of
/// draining, if it fired at all.
pub open spec fn spec_drain_race(committed_after_ms: Option<u64>) -> DrainOutcome {
    match committed_after_ms {
        Some(t) => if t < DRAIN_TIMEOUT_MS {
            DrainOutcome::CommittedObserved { after_ms: t }
        } else {
            DrainOutcome::TimedOut
        },
        None => DrainOutcome::TimedOut,
    }
}

impl DrainOutcome {
    /// Pause between the end of the race and the close.
    pub open spec fn spec_grace_ms(self) -> u64 {
        match self {
            DrainOutcome::CommittedObserved { .. } => DRAIN_GRACE_MS,
            DrainOutcome::TimedOut => 0,
        }
    }

    /// Time from the start of draining to the close.
    pub open spec fn spec_closes_after_ms(self) -> int {
        match self {
            DrainOutcome::CommittedObserved { after_ms } => after_ms + DRAIN_GRACE_MS,
            DrainOutcome::TimedOut => DRAIN_TIMEOUT_MS as int,
        }
    }

    /// Pause between the end of the race and the close.
    pub fn grace_ms(self) -> (ms: u64)
        ensures
            ms == self.spec_grace_ms(),
    {
        match self {
            DrainOutcome::CommittedObserved { .. } => DRAIN_GRACE_MS,
            DrainOutcome::TimedOut => 0,
        }
    }

    /// Time from the start of draining to the close.
    pub fn closes_after_ms(self) -> (ms: u64)
        requires
            self.spec_closes_after_ms() <= u64::MAX,
        ensures
            ms == self.spec_closes_after_ms(),
    {
        match self {
            DrainOutcome::CommittedObserved { after_ms } => after_ms + DRAIN_GRACE_MS,
            DrainOutcome::TimedOut => DRAIN_TIMEOUT_MS,
        }
    }
}

/// Decides the race between the committed signal and the drain timeout: a
/// signal before the timeout wins, anything else is a timeout.
pub fn drain_race(committed_after_ms: Option<u64>) -> (outcome: DrainOutcome)
    ensures
        outcome == spec_drain_race(committed_after_ms),
{
    match committed_after_ms {
        Some(t) => if t < DRAIN_TIMEOUT_MS {
            DrainOutcome::CommittedObserved { after_ms: t }
        } else {
            DrainOutcome::TimedOut
        },
        None => DrainOutcome::TimedOut,
    }
}

/// When a session closes, counted from the start of draining: shortly
/// after a committed transcript that came in time, and otherwise exactly
/// at the timeout.
pub fn drain_close_delay_ms(committed_after_ms: Option<u64>) -> (ms: u64)
    ensures
        ms == match committed_after_ms {
            Some(t) if t < DRAIN_TIMEOUT_MS => t + DRAIN_GRACE_MS,
            _ => DRAIN_TIMEOUT_MS as int,
        },
        ms == spec_drain_race(committed_after_ms).spec_closes_after_ms(),
{
    drain_race(committed_after_ms).closes_after_ms()
}

} // verus!
