//! The live state of one streaming transfer, and the decisions a worker makes
//! at each of its suspension points.
//!
//! The surrounding task alternates between awaiting the next body chunk, the
//! next pause toggle, and the file writes; each time one of those completes it
//! hands the outcome to one of the step methods here, which updates the state
//! and says which status events to emit.

use vstd::prelude::*;

use crate::download::controller::{FailureReason, Message};

verus! {

/// The number of samples in the sliding throughput window.
pub const SPEED_WINDOW: usize = 3;

/// The state a worker keeps for one transfer while it streams.
#[derive(Debug)]
pub struct Transfer {
    /// The identity every emitted event carries.
    pub id: u64,
    /// The declared content length; 0 while the length is unknown.
    pub total_size: u64,
    /// Bytes written to the temporary file so far.
    pub downloaded: u64,
    /// The value of `downloaded` at the last throughput sample.
    pub downloaded_last: u64,
    /// The last `SPEED_WINDOW` per-interval byte deltas, oldest first.
    pub window: Vec<u64>,
    /// Whether the worker is currently refusing to pull chunks.
    pub paused: bool,
    /// Whether the stream has ended (successfully or not).
    pub finished: bool,
}

impl Transfer {
    /// The state invariant: the window holds exactly `SPEED_WINDOW` samples,
    /// the samples are byte deltas of disjoint intervals (so their sum is
    /// bounded by the bytes seen up to the last sample), and the last sample
    /// point does not lie in the future.
    pub open spec fn wf(self) -> bool {
        &&& self.window@.len() == SPEED_WINDOW
        &&& self.downloaded_last <= self.downloaded
        &&& self.window@[0] + self.window@[1] + self.window@[2] <= self.downloaded_last
    }

    /// Begin a transfer once the response headers are in.  `total` is the
    /// declared content length, absent when the server did not send one; a
    /// Total event is emitted exactly when the length was declared, so in
    /// unknown-length mode no Total event ever exists.
    pub fn start(id: u64, total: Option<u64>) -> (r: (Transfer, Option<Message>))
        ensures
            r.0.wf(),
            r.0.id == id,
            r.0.total_size == (match total {
                Some(n) => n,
                None => 0u64,
            }),
            r.0.downloaded == 0,
            r.0.downloaded_last == 0,
            r.0.window@ =~= seq![0u64, 0u64, 0u64],
            !r.0.paused,
            !r.0.finished,
            r.1 == (match total {
                Some(n) => Some(Message::Total(id, n)),
                None => None::<Message>,
            }),
    {
        let window: Vec<u64> = vec![0, 0, 0];
        let (total_size, emit): (u64, Option<Message>) = match total {
            Some(n) => (n, Some(Message::Total(id, n))),
            None => (0, None),
        };
        let t = Transfer {
            id,
            total_size,
            downloaded: 0,
            downloaded_last: 0,
            window,
            paused: false,
            finished: false,
        };
        (t, emit)
    }

    /// What a chunk arrival does to the state: only the byte counter moves.
    pub open spec fn spec_on_chunk(t: Transfer, len: u64) -> Transfer {
        Transfer { downloaded: (t.downloaded + len) as u64, ..t }
    }

    /// Whether a chunk arrival emits a progress event: on the usual throttled
    /// tick, or immediately when the final declared byte has been written.
    pub open spec fn spec_chunk_emits(t: Transfer, len: u64, progress_due: bool) -> bool {
        progress_due || (t.total_size != 0 && t.downloaded + len == t.total_size)
    }

    /// A body chunk of `len` bytes was pulled and written to the temporary
    /// file.  `progress_due` says whether the progress throttle interval has
    /// elapsed since the last progress event.  Chunks are only ever pulled
    /// while active, so the state must be neither paused nor finished.
    pub fn on_chunk(&mut self, len: u64, progress_due: bool) -> (emit: Option<Message>)
        requires
            old(self).wf(),
            !old(self).paused,
            !old(self).finished,
            old(self).downloaded + len <= u64::MAX,
        ensures
            final(self).wf(),
            *final(self) == Self::spec_on_chunk(*old(self), len),
            emit == (if Self::spec_chunk_emits(*old(self), len, progress_due) {
                Some(Message::Downloaded(old(self).id, (old(self).downloaded + len) as u64))
            } else {
                None::<Message>
            }),
    {
        self.downloaded = self.downloaded + len;
        if progress_due || (self.total_size != 0 && self.downloaded == self.total_size) {
            Some(Message::Downloaded(self.id, self.downloaded))
        } else {
            None
        }
    }

    /// The smoothed throughput after a sample: the arithmetic mean (integer
    /// division) of the retained two deltas and the fresh one.
    pub open spec fn spec_speed_after(t: Transfer) -> int {
        (t.window@[1] + t.window@[2] + (t.downloaded - t.downloaded_last)) / (SPEED_WINDOW as int)
    }

    /// The throughput throttle interval elapsed while active: take a sliding-
    /// window sample and report the smoothed speed.
    pub fn on_speed_tick(&mut self) -> (emit: Message)
        requires
            old(self).wf(),
            !old(self).paused,
            !old(self).finished,
        ensures
            final(self).wf(),
            final(self).window@ =~= old(self).window@.subrange(1, SPEED_WINDOW as int).push(
                (old(self).downloaded - old(self).downloaded_last) as u64,
            ),
            final(self).downloaded_last == old(self).downloaded,
            final(self).id == old(self).id,
            final(self).total_size == old(self).total_size,
            final(self).downloaded == old(self).downloaded,
            final(self).paused == old(self).paused,
            final(self).finished == old(self).finished,
            emit == Message::Speed(old(self).id, Self::spec_speed_after(*old(self)) as u64),
    {
        let delta = self.downloaded - self.downloaded_last;
        self.window.remove(0);
        self.window.push(delta);
        self.downloaded_last = self.downloaded;
        let speed = (self.window[0] + self.window[1] + self.window[2]) / (SPEED_WINDOW as u64);
        Message::Speed(self.id, speed)
    }

    /// What a toggle signal does to the state: only the pause flag flips.
    pub open spec fn spec_on_toggle(t: Transfer) -> Transfer {
        Transfer { paused: !t.paused, ..t }
    }

    /// A pause/resume signal arrived.  Receiving any signal means "flip the
    /// current pause state"; nothing else changes, so no byte already written
    /// is touched and resuming continues from the same counter.
    pub fn on_toggle(&mut self) -> (emit: Message)
        requires
            old(self).wf(),
            !old(self).finished,
        ensures
            final(self).wf(),
            *final(self) == Self::spec_on_toggle(*old(self)),
            emit == Message::Paused(old(self).id, !old(self).paused),
    {
        self.paused = !self.paused;
        Message::Paused(self.id, self.paused)
    }

    /// The body stream ended with no more chunks: the transfer is over.  The
    /// caller renames the temporary file before forwarding the Done event.
    /// Every step requires an unfinished state, so once this has run no
    /// further event can be produced for this identity.
    pub fn on_stream_end(&mut self) -> (emit: Message)
        requires
            old(self).wf(),
            !old(self).paused,
            !old(self).finished,
        ensures
            final(self).wf(),
            *final(self) == (Transfer { finished: true, ..*old(self) }),
            emit == Message::Done(old(self).id),
    {
        self.finished = true;
        Message::Done(self.id)
    }

    /// The transfer broke off: the request, the stream, or the file gave an
    /// error.  The temporary file is left in place, the state becomes
    /// terminal, and the event names the reason.
    pub fn on_failure(&mut self, reason: FailureReason) -> (emit: Message)
        requires
            old(self).wf(),
            !old(self).finished,
        ensures
            final(self).wf(),
            *final(self) == (Transfer { finished: true, ..*old(self) }),
            emit == Message::Failed(old(self).id, reason),
    {
        self.finished = true;
        Message::Failed(self.id, reason)
    }
}

/// The total number of bytes in a sequence of chunk sizes.
pub open spec fn chunks_sum(chunks: Seq<u64>) -> int
    decreases chunks.len(),
{
    if chunks.len() == 0 {
        0
    } else {
        chunks[0] + chunks_sum(chunks.drop_first())
    }
}

/// The state after streaming a whole sequence of chunks, in order.
pub open spec fn spec_stream(t: Transfer, chunks: Seq<u64>) -> Transfer
    decreases chunks.len(),
{
    if chunks.len() == 0 {
        t
    } else {
        spec_stream(Transfer::spec_on_chunk(t, chunks[0]), chunks.drop_first())
    }
}

proof fn lemma_chunks_sum_nonneg(chunks: Seq<u64>)
    ensures
        chunks_sum(chunks) >= 0,
    decreases chunks.len(),
{
    if chunks.len() > 0 {
        lemma_chunks_sum_nonneg(chunks.drop_first());
    }
}

/// Streaming accumulates exactly the bytes that arrive: after any sequence
/// of chunks the byte counter has grown by precisely their sum, and nothing
/// else about the transfer has moved.
pub proof fn lemma_stream_accumulates(t: Transfer, chunks: Seq<u64>)
    requires
        t.downloaded + chunks_sum(chunks) <= u64::MAX,
    ensures
        spec_stream(t, chunks).downloaded == t.downloaded + chunks_sum(chunks),
        spec_stream(t, chunks) == (Transfer {
            downloaded: (t.downloaded + chunks_sum(chunks)) as u64,
            ..t
        }),
    decreases chunks.len(),
{
    if chunks.len() > 0 {
        lemma_chunks_sum_nonneg(chunks.drop_first());
        lemma_stream_accumulates(Transfer::spec_on_chunk(t, chunks[0]), chunks.drop_first());
    }
}

/// A stream whose chunk sizes sum to the declared total drives the byte
/// counter to exactly that total.  Together with the step contracts this
/// pins the whole lifecycle: `on_stream_end` is the only step that emits a
/// Done event, it makes the state terminal, and every step demands a
/// non-terminal state, so exactly one Done event exists and no event for
/// this identity can follow it.
pub proof fn lemma_full_stream_reaches_total(t: Transfer, chunks: Seq<u64>)
    requires
        t.downloaded == 0,
        chunks_sum(chunks) == t.total_size,
    ensures
        spec_stream(t, chunks).downloaded == t.total_size,
{
    lemma_stream_accumulates(t, chunks);
}

/// The state after `n` toggle signals.
pub open spec fn spec_toggles(t: Transfer, n: nat) -> Transfer
    decreases n,
{
    if n == 0 {
        t
    } else {
        spec_toggles(Transfer::spec_on_toggle(t), (n - 1) as nat)
    }
}

/// Pause/resume is a pure toggle: `n` control signals flip the pause state
/// `n` times and touch nothing else — in particular no byte already counted
/// is lost or repeated, so resuming continues from exactly the byte count
/// last acknowledged.
pub proof fn lemma_toggle_is_pure(t: Transfer, n: nat)
    ensures
        spec_toggles(t, n) == (Transfer {
            paused: (if n % 2 == 0 {
                t.paused
            } else {
                !t.paused
            }),
            ..t
        }),
    decreases n,
{
    if n > 0 {
        lemma_toggle_is_pure(Transfer::spec_on_toggle(t), (n - 1) as nat);
    }
}

/// A pause followed by a resume is the identity on the transfer state.
pub proof fn lemma_pause_resume_roundtrip(t: Transfer)
    ensures
        Transfer::spec_on_toggle(Transfer::spec_on_toggle(t)) == t,
{
}

} // verus!
