//! The decisions of the live transcription worker pool, which counts the
//! audio chunks queued and the chunks completed: when an idle worker stops,
//! how the final check that no chunk was lost ends, which failed
//! transcriptions still count a chunk as completed, and which speech
//! segments of the audio pipeline are transcribed.
use vstd::prelude::*;

verus! {

/// Chunk ids from `u64::MAX - 10` up mark a flush request, not audio.
pub fn is_flush_signal(chunk_id: u64) -> (r: bool)
    ensures
        r <==> chunk_id >= u64::MAX - 10,
{
    chunk_id >= u64::MAX - 10
}

/// The fewest samples a speech segment needs to be transcribed (50 ms at
/// 16 kHz).
pub const MIN_SEGMENT_SAMPLES: usize = 800;

/// What happens to a speech segment found by voice activity detection.
#[derive(Clone, Copy, Debug, PartialEq, Eq, Structural)]
pub enum SegmentRoute {
    /// Sent for transcription.
    Transcribe,
    /// Dropped because transcription has not been enabled yet (warm-up).
    WarmUpDiscard,
    /// Dropped as too short.
    TooShort,
}

/// A segment of at least 800 samples goes to transcription once the warm-up
/// is over; shorter segments are dropped.
pub fn route_speech_segment(sample_count: usize, transcription_enabled: bool) -> (r: SegmentRoute)
    ensures
        r == (if sample_count < MIN_SEGMENT_SAMPLES {
            SegmentRoute::TooShort
        } else if transcription_enabled {
            SegmentRoute::Transcribe
        } else {
            SegmentRoute::WarmUpDiscard
        }),
{
    if sample_count < MIN_SEGMENT_SAMPLES {
        SegmentRoute::TooShort
    } else if transcription_enabled {
        SegmentRoute::Transcribe
    } else {
        SegmentRoute::WarmUpDiscard
    }
}

/// The sample rate of the segments sent for transcription.
pub const TRANSCRIPTION_SAMPLE_RATE: u32 = 16000;

/// The numbering of the speech segments sent for transcription: the id the
/// next one sent gets.
pub struct SegmentNumbering {
    pub next_id: u64,
}

/// What becomes of one speech segment.
#[derive(Clone, Copy, Debug, PartialEq, Eq, Structural)]
pub enum SegmentDecision {
    /// Send it at this sample rate, numbered with this chunk id.
    Send { chunk_id: u64, sample_rate: u32 },
    /// Drop it: transcription has not been enabled yet (warm-up).
    WarmUpDiscard,
    /// Drop it as too short.
    TooShort,
}

/// What becomes of a segment of `sample_count` samples when the next id is
/// `next_id`.
pub open spec fn segment_decision(next_id: u64, sample_count: usize, enabled: bool) -> SegmentDecision {
    if sample_count < MIN_SEGMENT_SAMPLES {
        SegmentDecision::TooShort
    } else if enabled {
        SegmentDecision::Send { chunk_id: next_id, sample_rate: TRANSCRIPTION_SAMPLE_RATE }
    } else {
        SegmentDecision::WarmUpDiscard
    }
}

impl SegmentNumbering {
    /// Numbering from zero.
    pub fn new() -> (r: Self)
        ensures
            r.next_id == 0,
    {
        SegmentNumbering { next_id: 0 }
    }

    /// What becomes of a segment: one of at least 800 samples is sent once
    /// the warm-up gate is open, at 16 kHz and numbered with the next id;
    /// others are dropped.
    pub fn decide(&self, sample_count: usize, enabled: bool) -> (r: SegmentDecision)
        ensures
            r == segment_decision(self.next_id, sample_count, enabled),
    {
        match route_speech_segment(sample_count, enabled) {
            SegmentRoute::Transcribe => SegmentDecision::Send {
                chunk_id: self.next_id,
                sample_rate: TRANSCRIPTION_SAMPLE_RATE,
            },
            SegmentRoute::WarmUpDiscard => SegmentDecision::WarmUpDiscard,
            SegmentRoute::TooShort => SegmentDecision::TooShort,
        }
    }

    /// After a send: the next id moves on only when the segment was delivered.
    pub fn record_send(&mut self, delivered: bool)
        requires
            old(self).next_id < u64::MAX,
        ensures
            final(self).next_id == old(self).next_id + (if delivered { 1u64 } else { 0u64 }),
    {
        if delivered {
            self.next_id = self.next_id + 1;
        }
    }
}

/// The chunk ids that arrive for a run of segments.  Each segment is a
/// triple: its number of samples, the warm-up gate (open or shut), and
/// whether its send arrived.  `next` is the first id of the numbering.
pub open spec fn delivered_ids(next: nat, segs: Seq<(usize, bool, bool)>) -> Seq<nat>
    decreases segs.len(),
{
    if segs.len() == 0 {
        Seq::empty()
    } else {
        let (count, enabled, delivered) = segs[0];
        if count >= MIN_SEGMENT_SAMPLES && enabled && delivered {
            seq![next] + delivered_ids(next + 1, segs.drop_first())
        } else {
            delivered_ids(next, segs.drop_first())
        }
    }
}

/// The segments delivered for transcription are numbered 0, 1, 2, ... in
/// the order they were sent, whatever was dropped or failed in between.
pub proof fn lemma_delivered_ids_consecutive(next: nat, segs: Seq<(usize, bool, bool)>)
    ensures
        forall|i: int| 0 <= i < delivered_ids(next, segs).len() ==> #[trigger] delivered_ids(next, segs)[i] == next + i,
    decreases segs.len(),
{
    if segs.len() > 0 {
        let tail = segs.drop_first();
        lemma_delivered_ids_consecutive(next + 1, tail);
        lemma_delivered_ids_consecutive(next, tail);
        let (count, enabled, delivered) = segs[0];
        if count >= MIN_SEGMENT_SAMPLES && enabled && delivered {
            let rest = delivered_ids(next + 1, tail);
            assert(delivered_ids(next, segs) == seq![next] + rest);
            assert forall|i: int| 0 <= i < delivered_ids(next, segs).len() implies #[trigger] delivered_ids(
                next,
                segs,
            )[i] == next + i by {
                if i > 0 {
                    assert(delivered_ids(next, segs)[i] == rest[i - 1]);
                }
            }
        } else {
            assert(delivered_ids(next, segs) == delivered_ids(next, tail));
        }
    }
}

/// The kinds of transcription failure a worker tells apart.
#[derive(Clone, Copy, Debug, PartialEq, Eq, Structural)]
pub enum TranscriptionErrorKind {
    /// The chunk was too short to transcribe.
    AudioTooShort,
    /// The model was unloaded while the chunk was being transcribed.
    ModelNotLoaded,
    /// Any other failure.
    Other,
}

/// What a worker does after a failed transcription.
#[derive(Clone, Copy, Debug, PartialEq, Eq, Structural)]
pub enum ErrorHandling {
    /// Count the chunk as completed, so that the final check does not wait
    /// for it.
    CountCompleted,
    /// Report a transcription warning to the user; the chunk is not counted.
    Warn,
}

/// A chunk that was too short, or whose model went away, counts as
/// completed; any other failure is reported as a warning.
pub fn transcription_error_handling(kind: TranscriptionErrorKind) -> (r: ErrorHandling)
    ensures
        r == (match kind {
            TranscriptionErrorKind::Other => ErrorHandling::Warn,
            _ => ErrorHandling::CountCompleted,
        }),
{
    match kind {
        TranscriptionErrorKind::AudioTooShort => ErrorHandling::CountCompleted,
        TranscriptionErrorKind::ModelNotLoaded => ErrorHandling::CountCompleted,
        TranscriptionErrorKind::Other => ErrorHandling::Warn,
    }
}

/// What an idle worker (no chunk waiting) does next.
#[derive(Clone, Copy, Debug, PartialEq, Eq, Structural)]
pub enum IdleAction {
    /// All input is in and every queued chunk is done: stop.
    Finish,
    /// Sleep this many milliseconds, then look for work again.
    Wait(u64),
}

/// An idle worker stops once the input is finished and every queued chunk
/// is completed; it waits 5 ms while input is finished but chunks are still
/// being completed, and 1 ms while more input may come.
pub fn idle_worker_action(input_finished: bool, queued: u64, completed: u64) -> (r: IdleAction)
    ensures
        r == (if input_finished {
            if completed >= queued {
                IdleAction::Finish
            } else {
                IdleAction::Wait(5)
            }
        } else {
            IdleAction::Wait(1)
        }),
{
    if input_finished {
        if completed >= queued {
            IdleAction::Finish
        } else {
            IdleAction::Wait(5)
        }
    } else {
        IdleAction::Wait(1)
    }
}

/// How many times the final check looks again before reporting lost chunks.
pub const MAX_VERIFICATION_ATTEMPTS: u32 = 10;

/// A step of the final check that every queued chunk was completed.
#[derive(Clone, Copy, Debug, PartialEq, Eq, Structural)]
pub enum VerifyAction {
    /// The counts agree: no chunk was lost.
    AllProcessed,
    /// The counts differ: wait 100 ms and look again (this attempt number).
    Retry(u32),
    /// The counts still differ after every attempt: report this many lost.
    ReportLoss(u64),
}

/// The check after `attempts` earlier looks: done when the counts agree;
/// otherwise another look while fewer than ten were made, and then the
/// report of the chunks lost.
pub fn verify_step(attempts: u32, queued: u64, completed: u64) -> (r: VerifyAction)
    requires
        queued == completed || attempts < MAX_VERIFICATION_ATTEMPTS || completed <= queued,
    ensures
        r == verify_spec(attempts, queued, completed),
{
    if queued == completed {
        VerifyAction::AllProcessed
    } else if attempts < MAX_VERIFICATION_ATTEMPTS {
        VerifyAction::Retry(attempts + 1)
    } else {
        VerifyAction::ReportLoss(queued - completed)
    }
}

/// The step of the final check after `attempts` earlier looks.
pub open spec fn verify_spec(attempts: u32, queued: u64, completed: u64) -> VerifyAction {
    if queued == completed {
        VerifyAction::AllProcessed
    } else if attempts < MAX_VERIFICATION_ATTEMPTS {
        VerifyAction::Retry((attempts + 1) as u32)
    } else {
        VerifyAction::ReportLoss((queued - completed) as u64)
    }
}

/// The final check ends: each further look counts one more attempt, and no
/// look follows the tenth.
pub proof fn lemma_verify_ends(attempts: u32, queued: u64, completed: u64)
    ensures
        verify_spec(attempts, queued, completed) matches VerifyAction::Retry(n) ==> n == attempts + 1
            && n <= MAX_VERIFICATION_ATTEMPTS,
        attempts >= MAX_VERIFICATION_ATTEMPTS ==> !(verify_spec(attempts, queued, completed) is Retry),
{
}

} // verus!
