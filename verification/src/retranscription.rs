//! The decisions of a batch re-transcription: the options it runs with,
//! whether a Whisper model must be loaded first, the segment a transcribed
//! chunk gives, the speaker names Sortformer diarization produces, and the
//! messages of its failures.
use vstd::prelude::*;
use crate::speaker_merge::{SegmentView, TimedSegment};
use crate::text::{decimal, push_decimal, push_str, str_eq, to_owned_string, trim, trim_seq};

verus! {

broadcast use vstd::string::group_string_axioms;

/// The options a re-transcription runs with.
#[derive(Clone, Debug)]
pub struct RetranscriptionOptions {
    pub diarization_enabled: bool,
    pub provider: String,
    pub max_speakers: usize,
    /// The Whisper model requested, or `current` for the loaded one.
    pub model: String,
}

/// The options with their defaults filled in: no diarization, the
/// `pyannote` provider, at most ten speakers, the current model.
pub fn resolve_options(
    enable_diarization: Option<bool>,
    diarization_provider: Option<String>,
    max_speakers: Option<usize>,
    model_name: Option<String>,
) -> (r: RetranscriptionOptions)
    ensures
        r.diarization_enabled == (enable_diarization == Some(true)),
        r.provider@ == (match diarization_provider {
            Some(p) => p@,
            None => "pyannote"@,
        }),
        r.max_speakers == (match max_speakers {
            Some(n) => n,
            None => 10usize,
        }),
        r.model@ == (match model_name {
            Some(m) => m@,
            None => "current"@,
        }),
{
    RetranscriptionOptions {
        diarization_enabled: match enable_diarization {
            Some(b) => b,
            None => false,
        },
        provider: match diarization_provider {
            Some(p) => p,
            None => to_owned_string("pyannote"),
        },
        max_speakers: match max_speakers {
            Some(n) => n,
            None => 10,
        },
        model: match model_name {
            Some(m) => m,
            None => to_owned_string("current"),
        },
    }
}

/// Whether the model must be loaded before transcribing: a model other than
/// `current` was requested and it is not the one loaded.
pub fn needs_model_load(model: &str, loaded: &Option<String>) -> (r: bool)
    ensures
        r <==> (model@ != "current"@ && !(loaded matches Some(l) && l@ == model@)),
{
    if str_eq(model, "current") {
        return false;
    }
    match loaded {
        Some(l) => !str_eq(l.as_str(), model),
        None => true,
    }
}

/// The name shown for a diarization provider.
pub fn provider_display_name(provider: &str) -> (r: &'static str)
    ensures
        r@ == (if provider@ == "sortformer"@ {
            "Sortformer"@
        } else {
            "PyAnnote"@
        }),
{
    if str_eq(provider, "sortformer") {
        "Sortformer"
    } else {
        "PyAnnote"
    }
}

/// The id and label of the Sortformer speaker numbered `n` from zero:
/// `speaker_n` and `Speaker n+1`.
pub fn sortformer_speaker(n: u64) -> (r: (String, String))
    requires
        n < u64::MAX,
    ensures
        r.0@ == "speaker_"@ + decimal(n as nat),
        r.1@ == "Speaker "@ + decimal((n + 1) as nat),
{
    let mut id = to_owned_string("speaker_");
    push_decimal(&mut id, n);
    let mut label = to_owned_string("Speaker ");
    push_decimal(&mut label, n + 1);
    (id, label)
}

/// The confidence given to every re-transcribed segment, in thousandths.
pub const CHUNK_CONFIDENCE_PERMILLE: u32 = 950;

/// The segment a transcribed chunk gives: its trimmed text over the chunk's
/// time, numbered by the chunk, without a speaker; nothing when the text is
/// blank.
pub fn chunk_segment(text: &str, index: u32, start_ms: u64, end_ms: u64) -> (r: Option<TimedSegment>)
    ensures
        trim_seq(text@).len() == 0 <==> r is None,
        r matches Some(s) ==> s.view_segment() == (SegmentView {
            text: trim_seq(text@),
            start: start_ms as int,
            end: end_ms as int,
            confidence: CHUNK_CONFIDENCE_PERMILLE as int,
            sequence_id: index as int,
            speaker_id: None,
            speaker_label: None,
            registered: false,
        }),
{
    let t = trim(text);
    if t.as_str().unicode_len() == 0 {
        return None;
    }
    Some(
        TimedSegment {
            text: t,
            start_ms,
            end_ms,
            confidence_permille: CHUNK_CONFIDENCE_PERMILLE,
            sequence_id: index,
            speaker_id: None,
            speaker_label: None,
            is_registered_speaker: false,
        },
    )
}

/// The views of a list of segments.
pub open spec fn segment_views(v: Seq<TimedSegment>) -> Seq<SegmentView> {
    v.map_values(|t: TimedSegment| t.view_segment())
}

/// The chunk loop of a re-transcription: the next chunk to transcribe, how
/// many there are, and the segments gathered so far.
pub struct ChunkRun {
    pub next: u32,
    pub total: u32,
    pub segments: Vec<TimedSegment>,
}

/// What happened last in the chunk loop.
pub enum ChunkEvent {
    /// The loop is about to take the next chunk; `cancelled` tells whether
    /// the re-transcription was cancelled.
    Ready { cancelled: bool },
    /// The next chunk, covering `start_ms..end_ms`, was transcribed (or
    /// failed); `cancelled` tells whether the re-transcription was cancelled
    /// meanwhile.
    Transcribed { outcome: Result<String, String>, start_ms: u64, end_ms: u64, cancelled: bool },
}

/// What the chunk loop does next.
pub enum ChunkAction {
    /// Stop quietly: clear the cancellation and end without an error.
    Cancel,
    /// Report this progress and transcribe chunk `next`.
    Transcribe { progress: String },
    /// Take the next chunk.
    Proceed,
    /// Every chunk is done: go on to diarization and completion.
    Done,
}

impl ChunkRun {
    /// No chunk past the last one is taken.
    pub open spec fn wf(&self) -> bool {
        self.next <= self.total
    }

    /// A loop over `total` chunks, none taken yet.
    pub fn new(total: u32) -> (r: Self)
        ensures
            r.wf(),
            r.next == 0,
            r.total == total,
            r.segments@.len() == 0,
    {
        ChunkRun { next: 0, total, segments: Vec::new() }
    }

    /// One step of the chunk loop.  Before each chunk, and after it, a
    /// cancellation stops the loop quietly; before a chunk, progress is
    /// reported as `Transcribing chunk k of n...`; a transcribed chunk whose
    /// text is not blank adds its segment, and a failed one is skipped; when
    /// every chunk is done the loop ends.
    pub fn step(&mut self, event: ChunkEvent) -> (r: ChunkAction)
        requires
            old(self).wf(),
        ensures
            final(self).wf(),
            final(self).total == old(self).total,
            match event {
                ChunkEvent::Ready { cancelled } => segment_views(final(self).segments@) == segment_views(
                    old(self).segments@,
                ) && final(self).next == old(self).next && if cancelled {
                    r is Cancel
                } else if old(self).next < old(self).total {
                    r matches ChunkAction::Transcribe { progress } && progress@ == "Transcribing chunk "@
                        + decimal(old(self).next as nat + 1) + " of "@ + decimal(
                        old(self).total as nat,
                    ) + "..."@
                } else {
                    r is Done
                },
                ChunkEvent::Transcribed { outcome, start_ms, end_ms, cancelled } => {
                    &&& old(self).next < old(self).total ==> final(self).next == old(self).next + 1
                    &&& old(self).next == old(self).total ==> final(self).next == old(self).next
                    &&& (if cancelled {
                        r is Cancel
                    } else {
                        r is Proceed
                    })
                    &&& segment_views(final(self).segments@) == match outcome {
                        Ok(text) => if old(self).next < old(self).total && trim_seq(text@).len() > 0 {
                            segment_views(old(self).segments@).push(
                                SegmentView {
                                    text: trim_seq(text@),
                                    start: start_ms as int,
                                    end: end_ms as int,
                                    confidence: CHUNK_CONFIDENCE_PERMILLE as int,
                                    sequence_id: old(self).next as int,
                                    speaker_id: None,
                                    speaker_label: None,
                                    registered: false,
                                },
                            )
                        } else {
                            segment_views(old(self).segments@)
                        },
                        Err(_) => segment_views(old(self).segments@),
                    }
                },
            },
    {
        match event {
            ChunkEvent::Ready { cancelled } => {
                if cancelled {
                    ChunkAction::Cancel
                } else if self.next < self.total {
                    ChunkAction::Transcribe { progress: chunk_progress_message(self.next + 1, self.total) }
                } else {
                    ChunkAction::Done
                }
            },
            ChunkEvent::Transcribed { outcome, start_ms, end_ms, cancelled } => {
                if self.next < self.total {
                    match outcome {
                        Ok(text) => {
                            match chunk_segment(text.as_str(), self.next, start_ms, end_ms) {
                                Some(seg) => {
                                    let ghost before = self.segments@;
                                    self.segments.push(seg);
                                    proof {
                                        assert(segment_views(self.segments@) =~= segment_views(
                                            before,
                                        ).push(seg.view_segment()));
                                    }
                                },
                                None => {},
                            }
                        },
                        Err(_) => {},
                    }
                    self.next = self.next + 1;
                }
                if cancelled {
                    ChunkAction::Cancel
                } else {
                    ChunkAction::Proceed
                }
            },
        }
    }
}

/// `Failed to decode audio: <error>`.
pub fn decode_failure_message(error: &str) -> (r: String)
    ensures
        r@ == "Failed to decode audio: "@ + error@,
{
    let mut r = to_owned_string("Failed to decode audio: ");
    push_str(&mut r, error);
    r
}

/// `Failed to load model '<model>': <error>`.
pub fn model_load_failure_message(model: &str, error: &str) -> (r: String)
    ensures
        r@ == "Failed to load model '"@ + model@ + "': "@ + error@,
{
    let mut r = to_owned_string("Failed to load model '");
    push_str(&mut r, model);
    push_str(&mut r, "': ");
    push_str(&mut r, error);
    r
}

/// `Processing <n> chunks...`.
pub fn processing_message(total_chunks: u32) -> (r: String)
    ensures
        r@ == "Processing "@ + decimal(total_chunks as nat) + " chunks..."@,
{
    let mut r = to_owned_string("Processing ");
    push_decimal(&mut r, total_chunks as u64);
    push_str(&mut r, " chunks...");
    r
}

/// `Transcribing chunk <k> of <n>...`.
pub fn chunk_progress_message(chunk_number: u32, total_chunks: u32) -> (r: String)
    ensures
        r@ == "Transcribing chunk "@ + decimal(chunk_number as nat) + " of "@ + decimal(
            total_chunks as nat,
        ) + "..."@,
{
    let mut r = to_owned_string("Transcribing chunk ");
    push_decimal(&mut r, chunk_number as u64);
    push_str(&mut r, " of ");
    push_decimal(&mut r, total_chunks as u64);
    push_str(&mut r, "...");
    r
}

} // verus!
