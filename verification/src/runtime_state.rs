//! Process-wide state of recording and transcription: whether a recording
//! is running, the live recording manager and transcription task, the
//! transcript sequence counter and speech flags, and which retranscription
//! jobs were cancelled.
//!
//! Each piece of state is a value here; the application keeps one instance
//! of each behind a lock and passes it in.
use vstd::prelude::*;
use crate::text::{str_eq, to_owned_string};

verus! {

broadcast use vstd::string::group_string_axioms;

// ---------------------------------------------------------------------------
// Recording state
// ---------------------------------------------------------------------------

/// Whether a recording is running, with the objects that keep it alive.
pub struct RecordingState<M, T> {
    pub recording: bool,
    pub manager: Option<M>,
    pub transcription_task: Option<T>,
}

impl<M, T> RecordingState<M, T> {
    /// No recording, no manager, no task.
    pub fn new() -> (r: Self)
        ensures
            !r.recording,
            r.manager is None,
            r.transcription_task is None,
    {
        RecordingState { recording: false, manager: None, transcription_task: None }
    }
}

/// Whether a recording is running.
pub fn is_recording<M, T>(state: &RecordingState<M, T>) -> (r: bool)
    ensures
        r == state.recording,
{
    state.recording
}

/// Records whether a recording is running.
pub fn set_recording<M, T>(state: &mut RecordingState<M, T>, value: bool)
    ensures
        final(state).recording == value,
        final(state).manager == old(state).manager,
        final(state).transcription_task == old(state).transcription_task,
{
    state.recording = value;
}

/// Whether a pause or a resume may go to the recording manager: a recording
/// must be running and have its manager.
pub fn pause_resume_gate<M, T>(state: &RecordingState<M, T>) -> (r: Result<(), String>)
    ensures
        !state.recording ==> (r matches Err(e) && e@ == "No recording is currently active"@),
        state.recording && state.manager is None ==> (r matches Err(e) && e@
            == "No recording manager found"@),
        state.recording && state.manager is Some ==> r is Ok,
{
    if !state.recording {
        return Err(to_owned_string("No recording is currently active"));
    }
    if state.manager.is_none() {
        return Err(to_owned_string("No recording manager found"));
    }
    Ok(())
}

/// The manager as a shared reference, if there is one.
pub open spec fn manager_ref<M, T>(state: &RecordingState<M, T>) -> Option<&M> {
    match state.manager {
        Some(m) => Some(&m),
        None => None,
    }
}

/// Runs `f` on the recording manager (or on `None` when there is none).
pub fn with_recording_manager<M, T, R, F: FnOnce(Option<&M>) -> R>(
    state: &RecordingState<M, T>,
    f: F,
) -> (r: R)
    requires
        f.requires((manager_ref(state),)),
    ensures
        f.ensures((manager_ref(state),), r),
{
    let m = match &state.manager {
        Some(m) => Some(m),
        None => None,
    };
    f(m)
}

/// Runs `f` on the recording manager, which it may change (or on `None`
/// when there is none); the result is `f`'s, and the manager kept is the one
/// `f` left behind.
pub fn with_recording_manager_mut<M, T, R, F: FnOnce(Option<&mut M>) -> R>(
    state: &mut RecordingState<M, T>,
    f: F,
) -> (r: R)
    requires
        forall|m: Option<&mut M>| f.requires((m,)),
    ensures
        final(state).recording == old(state).recording,
        final(state).transcription_task == old(state).transcription_task,
        final(state).manager is Some <==> old(state).manager is Some,
        exists|m: Option<&mut M>|
            #[trigger] f.ensures((m,), r) && match old(state).manager {
                None => m is None && final(state).manager is None,
                Some(x) => m is Some && *m->0 == x && final(state).manager == Some(*final(m->0)),
            },
{
    let m = state.manager.as_mut();
    let ghost gm = m;
    let r = f(m);
    assert(f.ensures((gm,), r));
    r
}

/// Stores (or clears) the recording manager.
pub fn set_recording_manager<M, T>(state: &mut RecordingState<M, T>, manager: Option<M>)
    ensures
        final(state).manager == manager,
        final(state).recording == old(state).recording,
        final(state).transcription_task == old(state).transcription_task,
{
    state.manager = manager;
}

/// Takes the recording manager out of the state.
pub fn take_recording_manager<M, T>(state: &mut RecordingState<M, T>) -> (r: Option<M>)
    ensures
        r == old(state).manager,
        final(state).manager is None,
        final(state).recording == old(state).recording,
        final(state).transcription_task == old(state).transcription_task,
{
    state.manager.take()
}

/// Stores (or clears) the transcription task.
pub fn set_transcription_task<M, T>(state: &mut RecordingState<M, T>, task: Option<T>)
    ensures
        final(state).transcription_task == task,
        final(state).recording == old(state).recording,
        final(state).manager == old(state).manager,
{
    state.transcription_task = task;
}

/// Takes the transcription task out of the state.
pub fn take_transcription_task<M, T>(state: &mut RecordingState<M, T>) -> (r: Option<T>)
    ensures
        r == old(state).transcription_task,
        final(state).transcription_task is None,
        final(state).recording == old(state).recording,
        final(state).manager == old(state).manager,
{
    state.transcription_task.take()
}

// ---------------------------------------------------------------------------
// Transcription counters and flags
// ---------------------------------------------------------------------------

/// The transcript sequence counter and the per-session flags.
pub struct TranscriptionState {
    /// The next transcript sequence id.
    pub sequence_counter: u64,
    /// Speech was reported in the current recording session.
    pub speech_detected: bool,
    /// Live speaker diarization is on.
    pub live_diarization: bool,
}

impl TranscriptionState {
    /// Counter at 0, no speech seen, diarization off.
    pub fn new() -> (r: Self)
        ensures
            r.sequence_counter == 0,
            !r.speech_detected,
            !r.live_diarization,
    {
        TranscriptionState { sequence_counter: 0, speech_detected: false, live_diarization: false }
    }
}

/// Turns live speaker diarization on or off.
pub fn set_live_diarization_enabled(state: &mut TranscriptionState, enabled: bool)
    ensures
        final(state).live_diarization == enabled,
        final(state).sequence_counter == old(state).sequence_counter,
        final(state).speech_detected == old(state).speech_detected,
{
    state.live_diarization = enabled;
}

/// Whether live speaker diarization is on.
pub fn is_live_diarization_enabled(state: &TranscriptionState) -> (r: bool)
    ensures
        r == state.live_diarization,
{
    state.live_diarization
}

/// Starts a new recording session: no speech seen yet.
pub fn reset_speech_detected_flag(state: &mut TranscriptionState)
    ensures
        !final(state).speech_detected,
        final(state).sequence_counter == old(state).sequence_counter,
        final(state).live_diarization == old(state).live_diarization,
{
    state.speech_detected = false;
}

/// The counter after one id is handed out: one more, wrapping at the top as
/// an atomic `fetch_add` does.
pub open spec fn next_counter(c: u64) -> u64 {
    if c == u64::MAX {
        0
    } else {
        (c + 1) as u64
    }
}

/// Hands out the next transcript sequence id.
pub fn next_sequence_id(state: &mut TranscriptionState) -> (r: u64)
    ensures
        r == old(state).sequence_counter,
        final(state).sequence_counter == next_counter(old(state).sequence_counter),
        final(state).speech_detected == old(state).speech_detected,
        final(state).live_diarization == old(state).live_diarization,
{
    let id = state.sequence_counter;
    state.sequence_counter = if id == u64::MAX {
        0
    } else {
        id + 1
    };
    id
}

/// Whether speech was seen in the current session.
pub fn was_speech_detected(state: &TranscriptionState) -> (r: bool)
    ensures
        r == state.speech_detected,
{
    state.speech_detected
}

/// Records that speech was seen; true only for the first time in a session.
pub fn mark_speech_detected(state: &mut TranscriptionState) -> (r: bool)
    ensures
        r == !old(state).speech_detected,
        final(state).speech_detected,
        final(state).sequence_counter == old(state).sequence_counter,
        final(state).live_diarization == old(state).live_diarization,
{
    let first = !state.speech_detected;
    state.speech_detected = true;
    first
}

/// Sequence ids handed out one after another increase, until the counter
/// reaches the top of its range.
pub proof fn lemma_sequence_ids_increase(c: u64)
    requires
        c < u64::MAX,
    ensures
        next_counter(c) > c,
{
}

// ---------------------------------------------------------------------------
// Cancelled retranscription jobs
// ---------------------------------------------------------------------------

/// The recordings whose retranscription was cancelled; no id twice.
pub struct CancelledRecordings {
    ids: Vec<String>,
}

impl View for CancelledRecordings {
    type V = Set<Seq<char>>;

    closed spec fn view(&self) -> Set<Seq<char>> {
        Set::new(|s: Seq<char>| exists|i: int| 0 <= i < self.ids.len() && self.ids@[i]@ == s)
    }
}

impl CancelledRecordings {
    /// No id appears twice.
    pub closed spec fn wf(&self) -> bool {
        forall|i: int, j: int|
            0 <= i < j < self.ids.len() ==> (#[trigger] self.ids@[i])@ != (#[trigger] self.ids@[j])@
    }

    /// Nothing cancelled.
    pub fn new() -> (r: Self)
        ensures
            r.wf(),
            r@ == Set::<Seq<char>>::empty(),
    {
        let r = CancelledRecordings { ids: Vec::new() };
        assert(r@ =~= Set::<Seq<char>>::empty());
        r
    }

    fn position(&self, recording_id: &str) -> (r: Option<usize>)
        ensures
            r matches Some(i) ==> i < self.ids.len() && self.ids@[i as int]@ == recording_id@,
            r is None ==> forall|i: int| 0 <= i < self.ids.len() ==> self.ids@[i]@ != recording_id@,
    {
        let mut i: usize = 0;
        while i < self.ids.len()
            invariant
                i <= self.ids.len(),
                forall|k: int| 0 <= k < i ==> self.ids@[k]@ != recording_id@,
            decreases self.ids.len() - i,
        {
            if str_eq(self.ids[i].as_str(), recording_id) {
                return Some(i);
            }
            i = i + 1;
        }
        None
    }
}

/// Whether the retranscription of a recording was cancelled.
pub fn is_cancelled(set: &CancelledRecordings, recording_id: &str) -> (r: bool)
    ensures
        r == set@.contains(recording_id@),
{
    let p = set.position(recording_id);
    proof {
        if p is None {
            assert(!set@.contains(recording_id@));
        }
    }
    p.is_some()
}

/// Marks the retranscription of a recording as cancelled.
pub fn mark_cancelled(set: &mut CancelledRecordings, recording_id: &str)
    requires
        old(set).wf(),
    ensures
        final(set).wf(),
        final(set)@ == old(set)@.insert(recording_id@),
{
    let p = set.position(recording_id);
    if p.is_none() {
        let ghost before = set.ids@;
        set.ids.push(to_owned_string(recording_id));
        assert forall|s: Seq<char>| set@.contains(s) <==> old(set)@.insert(recording_id@).contains(s) by {
            if s == recording_id@ {
                assert(set.ids@[before.len() as int]@ == s);
            }
            if old(set)@.contains(s) {
                let k = choose|k: int| 0 <= k < before.len() && before[k]@ == s;
                assert(set.ids@[k] == before[k]);
            }
            if set@.contains(s) && s != recording_id@ {
                let k = choose|k: int| 0 <= k < set.ids.len() && set.ids@[k]@ == s;
                assert(before[k] == set.ids@[k]);
            }
        }
    } else {
        let i = p.unwrap();
        assert(set@.contains(recording_id@) ) by {
            assert(set.ids@[i as int]@ == recording_id@);
        }
    }
    assert(set@ =~= old(set)@.insert(recording_id@));
}

/// Clears the cancellation mark of a recording.
pub fn clear_cancelled(set: &mut CancelledRecordings, recording_id: &str)
    requires
        old(set).wf(),
    ensures
        final(set).wf(),
        final(set)@ == old(set)@.remove(recording_id@),
{
    if let Some(i) = set.position(recording_id) {
        let ghost before = set.ids@;
        set.ids.remove(i);
        assert forall|s: Seq<char>| set@.contains(s) <==> old(set)@.remove(recording_id@).contains(s) by {
            if set@.contains(s) {
                let k = choose|k: int| 0 <= k < set.ids.len() && set.ids@[k]@ == s;
                if k < i {
                    assert(before[k] == set.ids@[k]);
                } else {
                    assert(before[k + 1] == set.ids@[k]);
                }
            }
            if old(set)@.remove(recording_id@).contains(s) {
                let k = choose|k: int| 0 <= k < before.len() && before[k]@ == s;
                if k < i {
                    assert(set.ids@[k] == before[k]);
                } else {
                    assert(set.ids@[k - 1] == before[k]);
                }
            }
        }
        assert(set@ =~= old(set)@.remove(recording_id@));
    } else {
        assert(set@ =~= old(set)@.remove(recording_id@));
    }
}

/// Clearing a cancellation undoes marking it: after a mark and a clear of
/// the same recording it is not cancelled, and the other recordings are as
/// they were; marking twice is marking once.
pub proof fn lemma_clear_undoes_mark(cancelled: Set<Seq<char>>, recording_id: Seq<char>)
    ensures
        cancelled.insert(recording_id).remove(recording_id) == cancelled.remove(recording_id),
        !cancelled.insert(recording_id).remove(recording_id).contains(recording_id),
        cancelled.insert(recording_id).insert(recording_id) == cancelled.insert(recording_id),
{
    assert(cancelled.insert(recording_id).remove(recording_id) =~= cancelled.remove(recording_id));
    assert(cancelled.insert(recording_id).insert(recording_id) =~= cancelled.insert(recording_id));
}

} // verus!
