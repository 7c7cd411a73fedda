//! Speaker assignment after batch re-transcription: each transcript segment
//! takes the speaker whose diarization segment overlaps it most, then
//! consecutive segments of one speaker that follow each other within two
//! seconds are merged, keeping all of their text, and the result is numbered
//! from zero.  Times are in milliseconds.
use vstd::prelude::*;
use crate::text::{join_seq, push_str};

verus! {

broadcast use vstd::string::group_string_axioms;

/// A transcribed stretch of audio, with the speaker it was given, if any.
#[derive(Debug)]
pub struct TimedSegment {
    pub text: String,
    pub start_ms: u64,
    pub end_ms: u64,
    /// Confidence in thousandths.
    pub confidence_permille: u32,
    pub sequence_id: u32,
    pub speaker_id: Option<String>,
    pub speaker_label: Option<String>,
    pub is_registered_speaker: bool,
}

/// A stretch of audio that diarization gave to one speaker.
#[derive(Debug)]
pub struct SpeakerSegment {
    pub start_ms: u64,
    pub end_ms: u64,
    pub speaker_id: String,
    pub speaker_label: String,
    pub is_registered: bool,
}

/// What a transcript segment holds.
pub struct SegmentView {
    pub text: Seq<char>,
    pub start: int,
    pub end: int,
    pub confidence: int,
    pub sequence_id: int,
    pub speaker_id: Option<Seq<char>>,
    pub speaker_label: Option<Seq<char>>,
    pub registered: bool,
}

pub open spec fn opt_view(o: Option<String>) -> Option<Seq<char>> {
    match o {
        Some(s) => Some(s@),
        None => None,
    }
}

impl TimedSegment {
    pub open spec fn view_segment(self) -> SegmentView {
        SegmentView {
            text: self.text@,
            start: self.start_ms as int,
            end: self.end_ms as int,
            confidence: self.confidence_permille as int,
            sequence_id: self.sequence_id as int,
            speaker_id: opt_view(self.speaker_id),
            speaker_label: opt_view(self.speaker_label),
            registered: self.is_registered_speaker,
        }
    }

    /// A copy of the segment.
    pub fn duplicate(&self) -> (r: TimedSegment)
        ensures
            r.view_segment() == self.view_segment(),
    {
        TimedSegment {
            text: self.text.clone(),
            start_ms: self.start_ms,
            end_ms: self.end_ms,
            confidence_permille: self.confidence_permille,
            sequence_id: self.sequence_id,
            speaker_id: self.speaker_id.clone(),
            speaker_label: self.speaker_label.clone(),
            is_registered_speaker: self.is_registered_speaker,
        }
    }
}

pub open spec fn segment_views(ts: Seq<TimedSegment>) -> Seq<SegmentView> {
    ts.map_values(|t: TimedSegment| t.view_segment())
}

// ---------------------------------------------------------------------------
// Assigning speakers
// ---------------------------------------------------------------------------

/// How long the stretch `[start, end)` and the speaker segment share, in ms.
pub open spec fn overlap(start: int, end: int, s: SpeakerSegment) -> int {
    let lo = if start >= s.start_ms { start } else { s.start_ms as int };
    let hi = if end <= s.end_ms { end } else { s.end_ms as int };
    if hi > lo { hi - lo } else { 0 }
}

/// Among the first `n` speaker segments, the index of the first one with
/// the largest positive overlap with `[start, end)`.
pub open spec fn best_speaker(ss: Seq<SpeakerSegment>, start: int, end: int, n: int) -> Option<int>
    decreases n,
{
    if n <= 0 {
        None
    } else {
        let b = best_speaker(ss, start, end, n - 1);
        let o = overlap(start, end, ss[n - 1]);
        if o > 0 && (b is None || o > overlap(start, end, ss[b->0])) {
            Some(n - 1)
        } else {
            b
        }
    }
}

/// The segment with the speaker that overlaps it most, if any does.
pub open spec fn assigned(t: SegmentView, ss: Seq<SpeakerSegment>) -> SegmentView {
    match best_speaker(ss, t.start, t.end, ss.len() as int) {
        Some(i) => SegmentView {
            speaker_id: Some(ss[i].speaker_id@),
            speaker_label: Some(ss[i].speaker_label@),
            registered: ss[i].is_registered,
            ..t
        },
        None => t,
    }
}

proof fn lemma_best_speaker_range(ss: Seq<SpeakerSegment>, start: int, end: int, n: int)
    ensures
        best_speaker(ss, start, end, n) matches Some(i) ==> 0 <= i < n,
    decreases n,
{
    if n > 0 {
        lemma_best_speaker_range(ss, start, end, n - 1);
    }
}

/// The overlap is the length of the shared stretch: never negative, never
/// longer than either stretch, positive exactly when the two stretches
/// share some time, and the whole segment when the speaker covers it.
pub proof fn lemma_overlap_is_shared_time(start: int, end: int, s: SpeakerSegment)
    ensures
        overlap(start, end, s) >= 0,
        start <= end ==> overlap(start, end, s) <= end - start,
        overlap(start, end, s) <= s.end_ms - s.start_ms || s.end_ms < s.start_ms,
        overlap(start, end, s) > 0 <==> (start < end && (s.start_ms as int) < (s.end_ms as int) && start
            < s.end_ms && (s.start_ms as int) < end),
        s.start_ms <= start <= end <= s.end_ms ==> overlap(start, end, s) == end - start,
{
}

/// The chosen speaker overlaps most: among the first `n` speaker segments,
/// the one picked overlaps the stretch, no other overlaps it more, and every
/// earlier one overlaps it less; none is picked only when none overlaps.
pub proof fn lemma_best_speaker_overlaps_most(ss: Seq<SpeakerSegment>, start: int, end: int, n: int)
    requires
        0 <= n <= ss.len(),
    ensures
        match best_speaker(ss, start, end, n) {
            Some(i) => {
                &&& 0 <= i < n
                &&& overlap(start, end, ss[i]) > 0
                &&& forall|j: int| 0 <= j < n ==> #[trigger] overlap(start, end, ss[j]) <= overlap(start, end, ss[i])
                &&& forall|j: int| 0 <= j < i ==> #[trigger] overlap(start, end, ss[j]) < overlap(start, end, ss[i])
            },
            None => forall|j: int| 0 <= j < n ==> #[trigger] overlap(start, end, ss[j]) <= 0,
        },
    decreases n,
{
    if n > 0 {
        lemma_best_speaker_overlaps_most(ss, start, end, n - 1);
    }
}

/// The last speaker picked on a tie overlaps most too: the one picked
/// overlaps the stretch, no other overlaps it more, and every later one
/// overlaps it less; none is picked only when none overlaps.
pub proof fn lemma_last_best_speaker_overlaps_most(ss: Seq<SpeakerSegment>, start: int, end: int, n: int)
    requires
        0 <= n <= ss.len(),
    ensures
        match last_best_speaker(ss, start, end, n) {
            Some(i) => {
                &&& 0 <= i < n
                &&& overlap(start, end, ss[i]) > 0
                &&& forall|j: int| 0 <= j < n ==> #[trigger] overlap(start, end, ss[j]) <= overlap(start, end, ss[i])
                &&& forall|j: int| i < j < n ==> #[trigger] overlap(start, end, ss[j]) < overlap(start, end, ss[i])
            },
            None => forall|j: int| 0 <= j < n ==> #[trigger] overlap(start, end, ss[j]) <= 0,
        },
    decreases n,
{
    if n > 0 {
        lemma_last_best_speaker_overlaps_most(ss, start, end, n - 1);
    }
}

/// A segment keeps its text, times and number; when some speaker overlaps
/// it, it gets the speaker (id, label, registration) of a speaker segment
/// that overlaps it at least as much as any other; when none does, it is
/// unchanged.
pub proof fn lemma_assigned_speaker_overlaps_most(t: SegmentView, ss: Seq<SpeakerSegment>)
    ensures
        assigned(t, ss).text == t.text && assigned(t, ss).start == t.start && assigned(t, ss).end == t.end
            && assigned(t, ss).sequence_id == t.sequence_id && assigned(t, ss).confidence == t.confidence,
        (forall|j: int| 0 <= j < ss.len() ==> #[trigger] overlap(t.start, t.end, ss[j]) <= 0) ==> assigned(
            t,
            ss,
        ) == t,
        (exists|j: int| 0 <= j < ss.len() && #[trigger] overlap(t.start, t.end, ss[j]) > 0) ==> exists|i: int|
            0 <= i < ss.len() && assigned(t, ss).speaker_id == Some(ss[i].speaker_id@) && assigned(
                t,
                ss,
            ).speaker_label == Some(ss[i].speaker_label@) && assigned(t, ss).registered
                == ss[i].is_registered && #[trigger] overlap(t.start, t.end, ss[i]) > 0 && forall|j: int|
                0 <= j < ss.len() ==> #[trigger] overlap(t.start, t.end, ss[j]) <= overlap(
                    t.start,
                    t.end,
                    ss[i],
                ),
{
    lemma_best_speaker_overlaps_most(ss, t.start, t.end, ss.len() as int);
    match best_speaker(ss, t.start, t.end, ss.len() as int) {
        Some(i) => {
            assert(overlap(t.start, t.end, ss[i]) > 0);
        },
        None => {
            if exists|j: int| 0 <= j < ss.len() && #[trigger] overlap(t.start, t.end, ss[j]) > 0 {
                let j = choose|j: int| 0 <= j < ss.len() && #[trigger] overlap(t.start, t.end, ss[j]) > 0;
                assert(overlap(t.start, t.end, ss[j]) <= 0);
            }
        },
    }
}

/// Alignment gives a segment the speaker that overlaps it most only when
/// that speaker covers at least a quarter of it; otherwise the segment is
/// unchanged.
pub proof fn lemma_aligned_quarter(t: SegmentView, ss: Seq<SpeakerSegment>)
    ensures
        aligned(t, ss) == t || (aligned(t, ss) == assigned(t, ss) && exists|i: int|
            0 <= i < ss.len() && assigned(t, ss).speaker_id == Some(ss[i].speaker_id@) && 4 * #[trigger] overlap(
                t.start,
                t.end,
                ss[i],
            ) >= t.end - t.start && forall|j: int|
                0 <= j < ss.len() ==> #[trigger] overlap(t.start, t.end, ss[j]) <= overlap(t.start, t.end, ss[i])),
        (forall|j: int| 0 <= j < ss.len() ==> 4 * #[trigger] overlap(t.start, t.end, ss[j]) < t.end - t.start)
            ==> aligned(t, ss) == t,
        (exists|j: int|
            0 <= j < ss.len() && #[trigger] overlap(t.start, t.end, ss[j]) > 0 && 4 * overlap(t.start, t.end, ss[j])
                >= t.end - t.start) ==> aligned(t, ss) == assigned(t, ss),
{
    lemma_best_speaker_overlaps_most(ss, t.start, t.end, ss.len() as int);
}

fn overlap_ms(start: u64, end: u64, s: &SpeakerSegment) -> (r: u64)
    ensures
        r as int == overlap(start as int, end as int, *s),
{
    let lo = if start >= s.start_ms { start } else { s.start_ms };
    let hi = if end <= s.end_ms { end } else { s.end_ms };
    if hi > lo { hi - lo } else { 0 }
}

/// `t` with the speaker that overlaps it most.
pub fn assign_speaker(t: &TimedSegment, speakers: &Vec<SpeakerSegment>) -> (r: TimedSegment)
    ensures
        r.view_segment() == assigned(t.view_segment(), speakers@),
{
    let mut best: Option<usize> = None;
    let mut best_overlap: u64 = 0;
    let mut j: usize = 0;
    while j < speakers.len()
        invariant
            j <= speakers.len(),
            best == (match best_speaker(speakers@, t.start_ms as int, t.end_ms as int, j as int) {
                Some(i) => Some(i as usize),
                None => None::<usize>,
            }),
            best_speaker(speakers@, t.start_ms as int, t.end_ms as int, j as int) matches Some(i)
                ==> 0 <= i < j && best_overlap as int == overlap(
                t.start_ms as int,
                t.end_ms as int,
                speakers@[i],
            ),
        decreases speakers.len() - j,
    {
        let o = overlap_ms(t.start_ms, t.end_ms, &speakers[j]);
        proof {
            lemma_best_speaker_range(speakers@, t.start_ms as int, t.end_ms as int, j as int);
        }
        if o > 0 && (best.is_none() || o > best_overlap) {
            best = Some(j);
            best_overlap = o;
        }
        j = j + 1;
    }
    let mut r = t.duplicate();
    match best {
        Some(i) => {
            r.speaker_id = Some(speakers[i].speaker_id.clone());
            r.speaker_label = Some(speakers[i].speaker_label.clone());
            r.is_registered_speaker = speakers[i].is_registered;
        },
        None => {},
    }
    r
}

/// The segment with the speaker that overlaps it most, when that speaker
/// covers at least a quarter of it; otherwise unchanged.
pub open spec fn aligned(t: SegmentView, ss: Seq<SpeakerSegment>) -> SegmentView {
    match best_speaker(ss, t.start, t.end, ss.len() as int) {
        Some(i) => if 4 * overlap(t.start, t.end, ss[i]) >= t.end - t.start {
            assigned(t, ss)
        } else {
            t
        },
        None => t,
    }
}

/// Gives each segment the speaker that overlaps it most, when that speaker
/// covers at least a quarter of the segment.
pub fn align_speakers_with_transcripts(segments: &Vec<TimedSegment>, speakers: &Vec<SpeakerSegment>) -> (r:
    Vec<TimedSegment>)
    ensures
        segment_views(r@) == segment_views(segments@).map_values(|t: SegmentView| aligned(t, speakers@)),
{
    let ghost tv = segment_views(segments@);
    let ghost av = tv.map_values(|t: SegmentView| aligned(t, speakers@));
    let mut out: Vec<TimedSegment> = Vec::new();
    let mut i: usize = 0;
    while i < segments.len()
        invariant
            i <= segments.len(),
            tv == segment_views(segments@),
            av == tv.map_values(|t: SegmentView| aligned(t, speakers@)),
            segment_views(out@) == av.take(i as int),
        decreases segments.len() - i,
    {
        let t = &segments[i];
        let a = assign_speaker(t, speakers);
        let keep = match &a.speaker_id {
            Some(_) => {
                let d = if t.end_ms >= t.start_ms { t.end_ms - t.start_ms } else { 0 };
                best_overlap_of(t, speakers) as u128 * 4 >= d as u128
            },
            None => false,
        };
        let ghost before = out@;
        let s = if keep { a } else { t.duplicate() };
        out.push(s);
        proof {
            assert(tv[i as int] == t.view_segment());
            assert(av[i as int] == aligned(tv[i as int], speakers@));
            assert(segment_views(out@) =~= segment_views(before).push(s.view_segment()));
            assert(segment_views(out@) =~= av.take(i + 1));
        }
        i = i + 1;
    }
    proof {
        assert(av.take(segments.len() as int) =~= av);
    }
    out
}

/// The overlap of `t` with the speaker that overlaps it most (0 if none).
fn best_overlap_of(t: &TimedSegment, speakers: &Vec<SpeakerSegment>) -> (r: u64)
    ensures
        match best_speaker(speakers@, t.start_ms as int, t.end_ms as int, speakers.len() as int) {
            Some(i) => r as int == overlap(t.start_ms as int, t.end_ms as int, speakers@[i]),
            None => r == 0,
        },
{
    let mut best: Option<usize> = None;
    let mut best_overlap: u64 = 0;
    let mut j: usize = 0;
    while j < speakers.len()
        invariant
            j <= speakers.len(),
            best == (match best_speaker(speakers@, t.start_ms as int, t.end_ms as int, j as int) {
                Some(i) => Some(i as usize),
                None => None::<usize>,
            }),
            best_speaker(speakers@, t.start_ms as int, t.end_ms as int, j as int) matches Some(i)
                ==> 0 <= i < j && best_overlap as int == overlap(
                t.start_ms as int,
                t.end_ms as int,
                speakers@[i],
            ),
            best_speaker(speakers@, t.start_ms as int, t.end_ms as int, j as int) is None ==> best_overlap
                == 0,
        decreases speakers.len() - j,
    {
        let o = overlap_ms(t.start_ms, t.end_ms, &speakers[j]);
        proof {
            lemma_best_speaker_range(speakers@, t.start_ms as int, t.end_ms as int, j as int);
        }
        if o > 0 && (best.is_none() || o > best_overlap) {
            best = Some(j);
            best_overlap = o;
        }
        j = j + 1;
    }
    best_overlap
}

/// Among the first `n` speaker segments, the index of the last one with the
/// largest positive overlap with `[start, end)` (ties go to the later one).
pub open spec fn last_best_speaker(ss: Seq<SpeakerSegment>, start: int, end: int, n: int) -> Option<int>
    decreases n,
{
    if n <= 0 {
        None
    } else {
        let b = last_best_speaker(ss, start, end, n - 1);
        let o = overlap(start, end, ss[n - 1]);
        if o > 0 && (b is None || o >= overlap(start, end, ss[b->0])) {
            Some(n - 1)
        } else {
            b
        }
    }
}

proof fn lemma_last_best_speaker_range(ss: Seq<SpeakerSegment>, start: int, end: int, n: int)
    ensures
        last_best_speaker(ss, start, end, n) matches Some(i) ==> 0 <= i < n,
    decreases n,
{
    if n > 0 {
        lemma_last_best_speaker_range(ss, start, end, n - 1);
    }
}

/// The speaker segment that overlaps `[start_ms, end_ms)` most, the later
/// one on a tie; none when no segment overlaps it.
pub fn find_best_speaker_segment(speakers: &Vec<SpeakerSegment>, start_ms: u64, end_ms: u64) -> (r: Option<
    usize,
>)
    ensures
        r == (match last_best_speaker(speakers@, start_ms as int, end_ms as int, speakers.len() as int) {
            Some(i) => Some(i as usize),
            None => None::<usize>,
        }),
{
    let mut best: Option<usize> = None;
    let mut best_overlap: u64 = 0;
    let mut j: usize = 0;
    while j < speakers.len()
        invariant
            j <= speakers.len(),
            best == (match last_best_speaker(speakers@, start_ms as int, end_ms as int, j as int) {
                Some(i) => Some(i as usize),
                None => None::<usize>,
            }),
            last_best_speaker(speakers@, start_ms as int, end_ms as int, j as int) matches Some(i)
                ==> 0 <= i < j && best_overlap as int == overlap(
                start_ms as int,
                end_ms as int,
                speakers@[i],
            ),
        decreases speakers.len() - j,
    {
        let o = overlap_ms(start_ms, end_ms, &speakers[j]);
        proof {
            lemma_last_best_speaker_range(speakers@, start_ms as int, end_ms as int, j as int);
        }
        if o > 0 && (best.is_none() || o >= best_overlap) {
            best = Some(j);
            best_overlap = o;
        }
        j = j + 1;
    }
    best
}

// ---------------------------------------------------------------------------
// Merging consecutive segments of one speaker
// ---------------------------------------------------------------------------

/// The longest silence, in ms, across which one speaker's segments merge.
pub const MERGE_GAP_MS: u64 = 2000;

/// Whether `next` continues `last`: same speaker (or both without one), and
/// it starts less than two seconds after `last` ends.
pub open spec fn continues(last: SegmentView, next: SegmentView) -> bool {
    last.speaker_id == next.speaker_id && next.start - last.end < MERGE_GAP_MS
}

/// `last` extended by `next`: the texts joined by a space, the end moved.
pub open spec fn joined(last: SegmentView, next: SegmentView) -> SegmentView {
    SegmentView { text: last.text + " "@ + next.text, end: next.end, ..last }
}

/// The segments after merging, in order (before numbering).
pub open spec fn merge_spec(ts: Seq<SegmentView>) -> Seq<SegmentView>
    decreases ts.len(),
{
    if ts.len() == 0 {
        Seq::empty()
    } else {
        let m = merge_spec(ts.drop_last());
        let s = ts.last();
        if m.len() > 0 && continues(m.last(), s) {
            m.update(m.len() - 1, joined(m.last(), s))
        } else {
            m.push(s)
        }
    }
}

/// `ms` numbered from zero.
pub open spec fn numbered(ms: Seq<SegmentView>) -> Seq<SegmentView> {
    Seq::new(ms.len(), |i: int| SegmentView { sequence_id: i, ..ms[i] })
}

/// The texts of segments.
pub open spec fn texts(ms: Seq<SegmentView>) -> Seq<Seq<char>> {
    ms.map_values(|m: SegmentView| m.text)
}

/// Merging keeps all text: the merged texts, joined by spaces, are the
/// texts given, joined by spaces.
pub proof fn lemma_merge_keeps_text(ts: Seq<SegmentView>)
    ensures
        join_seq(texts(merge_spec(ts)), " "@) == join_seq(texts(ts), " "@),
    decreases ts.len(),
{
    if ts.len() > 0 {
        let init = ts.drop_last();
        lemma_merge_keeps_text(init);
        let m = merge_spec(init);
        let s = ts.last();
        assert(texts(ts).drop_last() =~= texts(init));
        if m.len() > 0 && continues(m.last(), s) {
            let r = m.update(m.len() - 1, joined(m.last(), s));
            assert(texts(r).drop_last() =~= texts(m).drop_last());
            if m.len() == 1 {
                assert(texts(m) =~= seq![m.last().text]);
            }
            assert(join_seq(texts(r), " "@) =~= join_seq(texts(m), " "@) + " "@ + s.text);
        } else {
            let r = m.push(s);
            assert(texts(r).drop_last() =~= texts(m));
        }
    }
}

/// Merging never makes more segments than it was given.
pub proof fn lemma_merge_len(ts: Seq<SegmentView>)
    ensures
        merge_spec(ts).len() <= ts.len(),
        ts.len() > 0 ==> merge_spec(ts).len() > 0,
    decreases ts.len(),
{
    if ts.len() > 0 {
        lemma_merge_len(ts.drop_last());
    }
}

/// After merging, two neighbouring segments have different speakers or lie
/// at least two seconds apart.
pub proof fn lemma_merged_neighbours_apart(ts: Seq<SegmentView>)
    ensures
        forall|i: int|
            0 < i < merge_spec(ts).len() ==> (#[trigger] merge_spec(ts)[i]).speaker_id != merge_spec(ts)[i
                - 1].speaker_id || merge_spec(ts)[i].start - merge_spec(ts)[i - 1].end >= 2000,
{
    lemma_merge_maximal(ts);
    assert forall|i: int| 0 < i < merge_spec(ts).len() implies (#[trigger] merge_spec(ts)[i]).speaker_id
        != merge_spec(ts)[i - 1].speaker_id || merge_spec(ts)[i].start - merge_spec(ts)[i - 1].end >= 2000 by {
        assert(!continues(merge_spec(ts)[i - 1], merge_spec(ts)[i]));
    }
}

/// Merging goes as far as it can: no segment of the result continues the one
/// before it.
pub proof fn lemma_merge_maximal(ts: Seq<SegmentView>)
    ensures
        forall|i: int|
            0 < i < merge_spec(ts).len() ==> !continues(
                #[trigger] merge_spec(ts)[i - 1],
                merge_spec(ts)[i],
            ),
    decreases ts.len(),
{
    if ts.len() > 0 {
        let init = ts.drop_last();
        lemma_merge_maximal(init);
        let m = merge_spec(init);
        let s = ts.last();
        if m.len() > 0 && continues(m.last(), s) {
            let r = m.update(m.len() - 1, joined(m.last(), s));
            assert forall|i: int| 0 < i < r.len() implies !continues(#[trigger] r[i - 1], r[i]) by {
                if i == r.len() - 1 {
                    assert(r[i - 1] == m[i - 1]);
                    assert(!continues(m[i - 1], m[i]));
                    assert(r[i].speaker_id == m[i].speaker_id);
                    assert(r[i].start == m[i].start);
                } else {
                    assert(!continues(m[i - 1], m[i]));
                }
            }
        } else {
            let r = m.push(s);
            assert forall|i: int| 0 < i < r.len() implies !continues(#[trigger] r[i - 1], r[i]) by {
                if i < m.len() {
                    assert(!continues(m[i - 1], m[i]));
                }
            }
        }
    }
}

/// Assigning speakers, merging and numbering keep all of the transcript's
/// text, in order, and never add segments.
pub proof fn lemma_assign_and_merge_keeps_text(ts: Seq<SegmentView>, ss: Seq<SpeakerSegment>)
    ensures
        join_seq(
            texts(numbered(merge_spec(ts.map_values(|t: SegmentView| assigned(t, ss))))),
            " "@,
        ) == join_seq(texts(ts), " "@),
        numbered(merge_spec(ts.map_values(|t: SegmentView| assigned(t, ss)))).len() <= ts.len(),
{
    let av = ts.map_values(|t: SegmentView| assigned(t, ss));
    lemma_merge_keeps_text(av);
    lemma_merge_len(av);
    assert(texts(av) =~= texts(ts));
    assert(texts(numbered(merge_spec(av))) =~= texts(merge_spec(av)));
}

fn same_speaker(a: &Option<String>, b: &Option<String>) -> (r: bool)
    ensures
        r <==> opt_view(*a) == opt_view(*b),
{
    match (a, b) {
        (Some(x), Some(y)) => crate::text::str_eq(x.as_str(), y.as_str()),
        (None, None) => true,
        _ => false,
    }
}

fn extend_segment(last: &TimedSegment, next: &TimedSegment) -> (r: TimedSegment)
    ensures
        r.view_segment() == joined(last.view_segment(), next.view_segment()),
{
    let mut text = last.text.clone();
    push_str(&mut text, " ");
    push_str(&mut text, next.text.as_str());
    TimedSegment {
        text,
        start_ms: last.start_ms,
        end_ms: next.end_ms,
        confidence_permille: last.confidence_permille,
        sequence_id: last.sequence_id,
        speaker_id: last.speaker_id.clone(),
        speaker_label: last.speaker_label.clone(),
        is_registered_speaker: last.is_registered_speaker,
    }
}

/// Merges consecutive segments of one speaker that are less than two
/// seconds apart.
pub fn merge_consecutive(segments: &Vec<TimedSegment>) -> (r: Vec<TimedSegment>)
    ensures
        segment_views(r@) == merge_spec(segment_views(segments@)),
{
    let ghost tv = segment_views(segments@);
    let mut merged: Vec<TimedSegment> = Vec::new();
    let mut i: usize = 0;
    while i < segments.len()
        invariant
            i <= segments.len(),
            tv == segment_views(segments@),
            segment_views(merged@) == merge_spec(tv.take(i as int)),
        decreases segments.len() - i,
    {
        let seg = &segments[i];
        proof {
            assert(tv.take(i + 1).drop_last() =~= tv.take(i as int));
            assert(tv.take(i + 1).last() == seg.view_segment());
        }
        let n = merged.len();
        let mut joined_here = false;
        if n > 0 {
            let last = &merged[n - 1];
            if same_speaker(&last.speaker_id, &seg.speaker_id) && (seg.start_ms as u128) < (
            last.end_ms as u128) + (MERGE_GAP_MS as u128) {
                let e = extend_segment(last, seg);
                let ghost before = merged@;
                merged.set(n - 1, e);
                proof {
                    assert(segment_views(merged@) =~= segment_views(before).update(
                        n - 1,
                        e.view_segment(),
                    ));
                }
                joined_here = true;
            }
        }
        if !joined_here {
            let ghost before = merged@;
            let d = seg.duplicate();
            merged.push(d);
            proof {
                assert(segment_views(merged@) =~= segment_views(before).push(d.view_segment()));
            }
        }
        i = i + 1;
    }
    proof {
        assert(tv.take(segments.len() as int) =~= tv);
    }
    merged
}

/// Assigns each segment the speaker that overlaps it most, merges
/// consecutive segments of one speaker less than two seconds apart, and
/// numbers the result from zero.
pub fn assign_and_merge_speakers(segments: &Vec<TimedSegment>, speakers: &Vec<SpeakerSegment>) -> (r:
    Vec<TimedSegment>)
    requires
        segments.len() <= u32::MAX,
    ensures
        segment_views(r@) == numbered(
            merge_spec(
                segment_views(segments@).map_values(|t: SegmentView| assigned(t, speakers@)),
            ),
        ),
{
    let ghost tv = segment_views(segments@);
    let ghost av = tv.map_values(|t: SegmentView| assigned(t, speakers@));
    let mut withs: Vec<TimedSegment> = Vec::new();
    let mut i: usize = 0;
    while i < segments.len()
        invariant
            i <= segments.len(),
            tv == segment_views(segments@),
            av == tv.map_values(|t: SegmentView| assigned(t, speakers@)),
            segment_views(withs@) == av.take(i as int),
        decreases segments.len() - i,
    {
        let a = assign_speaker(&segments[i], speakers);
        let ghost before = withs@;
        withs.push(a);
        proof {
            assert(tv[i as int] == segments@[i as int].view_segment());
            assert(av[i as int] == assigned(tv[i as int], speakers@));
            assert(segment_views(withs@) =~= segment_views(before).push(a.view_segment()));
            assert(segment_views(withs@) =~= av.take(i + 1));
        }
        i = i + 1;
    }
    proof {
        assert(av.take(segments.len() as int) =~= av);
    }
    let merged = merge_consecutive(&withs);
    proof {
        lemma_merge_len(av);
    }
    let ghost mv = segment_views(merged@);
    let mut out: Vec<TimedSegment> = Vec::new();
    let mut k: usize = 0;
    while k < merged.len()
        invariant
            k <= merged.len(),
            merged.len() <= u32::MAX,
            mv == segment_views(merged@),
            segment_views(out@) == numbered(mv).take(k as int),
        decreases merged.len() - k,
    {
        let mut s = merged[k].duplicate();
        s.sequence_id = k as u32;
        let ghost before = out@;
        out.push(s);
        proof {
            assert(mv[k as int] == merged@[k as int].view_segment());
            assert(s.view_segment() == SegmentView { sequence_id: k as int, ..mv[k as int] });
            assert(segment_views(out@) =~= segment_views(before).push(s.view_segment()));
            assert(segment_views(out@) =~= numbered(mv).take(k + 1));
        }
        k = k + 1;
    }
    proof {
        assert(numbered(mv).take(merged.len() as int) =~= numbered(mv));
    }
    out
}

} // verus!
