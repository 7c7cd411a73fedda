//! The buffer that lines up microphone and system audio for mixing: each
//! stream accumulates samples until a full window can be taken, and short
//! streams are padded with silence.
use vstd::prelude::*;
use std::collections::VecDeque;

verus! {

/// Which stream samples come from.
#[derive(Clone, Copy, Debug, PartialEq, Eq, Structural)]
pub enum DeviceType {
    Microphone,
    System,
}

/// The mixer itself keeps no state; mixing sums the two windows.
pub struct ProfessionalAudioMixer;

impl ProfessionalAudioMixer {
    /// A mixer (the sample rate is not needed).
    pub fn new(_sample_rate: u32) -> (r: Self) {
        ProfessionalAudioMixer
    }
}

/// Samples of two streams waiting to be mixed in fixed windows.
pub struct AudioMixerRingBuffer<T> {
    mic_buffer: VecDeque<T>,
    system_buffer: VecDeque<T>,
    window_size_samples: usize,
    max_buffer_size: usize,
    silence: T,
}

/// `buf` extended by `samples`, keeping only the newest `max` samples.
pub open spec fn keep_newest<T>(buf: Seq<T>, samples: Seq<T>, max: nat) -> Seq<T> {
    let all = buf + samples;
    if all.len() > max {
        all.subrange(all.len() - max, all.len() as int)
    } else {
        all
    }
}

/// The window taken from `buf`: its first `w` samples, or all of it padded
/// with silence to `w` samples.
pub open spec fn window_of<T>(buf: Seq<T>, w: nat, silence: T) -> Seq<T> {
    if buf.len() >= w {
        buf.take(w as int)
    } else {
        buf + Seq::new((w - buf.len()) as nat, |i: int| silence)
    }
}

/// What stays in `buf` after a window is taken.
pub open spec fn after_window<T>(buf: Seq<T>, w: nat) -> Seq<T> {
    if buf.len() >= w {
        buf.skip(w as int)
    } else {
        Seq::empty()
    }
}

impl<T: Copy> AudioMixerRingBuffer<T> {
    /// The samples waiting from the microphone.
    pub closed spec fn mic(&self) -> Seq<T> {
        self.mic_buffer@
    }

    /// The samples waiting from system audio.
    pub closed spec fn system(&self) -> Seq<T> {
        self.system_buffer@
    }

    /// The mixing window, in samples.
    pub closed spec fn window(&self) -> nat {
        self.window_size_samples as nat
    }

    /// The most samples kept per stream.
    pub closed spec fn capacity(&self) -> nat {
        self.max_buffer_size as nat
    }

    /// The value used as silence.
    pub closed spec fn silence_value(&self) -> T {
        self.silence
    }

    /// Neither stream holds more than the capacity, which is eight windows.
    pub closed spec fn wf(&self) -> bool {
        &&& self.mic_buffer@.len() <= self.max_buffer_size
        &&& self.system_buffer@.len() <= self.max_buffer_size
        &&& self.max_buffer_size == 8 * self.window_size_samples
    }

    /// An empty buffer mixing in windows of `window_size_samples`, keeping
    /// at most eight windows per stream.
    pub fn with_window(window_size_samples: usize, silence: T) -> (r: Self)
        requires
            window_size_samples <= usize::MAX / 8,
        ensures
            r.wf(),
            r.mic() == Seq::<T>::empty(),
            r.system() == Seq::<T>::empty(),
            r.window() == window_size_samples,
            r.capacity() == 8 * window_size_samples,
            r.silence_value() == silence,
    {
        AudioMixerRingBuffer {
            mic_buffer: VecDeque::new(),
            system_buffer: VecDeque::new(),
            window_size_samples,
            max_buffer_size: window_size_samples * 8,
            silence,
        }
    }

    /// Adds samples of one stream; the oldest samples beyond the capacity
    /// are dropped.
    pub fn add_samples(&mut self, device_type: DeviceType, samples: Vec<T>)
        requires
            old(self).wf(),
        ensures
            final(self).wf(),
            final(self).window() == old(self).window(),
            final(self).capacity() == old(self).capacity(),
            final(self).silence_value() == old(self).silence_value(),
            device_type == DeviceType::Microphone ==> final(self).mic() == keep_newest(
                old(self).mic(),
                samples@,
                old(self).capacity(),
            ) && final(self).system() == old(self).system(),
            device_type == DeviceType::System ==> final(self).system() == keep_newest(
                old(self).system(),
                samples@,
                old(self).capacity(),
            ) && final(self).mic() == old(self).mic(),
    {
        let max = self.max_buffer_size;
        match device_type {
            DeviceType::Microphone => {
                append_bounded(&mut self.mic_buffer, &samples, max);
            },
            DeviceType::System => {
                append_bounded(&mut self.system_buffer, &samples, max);
            },
        }
    }

    /// Whether a window can be taken: one of the streams holds a full window.
    pub fn can_mix(&self) -> (r: bool)
        ensures
            r == (self.mic().len() >= self.window() || self.system().len() >= self.window()),
    {
        self.mic_buffer.len() >= self.window_size_samples || self.system_buffer.len()
            >= self.window_size_samples
    }

    /// Takes the next window of each stream once one of them holds a full
    /// window; the other is padded with silence.
    pub fn extract_window(&mut self) -> (r: Option<(Vec<T>, Vec<T>)>)
        requires
            old(self).wf(),
        ensures
            final(self).wf(),
            final(self).window() == old(self).window(),
            final(self).capacity() == old(self).capacity(),
            final(self).silence_value() == old(self).silence_value(),
            ({
                let w = old(self).window();
                let can = old(self).mic().len() >= w || old(self).system().len() >= w;
                &&& !can ==> r is None && final(self).mic() == old(self).mic() && final(self).system()
                    == old(self).system()
                &&& can ==> (r matches Some((m, s)) && m@ == window_of(
                    old(self).mic(),
                    w,
                    old(self).silence_value(),
                ) && s@ == window_of(old(self).system(), w, old(self).silence_value())
                    && final(self).mic() == after_window(old(self).mic(), w) && final(self).system()
                    == after_window(old(self).system(), w))
            }),
    {
        if !self.can_mix() {
            return None;
        }
        let w = self.window_size_samples;
        let silence = self.silence;
        let mic_window = take_window(&mut self.mic_buffer, w, silence);
        let sys_window = take_window(&mut self.system_buffer, w, silence);
        Some((mic_window, sys_window))
    }
}

/// Appends `samples` to `buf`, then drops the oldest samples beyond `max`.
fn append_bounded<T: Copy>(buf: &mut VecDeque<T>, samples: &Vec<T>, max: usize)
    ensures
        final(buf)@ == keep_newest(old(buf)@, samples@, max as nat),
{
    let mut i: usize = 0;
    while i < samples.len()
        invariant
            i <= samples.len(),
            buf@ == old(buf)@ + samples@.take(i as int),
        decreases samples.len() - i,
    {
        buf.push_back(samples[i]);
        i = i + 1;
        assert(buf@ =~= old(buf)@ + samples@.take(i as int));
    }
    assert(samples@.take(samples.len() as int) =~= samples@);
    let ghost all = buf@;
    while buf.len() > max
        invariant
            all == old(buf)@ + samples@,
            buf@.len() <= all.len(),
            all.len() > max ==> buf@.len() >= max,
            all.len() <= max ==> buf@.len() == all.len(),
            buf@ == all.subrange(all.len() - buf@.len(), all.len() as int),
        decreases buf.len(),
    {
        buf.pop_front();
    }
    assert(buf@ =~= keep_newest(old(buf)@, samples@, max as nat));
}

/// Takes a window of `w` samples from the front of `buf`, padding with
/// `silence` when it holds fewer.
fn take_window<T: Copy>(buf: &mut VecDeque<T>, w: usize, silence: T) -> (r: Vec<T>)
    ensures
        r@ == window_of(old(buf)@, w as nat, silence),
        final(buf)@ == after_window(old(buf)@, w as nat),
{
    let mut out: Vec<T> = Vec::new();
    let full = buf.len() >= w;
    let mut taken: usize = 0;
    while taken < w && buf.len() > 0
        invariant
            taken <= w,
            full ==> old(buf)@.len() >= w,
            !full ==> old(buf)@.len() < w,
            out@ == old(buf)@.take(taken as int),
            buf@ == old(buf)@.skip(taken as int),
            taken <= old(buf)@.len(),
        decreases w - taken,
    {
        let x = buf.pop_front();
        match x {
            Some(v) => out.push(v),
            None => {},
        }
        taken = taken + 1;
        assert(out@ =~= old(buf)@.take(taken as int));
        assert(buf@ =~= old(buf)@.skip(taken as int));
    }
    let ghost got = taken;
    while taken < w
        invariant
            got <= taken <= w,
            out@ == old(buf)@.take(got as int) + Seq::new((taken - got) as nat, |i: int| silence),
        decreases w - taken,
    {
        out.push(silence);
        taken = taken + 1;
        assert(out@ =~= old(buf)@.take(got as int) + Seq::new(
            (taken - got) as nat,
            |i: int| silence,
        ));
    }
    assert(out@ =~= window_of(old(buf)@, w as nat, silence));
    assert(buf@ =~= after_window(old(buf)@, w as nat));
    out
}

/// After samples are added, neither stream holds more than the capacity.
pub proof fn lemma_keep_newest_bounded<T>(buf: Seq<T>, samples: Seq<T>, max: nat)
    ensures
        keep_newest(buf, samples, max).len() <= max,
{
}

/// A window always has exactly the window size.
pub proof fn lemma_window_size<T>(buf: Seq<T>, w: nat, silence: T)
    ensures
        window_of(buf, w, silence).len() == w,
{
}

} // verus!
