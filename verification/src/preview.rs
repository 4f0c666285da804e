//! Live preview while recording: the bounded buffer of recent samples that
//! preview requests read from, and the draft that the recognised phrases
//! are joined into.

use crate::text::{push_char, push_str, trim, trimmed};
use std::collections::VecDeque;
use vstd::prelude::*;

verus! {

broadcast use vstd::string::group_string_axioms;

/// The draft after one more recognised phrase: the phrase is trimmed, a
/// blank phrase changes nothing, and phrases are separated by one space.
pub open spec fn appended(draft: Seq<char>, chunk: Seq<char>) -> Seq<char> {
    let c = trim(chunk);
    if c.len() == 0 {
        draft
    } else if draft.len() == 0 {
        c
    } else {
        draft + seq![' '] + c
    }
}

/// Adds a recognised phrase to the live draft.
pub fn append_chunk(draft: &mut String, chunk: &str)
    ensures
        final(draft)@ == appended(old(draft)@, chunk@),
{
    let c = trimmed(chunk);
    if c.as_str().is_empty() {
        return;
    }
    if !draft.as_str().is_empty() {
        push_char(draft, ' ');
    }
    push_str(draft, c.as_str());
}

/// A recognised phrase reaches the live draft only while its recording's
/// preview session is still the current one, and only when it is not
/// empty; the draft to show is then returned.
pub fn preview_update(draft: &mut String, phrase: &str, session_current: bool) -> (r: Option<
    String,
>)
    ensures
        phrase@.len() == 0 || !session_current ==> r is None && final(draft)@ == old(draft)@,
        phrase@.len() > 0 && session_current ==> final(draft)@ == appended(old(draft)@, phrase@)
            && (r matches Some(d) && d@ == final(draft)@),
{
    if phrase.is_empty() || !session_current {
        return None;
    }
    append_chunk(draft, phrase);
    Some(draft.clone())
}

/// Samples recorded from `cursor` on, with the sample indices they cover.
#[derive(Debug, Clone, PartialEq, Eq)]
pub struct PreviewDelta {
    pub samples: Vec<i16>,
    pub start_sample: u64,
    pub end_sample: u64,
}

/// The most recent samples of a recording, at most `max_samples` of them,
/// with the index of the first one kept and of the next one to come.
pub struct PreviewBuffer {
    samples: VecDeque<i16>,
    max_samples: usize,
    first_sample: u64,
    next_sample: u64,
    recorded: Ghost<Seq<i16>>,
}

impl PreviewBuffer {
    /// Every sample pushed since the buffer was made or cleared.
    pub closed spec fn recorded(&self) -> Seq<i16> {
        self.recorded@
    }

    /// Index of the oldest sample still kept.
    pub closed spec fn first(&self) -> nat {
        self.first_sample as nat
    }

    /// How many samples are kept at most.
    pub closed spec fn capacity(&self) -> nat {
        self.max_samples as nat
    }

    /// How far the oldest-sample index runs ahead of the kept samples: by
    /// one in a buffer of capacity zero once it has recorded anything (its
    /// first sample bumps the index without dropping a sample, and from then
    /// on it keeps every sample), by none otherwise.
    pub open spec fn lag(&self) -> int {
        if self.capacity() == 0 && self.recorded().len() > 0 {
            1
        } else {
            0
        }
    }

    /// The kept samples are the last ones recorded, no more than the
    /// capacity (a capacity of zero keeps them all), and the counters agree
    /// with them.
    pub closed spec fn wf(&self) -> bool {
        &&& self.max_samples > 0 ==> self.samples@.len() <= self.max_samples
        &&& self.max_samples == 0 ==> self.first_sample == self.lag()
        &&& self.next_sample == self.recorded@.len()
        &&& self.first_sample + self.samples@.len() == self.next_sample + self.lag()
        &&& self.samples@ == self.recorded@.skip(self.first_sample - self.lag())
    }

    pub fn new(max_samples: usize) -> (r: Self)
        ensures
            r.wf(),
            r.recorded() == Seq::<i16>::empty(),
            r.first() == 0,
            r.capacity() == max_samples,
    {
        let r = PreviewBuffer {
            samples: VecDeque::new(),
            max_samples,
            first_sample: 0,
            next_sample: 0,
            recorded: Ghost(Seq::empty()),
        };
        assert(r.samples@ =~= r.recorded@.skip(0));
        r
    }

    /// Records `samples`; once the buffer is full the oldest sample is
    /// dropped for each new one.
    pub fn push_samples(&mut self, samples: &[i16])
        requires
            old(self).wf(),
            old(self).recorded().len() + samples@.len() <= u64::MAX,
        ensures
            final(self).wf(),
            final(self).recorded() == old(self).recorded() + samples@,
            final(self).capacity() == old(self).capacity(),
            old(self).capacity() > 0 ==> final(self).recorded().len() - final(self).first() == if old(
                self,
            ).recorded().len() - old(self).first() + samples@.len() <= old(self).capacity() {
                old(self).recorded().len() - old(self).first() + samples@.len()
            } else {
                old(self).capacity() as int
            },
            old(self).capacity() == 0 ==> final(self).first() == final(self).lag(),
    {
        let ghost start = self.recorded@;
        let ghost kept0 = self.recorded@.len() - self.first_sample;
        let mut i: usize = 0;
        while i < samples.len()
            invariant
                self.wf(),
                self.max_samples == old(self).max_samples,
                i <= samples@.len(),
                start == old(self).recorded(),
                kept0 == old(self).recorded().len() - old(self).first(),
                start.len() + samples@.len() <= u64::MAX,
                self.recorded@ == start + samples@.take(i as int),
                self.max_samples > 0 ==> self.samples@.len() == if kept0 + i <= self.max_samples {
                    kept0 + i
                } else {
                    self.max_samples as int
                },
            decreases samples@.len() - i,
        {
            let s = samples[i];
            let ghost before = self.samples@;
            if self.samples.len() == self.max_samples {
                let _ = self.samples.pop_front();
                self.first_sample = self.first_sample + 1;
            }
            self.samples.push_back(s);
            self.next_sample = self.next_sample + 1;
            proof {
                self.recorded@ = self.recorded@.push(s);
                assert(samples@.take(i + 1) =~= samples@.take(i as int).push(s));
                assert(self.samples@ =~= self.recorded@.skip(self.first_sample - self.lag()));
            }
            i = i + 1;
        }
        assert(samples@.take(samples@.len() as int) =~= samples@);
    }

    /// The samples recorded from `cursor` on that are still kept. A cursor
    /// older than the oldest kept sample starts at that sample (dropped
    /// audio is skipped, not replayed). `None` when nothing new is there.
    pub fn snapshot_since(&self, cursor: u64) -> (r: Option<PreviewDelta>)
        requires
            self.wf(),
        ensures
            ({
                let start = if cursor < self.first() {
                    self.first() as int
                } else if cursor > self.recorded().len() {
                    self.recorded().len() as int
                } else {
                    cursor as int
                };
                match r {
                    None => start - self.lag() == self.recorded().len(),
                    Some(d) => {
                        &&& start - self.lag() < self.recorded().len()
                        &&& d.start_sample == start
                        &&& d.end_sample == self.recorded().len()
                        &&& d.samples@ == self.recorded().subrange(
                            start - self.lag(),
                            self.recorded().len() as int,
                        )
                    },
                }
            }),
    {
        let lower: u64 = if cursor < self.first_sample {
            self.first_sample
        } else {
            cursor
        };
        let start_sample: u64 = if lower > self.next_sample {
            self.next_sample
        } else {
            lower
        };
        let offset: usize = (start_sample - self.first_sample) as usize;
        let mut out: Vec<i16> = Vec::new();
        let mut k: usize = offset;
        let n = self.samples.len();
        while k < n
            invariant
                self.wf(),
                n == self.samples@.len(),
                offset <= k <= n,
                offset == start_sample - self.first_sample,
                out@ == self.samples@.subrange(offset as int, k as int),
            decreases n - k,
        {
            out.push(self.samples[k]);
            assert(self.samples@.subrange(offset as int, k + 1) =~= self.samples@.subrange(
                offset as int,
                k as int,
            ).push(self.samples@[k as int]));
            k = k + 1;
        }
        proof {
            assert(self.samples@.subrange(offset as int, n as int) =~= self.recorded@.subrange(
                start_sample - self.lag(),
                self.next_sample as int,
            ));
        }
        if out.len() == 0 {
            return None;
        }
        Some(PreviewDelta { samples: out, start_sample, end_sample: self.next_sample })
    }

    /// Forgets everything recorded.
    pub fn clear(&mut self)
        requires
            old(self).wf(),
        ensures
            final(self).wf(),
            final(self).recorded() == Seq::<i16>::empty(),
            final(self).first() == 0,
            final(self).capacity() == old(self).capacity(),
    {
        self.samples.clear();
        self.first_sample = 0;
        self.next_sample = 0;
        proof {
            self.recorded@ = Seq::empty();
            assert(self.samples@ =~= self.recorded@.skip(0 - self.lag()));
        }
    }
}

// ---------------------------------------------------------------------------
// Replaying a recorded fixture into the preview
// ---------------------------------------------------------------------------

/// The sum of `s`.
pub open spec fn sample_sum(s: Seq<i16>) -> int
    decreases s.len(),
{
    if s.len() == 0 {
        0
    } else {
        sample_sum(s.drop_last()) + s.last() as int
    }
}

/// `a / b` rounded toward zero, as integer division does (`b > 0`).
pub open spec fn div_toward_zero(a: int, b: int) -> int {
    if a >= 0 {
        a / b
    } else {
        -((-a) / b)
    }
}

/// The mean of frame `f` of `channels` interleaved channels.
pub open spec fn frame_mean(s: Seq<i16>, channels: int, f: int) -> int {
    div_toward_zero(sample_sum(s.subrange(f * channels, f * channels + channels)), channels)
}

/// Interleaved samples mixed down to one channel, frame by frame; a
/// trailing partial frame is dropped.
pub open spec fn mixed_down(s: Seq<i16>, channels: int) -> Seq<i16> {
    Seq::new(((s.len() as int) / channels) as nat, |f: int| frame_mean(s, channels, f) as i16)
}

/// Number of output frames when `frames` frames at `source_rate` are
/// played at `target_rate` (rounded up).
pub open spec fn resampled_frames(frames: int, source_rate: int, target_rate: int) -> int {
    (frames * target_rate + source_rate - 1) / source_rate
}

/// The source frame that output frame `k` repeats (nearest earlier one).
pub open spec fn source_frame(k: int, source_rate: int, target_rate: int, frames: int) -> int {
    let f = (k * source_rate) / target_rate;
    if f < frames - 1 {
        f
    } else {
        frames - 1
    }
}

/// A mono signal resampled by repeating the nearest earlier frame, each
/// output frame written to all `channels` channels.
pub open spec fn resampled(mono: Seq<i16>, source_rate: int, target_rate: int, channels: int) -> Seq<
    i16,
> {
    Seq::new(
        (resampled_frames(mono.len() as int, source_rate, target_rate) * channels) as nat,
        |i: int| mono[source_frame(i / channels, source_rate, target_rate, mono.len() as int)],
    )
}

proof fn lemma_sample_sum_bounds(s: Seq<i16>)
    ensures
        -32768 * s.len() <= sample_sum(s) <= 32767 * s.len(),
    decreases s.len(),
{
    if s.len() > 0 {
        lemma_sample_sum_bounds(s.drop_last());
    }
}

/// Mixes interleaved samples down to one channel.
pub fn mix_down(interleaved: &Vec<i16>, channels: u16) -> (r: Vec<i16>)
    requires
        channels > 0,
    ensures
        r@ == mixed_down(interleaved@, channels as int),
        forall|f: int|
            0 <= f < r@.len() ==> r@[f] as int == frame_mean(interleaved@, channels as int, f),
{
    let ch: usize = channels as usize;
    let frames: usize = interleaved.len() / ch;
    let mut out: Vec<i16> = Vec::new();
    let mut f: usize = 0;
    while f < frames
        invariant
            ch == channels as usize,
            ch > 0,
            interleaved@.len() <= usize::MAX,
            frames == (interleaved@.len() as int) / (ch as int),
            f <= frames,
            out@.len() == f,
            forall|g: int|
                0 <= g < f ==> out@[g] as int == frame_mean(interleaved@, ch as int, g),
        decreases frames - f,
    {
        assert(f * ch + ch <= interleaved@.len()) by (nonlinear_arith)
            requires
                f < frames,
                frames == (interleaved@.len() as int) / (ch as int),
                ch > 0,
        ;
        let base: usize = f * ch;
        let mut sum: i32 = 0;
        let mut k: usize = 0;
        while k < ch
            invariant
                ch == channels as usize,
                ch <= 65535,
                interleaved@.len() <= usize::MAX,
                base + ch <= interleaved@.len(),
                k <= ch,
                sum as int == sample_sum(interleaved@.subrange(base as int, base + k)),
            decreases ch - k,
        {
            proof {
                let part = interleaved@.subrange(base as int, base + k + 1);
                assert(part.drop_last() =~= interleaved@.subrange(base as int, base + k));
                lemma_sample_sum_bounds(part);
                assert(-32768 * part.len() >= -32768 * 65535) by (nonlinear_arith)
                    requires
                        part.len() <= 65535,
                ;
                assert(32767 * part.len() <= 32767 * 65535) by (nonlinear_arith)
                    requires
                        part.len() <= 65535,
                ;
            }
            sum = sum + interleaved[base + k] as i32;
            k = k + 1;
        }
        let ghost frame = interleaved@.subrange(base as int, base + ch);
        proof {
            lemma_sample_sum_bounds(frame);
            assert(-32768 * frame.len() <= sample_sum(frame) <= 32767 * frame.len());
        }
        let chi: i32 = ch as i32;
        let mean: i32 = if sum >= 0 {
            sum / chi
        } else {
            -((-sum) / chi)
        };
        proof {
            assert(sample_sum(frame) == sum);
            assert(-32768 <= mean <= 32767) by (nonlinear_arith)
                requires
                    mean == div_toward_zero(sum as int, chi as int),
                    -32768 * chi <= sum <= 32767 * chi,
                    chi > 0,
            ;
        }
        out.push(mean as i16);
        f = f + 1;
    }
    assert(out@ =~= mixed_down(interleaved@, ch as int));
    out
}

/// Resamples a mono signal to `target_rate` and `channels` channels.
pub fn resample(mono: &Vec<i16>, source_rate: u32, target_rate: u32, channels: u16) -> (r: Vec<i16>)
    requires
        source_rate > 0,
        mono@.len() > 0,
        mono@.len() * target_rate + source_rate <= u64::MAX,
        resampled_frames(mono@.len() as int, source_rate as int, target_rate as int) * channels
            <= usize::MAX,
    ensures
        r@ == resampled(mono@, source_rate as int, target_rate as int, channels as int),
{
    let n: u64 = mono.len() as u64;
    let src: u64 = source_rate as u64;
    let dst: u64 = target_rate as u64;
    if dst == 0 {
        let empty: Vec<i16> = Vec::new();
        assert((n * dst + src - 1) / (src as int) == 0) by (nonlinear_arith)
            requires
                dst == 0,
                src > 0,
        ;
        assert(empty@ =~= resampled(mono@, src as int, dst as int, channels as int));
        return empty;
    }
    let frames: u64 = (n * dst + src - 1) / src;
    let ghost total: int = resampled_frames(mono@.len() as int, src as int, dst as int) * channels;
    let mut out: Vec<i16> = Vec::new();
    let mut k: u64 = 0;
    while k < frames
        invariant
            n == mono@.len(),
            n > 0,
            mono@.len() <= usize::MAX,
            src == source_rate,
            dst == target_rate,
            src > 0,
            dst > 0,
            n * dst + src <= u64::MAX,
            frames == resampled_frames(n as int, src as int, dst as int),
            total == frames * channels,
            total <= usize::MAX,
            total == resampled(mono@, src as int, dst as int, channels as int).len(),
            k <= frames,
            out@.len() == k * channels,
            forall|i: int|
                0 <= i < out@.len() ==> out@[i] == resampled(
                    mono@,
                    src as int,
                    dst as int,
                    channels as int,
                )[i],
        decreases frames - k,
    {
        assert(k * src <= n * dst) by (nonlinear_arith)
            requires
                k < frames,
                frames == (n * dst + src - 1) / (src as int),
                src > 0,
        ;
        let f: u64 = (k * src) / dst;
        let idx: usize = if f < n - 1 {
            f as usize
        } else {
            (n - 1) as usize
        };
        let sample = mono[idx];
        let mut c: u16 = 0;
        while c < channels
            invariant
                n == mono@.len(),
                k < frames,
                total == frames * channels,
                total <= usize::MAX,
                total == resampled(mono@, src as int, dst as int, channels as int).len(),
                idx == source_frame(k as int, src as int, dst as int, n as int),
                sample == mono@[idx as int],
                c <= channels,
                out@.len() == k * channels + c,
                forall|i: int|
                    0 <= i < out@.len() ==> out@[i] == resampled(
                        mono@,
                        src as int,
                        dst as int,
                        channels as int,
                    )[i],
            decreases channels - c,
        {
            let ghost i = k * channels + c;
            proof {
                assert(i < total) by (nonlinear_arith)
                    requires
                        i == k * channels + c,
                        c < channels,
                        k < frames,
                        total == frames * channels,
                ;
                assert(i / (channels as int) == k as int) by (nonlinear_arith)
                    requires
                        i == k * channels + c,
                        c < channels,
                        0 <= c,
                ;
            }
            let ghost before = out@;
            out.push(sample);
            proof {
                let target = resampled(mono@, src as int, dst as int, channels as int);
                assert(target[i] == mono@[source_frame(i / (channels as int), src as int, dst as int, n as int)]);
                assert(out@[i] == sample);
                assert forall|j: int| 0 <= j < out@.len() implies out@[j] == target[j] by {
                    if j < before.len() {
                        assert(out@[j] == before[j]);
                    }
                }
            }
            c = c + 1;
        }
        k = k + 1;
        proof {
            assert(out@.len() == k * channels) by (nonlinear_arith)
                requires
                    out@.len() == (k - 1) * channels + channels,
            ;
        }
    }
    proof {
        assert(out@.len() == total);
        assert(out@ =~= resampled(mono@, src as int, dst as int, channels as int));
    }
    out
}

/// Converts a recorded 16-bit PCM fixture to the microphone's format: mixed
/// down to mono, resampled, and duplicated into every channel. An empty
/// fixture gives no samples.
pub fn convert_fixture(
    interleaved: &Vec<i16>,
    is_16_bit_pcm: bool,
    source_channels: u16,
    source_rate: u32,
    target_channels: u16,
    target_rate: u32,
) -> (r: Result<Vec<i16>, String>)
    requires
        interleaved@.len() * target_rate + source_rate <= u64::MAX,
        source_channels > 0 && source_rate > 0 && target_channels > 0 ==> resampled_frames(
            (interleaved@.len() as int) / (source_channels as int),
            source_rate as int,
            target_rate as int,
        ) * target_channels <= usize::MAX,
    ensures
        !is_16_bit_pcm ==> (r matches Err(e) && e@ == "live-preview fixture must be 16-bit PCM"@),
        is_16_bit_pcm && (source_channels == 0 || source_rate == 0 || target_channels == 0) ==> (
        r matches Err(e) && e@ == "live-preview fixture has invalid audio metadata"@),
        is_16_bit_pcm && source_channels > 0 && source_rate > 0 && target_channels > 0 ==> (
        r matches Ok(v) && v@ == if mixed_down(interleaved@, source_channels as int).len() == 0 {
            Seq::<i16>::empty()
        } else {
            resampled(
                mixed_down(interleaved@, source_channels as int),
                source_rate as int,
                target_rate as int,
                target_channels as int,
            )
        }),
{
    if !is_16_bit_pcm {
        return Err("live-preview fixture must be 16-bit PCM".to_string());
    }
    if source_channels == 0 || source_rate == 0 || target_channels == 0 {
        return Err("live-preview fixture has invalid audio metadata".to_string());
    }
    let mono = mix_down(interleaved, source_channels);
    if mono.len() == 0 {
        let empty: Vec<i16> = Vec::new();
        assert(empty@ =~= Seq::<i16>::empty());
        return Ok(empty);
    }
    proof {
        assert(mono@.len() <= interleaved@.len()) by (nonlinear_arith)
            requires
                mono@.len() == (interleaved@.len() as int) / (source_channels as int),
                source_channels > 0,
        ;
        assert(mono@.len() * target_rate <= interleaved@.len() * target_rate) by (nonlinear_arith)
            requires
                mono@.len() <= interleaved@.len(),
        ;
    }
    Ok(resample(&mono, source_rate, target_rate, target_channels))
}

} // verus!
