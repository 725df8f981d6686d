//! Conversion of interleaved multi-channel audio at any rate into the
//! canonical 16 kHz mono layout, expressed as an exact integer plan.
//!
//! The plan says which captured frames each output sample is made of and
//! with what weight; blending the sample values themselves is left to the
//! caller, which holds them as floating-point numbers.
use vstd::prelude::*;

verus! {

/// The canonical sample rate every backend consumes.
pub const TARGET_RATE: u32 = 16000;

/// Number of complete frames in `len` interleaved samples of `channels`
/// channels (a trailing partial frame is dropped).
pub open spec fn frames_of(len: int, channels: int) -> int {
    len / channels
}

/// Output length of linear resampling of `frames` mono samples from
/// `rate` to the canonical rate: floor(frames * 16000 / rate).
pub open spec fn resampled_len_of(frames: int, rate: int) -> int {
    frames * 16000 / rate
}

/// Number of canonical samples produced from `len` interleaved samples of
/// `channels` channels captured at `rate`.
pub open spec fn canonical_len_of(len: int, rate: int, channels: int) -> int {
    if len == 0 {
        0
    } else if rate == 16000 {
        frames_of(len, channels)
    } else {
        resampled_len_of(frames_of(len, channels), rate)
    }
}

/// Source frame that output sample `i` starts from.
pub open spec fn source_index_of(i: int, rate: int) -> int {
    i * rate / 16000
}

/// Weight, in sixteen-thousandths, of the successor frame for output sample `i`.
pub open spec fn source_frac_of(i: int, rate: int) -> int {
    i * rate % 16000
}

/// One output sample of the linear interpolation: frame `index` blended
/// with frame `index + 1` by `frac / 16000` when that successor exists,
/// frame `index` alone otherwise.
#[derive(Clone, Copy, Debug, PartialEq, Eq)]
pub struct Tap {
    pub index: usize,
    pub frac: u32,
    pub blend: bool,
}

/// How a captured buffer becomes canonical audio.
#[derive(Debug)]
pub struct ResamplePlan {
    /// Number of mono frames after the channel mixdown.
    pub frames: usize,
    /// Channels averaged into each frame.
    pub channels: u16,
    /// The source is already at the canonical rate: the mono frames are the output.
    pub passthrough: bool,
    /// One entry per output sample when not passing through.
    pub taps: Vec<Tap>,
}

impl ResamplePlan {
    /// Number of samples the plan produces.
    pub open spec fn output_len(&self) -> int {
        if self.passthrough {
            self.frames as int
        } else {
            self.taps@.len() as int
        }
    }
}

/// The taps that linear interpolation of `frames` samples at `rate` uses.
pub open spec fn taps_match(taps: Seq<Tap>, frames: int, rate: int) -> bool {
    &&& taps.len() == resampled_len_of(frames, rate)
    &&& forall|i: int|
        0 <= i < taps.len() ==> {
            &&& #[trigger] taps[i].index == source_index_of(i, rate)
            &&& taps[i].frac == source_frac_of(i, rate)
            &&& taps[i].blend == (source_index_of(i, rate) + 1 < frames)
        }
}

/// Number of complete frames in an interleaved buffer.
pub fn mono_frame_count(len: usize, channels: u16) -> (r: usize)
    requires
        channels > 0,
    ensures
        r == frames_of(len as int, channels as int),
{
    len / (channels as usize)
}

/// Length of the resampled output for `frames` mono samples at `source_rate`.
pub fn resampled_len(frames: usize, source_rate: u32) -> (r: usize)
    requires
        source_rate > 0,
        resampled_len_of(frames as int, source_rate as int) <= usize::MAX,
    ensures
        r == resampled_len_of(frames as int, source_rate as int),
{
    let wide: u128 = (frames as u128) * 16000u128 / (source_rate as u128);
    wide as usize
}

proof fn lemma_tap_in_range(i: int, frames: int, rate: int)
    requires
        0 <= i < resampled_len_of(frames, rate),
        frames >= 0,
        rate > 0,
    ensures
        i * rate < frames * 16000,
        0 <= source_index_of(i, rate) < frames,
        0 <= source_frac_of(i, rate) < 16000,
{
    let q = frames * 16000 / rate;
    assert(q * rate <= frames * 16000) by (nonlinear_arith)
        requires
            q == frames * 16000 / rate,
            rate > 0,
            frames >= 0,
    ;
    assert(i * rate < q * rate) by (nonlinear_arith)
        requires
            i < q,
            rate > 0,
    ;
    assert(0 <= i * rate) by (nonlinear_arith)
        requires
            0 <= i,
            rate > 0,
    ;
    assert(i * rate / 16000 < frames) by (nonlinear_arith)
        requires
            i * rate < frames * 16000,
    ;
}

/// The interpolation taps for `frames` mono samples captured at `source_rate`.
pub fn interpolation_taps(frames: usize, source_rate: u32) -> (taps: Vec<Tap>)
    requires
        source_rate > 0,
        resampled_len_of(frames as int, source_rate as int) <= usize::MAX,
    ensures
        taps_match(taps@, frames as int, source_rate as int),
{
    let out_len = resampled_len(frames, source_rate);
    let mut taps: Vec<Tap> = Vec::with_capacity(out_len);
    let mut i: usize = 0;
    while i < out_len
        invariant
            source_rate > 0,
            out_len == resampled_len_of(frames as int, source_rate as int),
            i <= out_len,
            taps@.len() == i,
            forall|k: int|
                0 <= k < i ==> {
                    &&& #[trigger] taps@[k].index == source_index_of(k, source_rate as int)
                    &&& taps@[k].frac == source_frac_of(k, source_rate as int)
                    &&& taps@[k].blend == (source_index_of(k, source_rate as int) + 1 < frames)
                },
        decreases out_len - i,
    {
        proof {
            lemma_tap_in_range(i as int, frames as int, source_rate as int);
        }
        let pos: u128 = (i as u128) * (source_rate as u128);
        let index: usize = (pos / 16000) as usize;
        let frac: u32 = (pos % 16000) as u32;
        let blend: bool = index < frames - 1;
        taps.push(Tap { index, frac, blend });
        i = i + 1;
    }
    taps
}

/// Plans the conversion of `len` interleaved samples with `channels`
/// channels at `source_rate` into canonical 16 kHz mono audio: channels
/// are averaged per complete frame, then the frames pass through unchanged
/// at 16 kHz or are linearly interpolated otherwise.
pub fn resample_plan(len: usize, source_rate: u32, channels: u16) -> (plan: ResamplePlan)
    requires
        len > 0 ==> channels > 0 && source_rate > 0,
        len > 0 ==> resampled_len_of(frames_of(len as int, channels as int), source_rate as int)
            <= usize::MAX,
    ensures
        len == 0 ==> plan.output_len() == 0,
        len > 0 ==> plan.frames == frames_of(len as int, channels as int),
        plan.channels == channels,
        plan.output_len() == canonical_len_of(len as int, source_rate as int, channels as int),
        plan.passthrough == (len > 0 && source_rate == TARGET_RATE),
        len > 0 && !plan.passthrough ==> taps_match(plan.taps@, plan.frames as int, source_rate as int),
{
    if len == 0 {
        return ResamplePlan { frames: 0, channels, passthrough: false, taps: Vec::new() };
    }
    let frames = mono_frame_count(len, channels);
    if source_rate == TARGET_RATE {
        return ResamplePlan { frames, channels, passthrough: true, taps: Vec::new() };
    }
    let taps = interpolation_taps(frames, source_rate);
    ResamplePlan { frames, channels, passthrough: false, taps }
}

/// Mixing down and passing through at 16 kHz keeps one sample per frame:
/// `n` samples of `c` channels, `n` a multiple of `c`, give `n / c` samples.
pub proof fn lemma_passthrough_keeps_frames(n: int, c: int)
    requires
        n >= 0,
        c > 0,
        n % c == 0,
    ensures
        canonical_len_of(n, 16000, c) == n / c,
        canonical_len_of(n, 16000, c) * c == n,
{
    assert((n / c) * c == n) by (nonlinear_arith)
        requires
            c > 0,
            n % c == 0,
    ;
}

/// An empty capture gives empty canonical audio, whatever its rate and channel count.
pub proof fn lemma_empty_stays_empty(rate: int, channels: int)
    ensures
        canonical_len_of(0, rate, channels) == 0,
{
}

/// The resampled length is within one sample of the exact ratio
/// `frames * 16000 / rate`: it is the largest `m` with `m * rate <= frames * 16000`.
pub proof fn lemma_resampled_len_within_one(frames: int, rate: int)
    requires
        frames >= 0,
        rate > 0,
    ensures
        resampled_len_of(frames, rate) * rate <= frames * 16000,
        frames * 16000 < (resampled_len_of(frames, rate) + 1) * rate,
{
    let q = frames * 16000 / rate;
    assert(q * rate <= frames * 16000 < (q + 1) * rate) by (nonlinear_arith)
        requires
            q == frames * 16000 / rate,
            rate > 0,
            frames >= 0,
    ;
}

} // verus!
