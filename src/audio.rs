use vstd::prelude::*;

use crate::error::{Error, ErrorKind};

verus! {

/// The largest magnitude of a signed 16-bit sample; dividing by it maps a
/// sample into the range [-1, 1).
pub const SAMPLE_SCALE: u32 = 32768;

/// How a container stores its samples.
#[derive(Clone, Copy, Debug, PartialEq, Eq, Structural)]
pub enum SampleFormat {
    Int,
    Float,
}

/// What a waveform container's header declares.
#[derive(Clone, Copy, Debug, PartialEq, Eq, Structural)]
pub struct AudioFormat {
    pub channels: u16,
    pub sample_rate: u32,
    pub bits_per_sample: u16,
    pub sample_format: SampleFormat,
}

/// Signed 16-bit samples as read from a container, interleaved by channel.
pub struct AudioClip {
    pub samples: Vec<i16>,
    pub channels: u16,
    pub sample_rate: u32,
}

/// The only encoding the pipeline accepts: linear 16-bit integer PCM with
/// at least one channel.
pub open spec fn format_supported(f: AudioFormat) -> bool {
    f.sample_format == SampleFormat::Int && f.bits_per_sample == 16 && f.channels >= 1
}

/// A sample count fits a layout of `channels` interleaved channels.
pub open spec fn layout_fits(len: int, channels: int) -> bool {
    channels > 0 && len % channels == 0
}

/// The sum of the first `c` channel samples of frame `k`.
pub open spec fn frame_sum(s: Seq<i16>, channels: int, k: int, c: int) -> int
    decreases c,
{
    if c <= 0 {
        0
    } else {
        frame_sum(s, channels, k, c - 1) + s[k * channels + c - 1] as int
    }
}

/// For each frame, the sum of its channel samples.
pub open spec fn frame_sums(s: Seq<i16>, channels: int) -> Seq<int> {
    Seq::new((s.len() as int / channels) as nat, |k: int| frame_sum(s, channels, k, channels))
}

/// Mono audio passes through the downmix unchanged: one frame per sample,
/// each frame's value being its sample.
pub proof fn lemma_mono_downmix_is_identity(s: Seq<i16>)
    ensures
        frame_sums(s, 1) == s.map_values(|x: i16| x as int),
{
    assert forall|k: int| 0 <= k < s.len() implies #[trigger] frame_sums(s, 1)[k] == s[k] as int by {
        assert(frame_sum(s, 1, k, 1) == frame_sum(s, 1, k, 0) + s[k * 1 + 1 - 1] as int);
    }
    assert(frame_sums(s, 1) =~= s.map_values(|x: i16| x as int));
}

/// Accepts a container header only when it declares 16-bit integer PCM.
pub fn check_format(format: &AudioFormat) -> (r: Result<(), Error>)
    ensures
        r is Ok <==> format_supported(*format),
        r matches Err(e) ==> e.kind == ErrorKind::Format,
{
    if format.sample_format != SampleFormat::Int {
        return Err(Error::with_kind(ErrorKind::Format, "unsupported sample format: expected integer PCM"));
    }
    if format.bits_per_sample != 16 {
        return Err(Error::with_kind(ErrorKind::Format, "unsupported sample depth: expected 16 bits"));
    }
    if format.channels == 0 {
        return Err(Error::with_kind(ErrorKind::Format, "container declares no channels"));
    }
    Ok(())
}

/// The number of frames in `len` interleaved samples of `channels` channels.
pub fn frame_count(len: usize, channels: u16) -> (r: Result<usize, Error>)
    ensures
        r is Ok <==> layout_fits(len as int, channels as int),
        r matches Ok(n) ==> n == len as int / channels as int,
        r matches Err(e) ==> e.kind == ErrorKind::Conversion,
{
    let ch = channels as usize;
    if ch == 0 || len % ch != 0 {
        return Err(Error::with_kind(ErrorKind::Conversion, "sample count does not fit the channel layout"));
    }
    Ok(len / ch)
}

proof fn lemma_frame_sum_bounds(s: Seq<i16>, channels: int, k: int, c: int)
    requires
        0 <= c <= channels,
        0 <= k,
        (k + 1) * channels <= s.len(),
    ensures
        -32768 * c <= frame_sum(s, channels, k, c) <= 32767 * c,
    decreases c,
{
    if c > 0 {
        lemma_frame_sum_bounds(s, channels, k, c - 1);
        assert(k * channels + c - 1 < (k + 1) * channels) by (nonlinear_arith)
            requires c <= channels;
    }
}

/// Mixes a clip down to one channel: one value per frame, the sum of the
/// frame's channel samples. Dividing each value by `SAMPLE_SCALE` times the
/// channel count gives the frame's average sample in [-1, 1).
pub fn downmix(clip: &AudioClip) -> (r: Result<Vec<i32>, Error>)
    ensures
        r is Ok <==> layout_fits(clip.samples@.len() as int, clip.channels as int),
        r matches Ok(v) ==> v@.len() == clip.samples@.len() as int / (clip.channels as int)
            && v@.map_values(|x: i32| x as int) == frame_sums(clip.samples@, clip.channels as int),
        r matches Err(e) ==> e.kind == ErrorKind::Conversion,
{
    let frames = match frame_count(clip.samples.len(), clip.channels) {
        Ok(n) => n,
        Err(e) => return Err(e),
    };
    let ch = clip.channels as usize;
    let ghost s = clip.samples@;
    let len = clip.samples.len();
    assert(frames * ch == len) by (nonlinear_arith)
        requires frames == len as int / ch as int, len as int % ch as int == 0, ch > 0;
    let mut out: Vec<i32> = Vec::with_capacity(frames);
    let mut k: usize = 0;
    while k < frames
        invariant
            s == clip.samples@,
            len == s.len(),
            ch == clip.channels as usize,
            1 <= ch <= 65535,
            frames * ch == len,
            k <= frames,
            out@.len() == k,
            forall|j: int| 0 <= j < k ==> out@[j] as int == #[trigger] frame_sum(s, ch as int, j, ch as int),
        decreases frames - k,
    {
        assert((k + 1) * ch <= frames * ch) by (nonlinear_arith)
            requires k < frames;
        assert(k * ch + ch == (k + 1) * ch) by (nonlinear_arith);
        let base = k * ch;
        let mut acc: i32 = 0;
        let mut c: usize = 0;
        while c < ch
            invariant
                s == clip.samples@,
                len == s.len(),
                1 <= ch <= 65535,
                base == k * ch,
                (k + 1) * ch <= len,
                base + ch <= len,
                c <= ch,
                acc as int == frame_sum(s, ch as int, k as int, c as int),
            decreases ch - c,
        {
            proof {
                lemma_frame_sum_bounds(s, ch as int, k as int, c as int + 1);
            }
            acc = acc + clip.samples[base + c] as i32;
            c = c + 1;
        }
        out.push(acc);
        k = k + 1;
    }
    proof {
        assert(frames == len as int / ch as int);
        assert(out@.map_values(|x: i32| x as int) =~= frame_sums(s, ch as int));
    }
    Ok(out)
}

} // verus!
