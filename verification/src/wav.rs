//! Loading WAV clips: the byte-level container format is parsed by the
//! hound crate behind one trusted wrapper; format validation, the scaling
//! of the decoded samples to fixed point, and the construction of the
//! audio source are verified. A clip whose native rate differs from the
//! mixer's is handed back to the embedding for resampling, and returns
//! through [`clip_from_pcm`].

use vstd::prelude::*;

use crate::audio::{clip_frames, AudioData, AudioSource, Vec3Fx, NATIVE_RATE};
use crate::fx::{clamp_fx, spec_clamp, tdiv, UNIT};

verus! {

/// What the WAV container of a byte string declares — channel count,
/// sample rate, bits per sample — or nothing, when the bytes are not a
/// well-formed WAV file.
pub uninterp spec fn wav_header_of(bytes: Seq<u8>) -> Option<(u16, u32, u16)>;

/// The interleaved samples decoded from a WAV byte string.
pub uninterp spec fn wav_samples_of(bytes: Seq<u8>) -> Seq<i16>;

/// Relies on hound::WavReader: `new` parses the header of a WAV byte
/// string and fails on a malformed one, `spec` reports the header, and
/// `into_samples` decodes the sample data; all of them depend on the
/// bytes alone.
#[verifier::external_body]
fn decode_wav(bytes: &Vec<u8>) -> (r: Option<(u16, u32, u16, Vec<i16>)>)
    ensures
        r is Some <==> wav_header_of(bytes@) is Some,
        r matches Some(h) ==> wav_header_of(bytes@) == Some((h.0, h.1, h.2)) && h.3@
            == wav_samples_of(bytes@),
{
    match hound::WavReader::new(std::io::Cursor::new(bytes.as_slice())) {
        Ok(reader) => {
            let spec = reader.spec();
            let samples: Vec<i16> = reader.into_samples::<i16>().filter_map(Result::ok).collect();
            Some((spec.channels, spec.sample_rate, spec.bits_per_sample, samples))
        },
        Err(_) => None,
    }
}

/// Why loading a WAV clip failed.
#[derive(Clone, Copy, Debug, PartialEq, Eq, Structural)]
pub enum AudioLoadError {
    /// The bytes are not a well-formed WAV file.
    BadFile,
    /// Only 16-bit mono or stereo input is supported.
    UnsupportedFormat,
}

/// One decoded sample scaled from 16-bit PCM to fixed point, clamped to
/// one unit of full scale (the most negative PCM value would otherwise
/// land just beyond it).
pub open spec fn spec_pcm_fx(s: int) -> int {
    spec_clamp(tdiv(s * UNIT, 32767), -(UNIT as int), UNIT as int)
}

/// A whole PCM sample sequence scaled to fixed point.
pub open spec fn spec_fx_samples(raw: Seq<i16>) -> Seq<i32> {
    Seq::new(raw.len(), |i: int| spec_pcm_fx(raw[i] as int) as i32)
}

/// Scale 16-bit PCM samples to fixed point.
pub fn pcm_to_fx(raw: &Vec<i16>) -> (r: Vec<i32>)
    ensures
        r@ == spec_fx_samples(raw@),
        r@.len() == raw@.len(),
        forall|i: int| 0 <= i < r@.len() ==> -UNIT <= #[trigger] r@[i] <= UNIT,
{
    let mut r: Vec<i32> = Vec::new();
    let n = raw.len();
    let mut i: usize = 0;
    while i < n
        invariant
            i <= n,
            n == raw@.len(),
            r@.len() == i,
            forall|k: int| 0 <= k < i ==> #[trigger] r@[k] == spec_pcm_fx(raw@[k] as int) as i32,
            forall|k: int| 0 <= k < i ==> -UNIT <= #[trigger] r@[k] <= UNIT,
        decreases n - i,
    {
        let wide: i64 = (raw[i] as i64) * UNIT / 32767;
        let v: i64 = clamp_fx(wide, -UNIT, UNIT);
        r.push(v as i32);
        i = i + 1;
    }
    proof {
        assert(r@ =~= spec_fx_samples(raw@));
    }
    r
}

/// A stopped clip source at the origin over PCM samples: the samples
/// scaled to fixed point, the cursor at the start, the gains at zero.
pub fn clip_from_pcm(raw: &Vec<i16>, channels: usize, looping: bool) -> (r: AudioSource)
    requires
        channels == 1 || channels == 2,
    ensures
        r.wf(),
        (r.data matches AudioData::Clip { samples, channels: ch } && ch == channels && samples@
            == spec_fx_samples(raw@)),
        !r.playing,
        r.cursor == 0,
        r.looping == looping,
        r.positional,
        r.position == (Vec3Fx { x: 0, y: 0, z: 0 }),
        r.current_left_gain == 0 && r.current_right_gain == 0,
{
    let samples = pcm_to_fx(raw);
    AudioSource::new(
        Vec3Fx::zero(),
        AudioData::Clip { samples, channels },
        looping,
    )
}

/// Scaling to fixed point is one for one, so a mono clip built from
/// decoded samples holds exactly one frame per decoded sample: a clip
/// loaded at the native rate keeps the file's frame count.
pub proof fn lemma_mono_load_keeps_frames(raw: Seq<i16>)
    ensures
        clip_frames(spec_fx_samples(raw), 1) == raw.len(),
{
    assert(spec_fx_samples(raw).len() as int / 1 == raw.len() as int) by (nonlinear_arith)
        requires
            spec_fx_samples(raw).len() == raw.len(),
    ;
}

/// The outcome of loading a WAV clip: a ready source when the file is
/// already at the mixer's native rate, or the decoded samples with
/// their rate, for the embedding to resample and hand back through
/// [`clip_from_pcm`].
pub enum WavLoad {
    Ready(AudioSource),
    NeedsResample { samples: Vec<i16>, channels: usize, rate: u32 },
}

impl AudioSource {
    /// Load a WAV clip from bytes: reject anything but 16-bit mono or
    /// stereo; at the native rate, build the source; at any other rate,
    /// hand the decoded samples back for resampling.
    pub fn from_wav(bytes: &Vec<u8>, looping: bool) -> (r: Result<WavLoad, AudioLoadError>)
    ensures
        r == Err::<WavLoad, AudioLoadError>(AudioLoadError::BadFile) <==> wav_header_of(bytes@)
            is None,
        wav_header_of(bytes@) matches Some(h) ==> {
            &&& (r == Err::<WavLoad, AudioLoadError>(AudioLoadError::UnsupportedFormat) <==> !(
            h.2 == 16 && (h.0 == 1 || h.0 == 2)))
            &&& (h.2 == 16 && (h.0 == 1 || h.0 == 2) && h.1 == NATIVE_RATE ==> (r matches Ok(
                WavLoad::Ready(src),
            ) && {
                &&& src.wf()
                &&& (src.data matches AudioData::Clip { samples, channels } && channels == h.0
                    as usize && samples@ == spec_fx_samples(wav_samples_of(bytes@)))
                &&& !src.playing
                &&& src.cursor == 0
                &&& src.looping == looping
                &&& src.positional
            }))
            &&& (h.2 == 16 && (h.0 == 1 || h.0 == 2) && h.1 != NATIVE_RATE ==> (r matches Ok(
                WavLoad::NeedsResample { samples, channels, rate },
            ) && samples@ == wav_samples_of(bytes@) && channels == h.0 as usize && rate == h.1))
        },
    {
        match decode_wav(bytes) {
            None => Err(AudioLoadError::BadFile),
            Some((channels, rate, bits, samples)) => {
                if !(bits == 16 && (channels == 1 || channels == 2)) {
                    Err(AudioLoadError::UnsupportedFormat)
                } else if rate == NATIVE_RATE {
                    Ok(WavLoad::Ready(clip_from_pcm(&samples, channels as usize, looping)))
                } else {
                    Ok(WavLoad::NeedsResample { samples, channels: channels as usize, rate })
                }
            },
        }
    }
}

} // verus!
