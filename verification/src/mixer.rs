//! The real-time mixer: for every output buffer it steers each playing
//! source's stereo gains linearly toward their spatial targets, synthesizes
//! or reads one sample per frame, advances cursors and phase accumulators,
//! and sums everything into the interleaved output.
//!
//! The exact per-frame behaviour is captured by the ghost state machine
//! [`MixCursor`] with one step function per source kind; the executable
//! code is proved to trace it.

use vstd::prelude::*;

use crate::audio::{
    clip_frames, spec_target_gains, target_gains, AudioData, AudioSource, ListenerState, Vec3Fx,
};
use crate::fx::{clamp_fx, mul_fx, spec_clamp, spec_sine, tdiv, TWO_PI_FX, UNIT};

verus! {

/// Bound on how many sources one callback mixes, so that the additive
/// sums stay far from the integer limits.
pub const MAX_SOURCES: usize = 0x10000;

/// The per-source mixing state while a buffer is filled: the output so
/// far, the clip cursor, the playing flag, the interpolated gains, and
/// the tone phase.
pub ghost struct MixCursor {
    pub out: Seq<i64>,
    pub cursor: nat,
    pub playing: bool,
    pub lg: int,
    pub rg: int,
    pub phase: int,
}

/// The stereo sample pair a clip yields at frame `f`: mono clips play on
/// both channels; positional stereo clips are averaged down to mono;
/// non-positional stereo clips keep their channels apart.
pub open spec fn frame_samples(
    samples: Seq<i32>,
    channels: nat,
    positional: bool,
    f: nat,
) -> (int, int) {
    if channels == 1 {
        (samples[f as int] as int, samples[f as int] as int)
    } else {
        let l = samples[2 * f as int] as int;
        let r = samples[2 * f as int + 1] as int;
        if positional {
            let m = tdiv(l + r, 2);
            (m, m)
        } else {
            (l, r)
        }
    }
}

/// One frame of clip playback at frame index `i` of the buffer: advance
/// the gains by one step, read the frame under the cursor (wrapping to
/// the start when looping), mix it in, and advance the cursor; at the
/// end of a non-looping clip, stop instead.
pub open spec fn clip_step(
    samples: Seq<i32>,
    channels: nat,
    positional: bool,
    looping: bool,
    lstep: int,
    rstep: int,
    st: MixCursor,
    i: nat,
) -> MixCursor {
    if !st.playing {
        st
    } else {
        let fa = clip_frames(samples, channels);
        let lg2 = spec_clamp(st.lg + lstep, 0, UNIT as int);
        let rg2 = spec_clamp(st.rg + rstep, 0, UNIT as int);
        if st.cursor < fa || (looping && fa > 0) {
            let f: nat = if st.cursor < fa {
                st.cursor
            } else {
                0
            };
            let (sl, sr) = frame_samples(samples, channels, positional, f);
            let out2 = st.out.update(
                2 * i as int,
                (st.out[2 * i as int] + tdiv(sl * lg2, UNIT as int)) as i64,
            ).update(
                2 * i as int + 1,
                (st.out[2 * i as int + 1] + tdiv(sr * rg2, UNIT as int)) as i64,
            );
            let c2: nat = if st.cursor + 1 < fa {
                st.cursor + 1
            } else if looping && fa > 0 {
                0
            } else {
                fa
            };
            MixCursor { out: out2, cursor: c2, playing: true, lg: lg2, rg: rg2, phase: st.phase }
        } else {
            MixCursor { playing: false, lg: lg2, rg: rg2, ..st }
        }
    }
}

/// `n` frames of clip playback, frame by frame.
pub open spec fn clip_mix(
    samples: Seq<i32>,
    channels: nat,
    positional: bool,
    looping: bool,
    lstep: int,
    rstep: int,
    st0: MixCursor,
    n: nat,
) -> MixCursor
    decreases n,
{
    if n == 0 {
        st0
    } else {
        clip_step(
            samples,
            channels,
            positional,
            looping,
            lstep,
            rstep,
            clip_mix(samples, channels, positional, looping, lstep, rstep, st0, (n - 1) as nat),
            (n - 1) as nat,
        )
    }
}

/// The per-frame phase advance of a tone of fixed-point frequency `freq`.
pub open spec fn tone_inc(freq: int) -> int {
    freq * (TWO_PI_FX as int) / (UNIT as int) / 44100
}

/// One frame of tone synthesis at frame index `i`: advance the gains,
/// advance and wrap the phase, and mix the sample (at half scale) into
/// both channels.
pub open spec fn tone_step(inc: int, lstep: int, rstep: int, st: MixCursor, i: nat) -> MixCursor {
    let lg2 = spec_clamp(st.lg + lstep, 0, UNIT as int);
    let rg2 = spec_clamp(st.rg + rstep, 0, UNIT as int);
    let ph2 = (st.phase + inc) % (TWO_PI_FX as int);
    let sample = tdiv(spec_sine(ph2), 2);
    let out2 = st.out.update(
        2 * i as int,
        (st.out[2 * i as int] + tdiv(sample * lg2, UNIT as int)) as i64,
    ).update(
        2 * i as int + 1,
        (st.out[2 * i as int + 1] + tdiv(sample * rg2, UNIT as int)) as i64,
    );
    MixCursor { out: out2, phase: ph2, lg: lg2, rg: rg2, ..st }
}

/// `n` frames of tone synthesis, frame by frame.
pub open spec fn tone_mix(inc: int, lstep: int, rstep: int, st0: MixCursor, n: nat) -> MixCursor
    decreases n,
{
    if n == 0 {
        st0
    } else {
        tone_step(inc, lstep, rstep, tone_mix(inc, lstep, rstep, st0, (n - 1) as nat), (n - 1) as nat)
    }
}

/// The per-frame gain step toward a target over `frames` frames.
pub open spec fn spec_gain_step(target: int, current: int, frames: nat) -> int {
    if frames > 0 {
        tdiv(target - current, frames as int)
    } else {
        0
    }
}

/// The initial mixing state for a source over a buffer.
pub open spec fn spec_mix_start(src: AudioSource, out: Seq<i64>) -> MixCursor {
    MixCursor {
        out,
        cursor: src.cursor as nat,
        playing: true,
        lg: src.current_left_gain as int,
        rg: src.current_right_gain as int,
        phase: match src.data {
            AudioData::Sine { phase, .. } => phase as int,
            _ => 0,
        },
    }
}

/// What mixing one source over a buffer does: nothing for a stopped
/// source; otherwise the frame-by-frame trace, with the stored gains
/// snapped to the targets afterwards so the next callback continues
/// from them.
pub open spec fn spec_mix_source(src: AudioSource, listener: ListenerState, out: Seq<i64>) -> (
    AudioSource,
    Seq<i64>,
) {
    if !src.playing {
        (src, out)
    } else {
        let frames = out.len() / 2;
        let (tl, tr) = spec_target_gains(src, listener);
        let ls = spec_gain_step(tl, src.current_left_gain as int, frames);
        let rs = spec_gain_step(tr, src.current_right_gain as int, frames);
        let st0 = spec_mix_start(src, out);
        match src.data {
            AudioData::Clip { samples, channels } => {
                let stn = clip_mix(
                    samples@,
                    channels as nat,
                    src.positional,
                    src.looping,
                    ls,
                    rs,
                    st0,
                    frames,
                );
                (
                    AudioSource {
                        cursor: stn.cursor as usize,
                        playing: stn.playing,
                        current_left_gain: tl as i64,
                        current_right_gain: tr as i64,
                        ..src
                    },
                    stn.out,
                )
            },
            AudioData::Sine { freq, phase } => {
                let stn = tone_mix(tone_inc(freq as int), ls, rs, st0, frames);
                (
                    AudioSource {
                        data: AudioData::Sine { freq, phase: stn.phase as i64 },
                        current_left_gain: tl as i64,
                        current_right_gain: tr as i64,
                        ..src
                    },
                    stn.out,
                )
            },
        }
    }
}

/// Once a source has stopped, further frames leave the state untouched.
proof fn lemma_clip_mix_stopped(
    samples: Seq<i32>,
    channels: nat,
    positional: bool,
    looping: bool,
    lstep: int,
    rstep: int,
    st0: MixCursor,
    i: nat,
    n: nat,
)
    requires
        i <= n,
        !clip_mix(samples, channels, positional, looping, lstep, rstep, st0, i).playing,
    ensures
        clip_mix(samples, channels, positional, looping, lstep, rstep, st0, n) == clip_mix(
            samples,
            channels,
            positional,
            looping,
            lstep,
            rstep,
            st0,
            i,
        ),
    decreases n - i,
{
    if n > i {
        lemma_clip_mix_stopped(
            samples,
            channels,
            positional,
            looping,
            lstep,
            rstep,
            st0,
            i,
            (n - 1) as nat,
        );
    }
}

/// Mix one source into the buffer and hand back its advanced state.
#[verifier::rlimit(90)]
pub fn mix_source(src: AudioSource, listener: &ListenerState, out: &mut Vec<i64>) -> (r:
    AudioSource)
    requires
        src.wf(),
        listener.wf(),
        old(out).len() % 2 == 0,
        forall|j: int|
            0 <= j < old(out).len() ==> -0x4000_0000_0000_0000 <= #[trigger] old(out)[j]
                <= 0x4000_0000_0000_0000,
    ensures
        (r, final(out)@) == spec_mix_source(src, *listener, old(out)@),
        r.wf(),
        final(out)@.len() == old(out)@.len(),
        forall|j: int|
            0 <= j < final(out)@.len() ==> old(out)@[j] - UNIT <= #[trigger] final(out)@[j]
                <= old(out)@[j] + UNIT,
{
    if !src.playing {
        return src;
    }
    let frames: usize = out.len() / 2;
    proof {
        lemma_double_half(out@.len() as int, 2);
        assert(out@.len() <= 0xffff_ffff_ffff_ffff);
        assert(out@.len() as int / 2 < 0x8000_0000_0000_0000) by (nonlinear_arith)
            requires
                0 <= out@.len() <= 0xffff_ffff_ffff_ffff,
        ;
    }
    let (tl, tr) = target_gains(&src, listener);
    let lstep: i64 = if frames > 0 {
        (tl - src.current_left_gain) / (frames as i64)
    } else {
        0
    };
    let rstep: i64 = if frames > 0 {
        (tr - src.current_right_gain) / (frames as i64)
    } else {
        0
    };
    proof {
        lemma_step_bounded(tl as int, src.current_left_gain as int, frames as nat);
        lemma_step_bounded(tr as int, src.current_right_gain as int, frames as nat);
    }
    let ghost st0 = spec_mix_start(src, out@);
    let AudioSource {
        position,
        data,
        looping,
        playing: _,
        cursor: cursor0,
        current_left_gain,
        current_right_gain,
        positional,
    } = src;
    match data {
        AudioData::Clip { samples, channels } => {
            let ch: usize = channels;
            let slen: usize = samples.len();
            let frames_avail: usize = slen / ch;
            let ghost gsamples = samples@;
            let mut lg: i64 = current_left_gain;
            let mut rg: i64 = current_right_gain;
            let mut cursor: usize = cursor0;
            let mut playing: bool = true;
            let mut i: usize = 0;
            proof {
                assert(clip_frames(gsamples, ch as nat) == frames_avail);
                if ch == 1 {
                    assert(gsamples.len() as int / 1 == gsamples.len() as int) by (nonlinear_arith);
                } else {
                    assert(2 * (gsamples.len() as int / 2) <= gsamples.len() as int)
                        by (nonlinear_arith);
                }
            }
            while i < frames && playing
                invariant
                    i <= frames,
                    frames == old(out).len() / 2,
                    2 * frames <= old(out).len(),
                    out@.len() == old(out).len(),
                    (ch == 1 || ch == 2),
                    samples@ == gsamples,
                    gsamples.len() == slen,
                    frames_avail == clip_frames(gsamples, ch as nat),
                    ch == 1 ==> frames_avail == slen,
                    ch == 2 ==> 2 * frames_avail <= slen,
                    forall|k: int|
                        0 <= k < gsamples.len() ==> -UNIT <= #[trigger] gsamples[k] <= UNIT,
                    -UNIT <= lstep <= UNIT,
                    -UNIT <= rstep <= UNIT,
                    0 <= lg <= UNIT,
                    0 <= rg <= UNIT,
                    (MixCursor {
                        out: out@,
                        cursor: cursor as nat,
                        playing,
                        lg: lg as int,
                        rg: rg as int,
                        phase: st0.phase,
                    }) == clip_mix(
                        gsamples,
                        ch as nat,
                        positional,
                        looping,
                        lstep as int,
                        rstep as int,
                        st0,
                        i as nat,
                    ),
                    forall|j: int|
                        0 <= j < old(out).len() ==> -0x4000_0000_0000_0000 <= #[trigger] old(
                            out,
                        )[j] <= 0x4000_0000_0000_0000,
                    forall|j: int|
                        0 <= j < out@.len() ==> old(out)[j] - UNIT <= #[trigger] out@[j]
                            <= old(out)[j] + UNIT,
                    forall|j: int|
                        2 * i <= j < out@.len() ==> #[trigger] out@[j] == old(out)[j],
                decreases frames - i,
            {
                let ghost sti = clip_mix(
                    gsamples,
                    ch as nat,
                    positional,
                    looping,
                    lstep as int,
                    rstep as int,
                    st0,
                    i as nat,
                );
                let lg2 = clamp_fx(lg + lstep, 0, UNIT);
                let rg2 = clamp_fx(rg + rstep, 0, UNIT);
                if cursor < frames_avail || (looping && frames_avail > 0) {
                    let f: usize = if cursor < frames_avail {
                        cursor
                    } else {
                        0
                    };
                    proof {
                        assert(f < frames_avail);
                        if ch != 1 {
                            assert(2 * (f as int) + 1 < gsamples.len());
                        }
                    }
                    let (sl, sr): (i64, i64) = if ch == 1 {
                        let s = samples[f] as i64;
                        (s, s)
                    } else {
                        let l = samples[2 * f] as i64;
                        let r = samples[2 * f + 1] as i64;
                        if positional {
                            let m = (l + r) / 2;
                            proof {
                                assert(-UNIT <= m <= UNIT);
                            }
                            (m, m)
                        } else {
                            (l, r)
                        }
                    };
                    let cl = mul_fx(sl, lg2);
                    let cr = mul_fx(sr, rg2);
                    proof {
                        lemma_contrib_bounded(sl as int, lg2 as int);
                        lemma_contrib_bounded(sr as int, rg2 as int);
                    }
                    let a = out[2 * i];
                    out[2 * i] = a + cl;
                    let b = out[2 * i + 1];
                    out[2 * i + 1] = b + cr;
                    cursor = if cursor < frames_avail && cursor + 1 < frames_avail {
                        cursor + 1
                    } else if looping && frames_avail > 0 {
                        0
                    } else {
                        frames_avail
                    };
                } else {
                    playing = false;
                }
                lg = lg2;
                rg = rg2;
                proof {
                    assert(clip_mix(
                        gsamples,
                        ch as nat,
                        positional,
                        looping,
                        lstep as int,
                        rstep as int,
                        st0,
                        (i + 1) as nat,
                    ) == clip_step(
                        gsamples,
                        ch as nat,
                        positional,
                        looping,
                        lstep as int,
                        rstep as int,
                        sti,
                        i as nat,
                    ));
                }
                i = i + 1;
            }
            proof {
                if !playing {
                    lemma_clip_mix_stopped(
                        gsamples,
                        ch as nat,
                        positional,
                        looping,
                        lstep as int,
                        rstep as int,
                        st0,
                        i as nat,
                        frames as nat,
                    );
                }
            }
            AudioSource {
                position,
                data: AudioData::Clip { samples, channels },
                looping,
                playing,
                cursor,
                current_left_gain: tl,
                current_right_gain: tr,
                positional,
            }
        },
        AudioData::Sine { freq, phase } => {
            proof {
                assert(0 <= (freq as int) * (TWO_PI_FX as int) / (UNIT as int) / 44100
                    <= TWO_PI_FX as int) by (nonlinear_arith)
                    requires
                        0 <= freq <= 22050 * 65536,
                        TWO_PI_FX == 411774,
                        UNIT == 65536,
                ;
            }
            let inc: i64 = freq * TWO_PI_FX / UNIT / 44100;
            let mut lg: i64 = current_left_gain;
            let mut rg: i64 = current_right_gain;
            let mut ph: i64 = phase;
            let mut i: usize = 0;
            while i < frames
                invariant
                    i <= frames,
                    frames == old(out).len() / 2,
                    2 * frames <= old(out).len(),
                    out@.len() == old(out).len(),
                    0 <= inc <= TWO_PI_FX,
                    inc == tone_inc(freq as int),
                    0 <= freq <= crate::audio::MAX_FREQ_FX,
                    -UNIT <= lstep <= UNIT,
                    -UNIT <= rstep <= UNIT,
                    0 <= lg <= UNIT,
                    0 <= rg <= UNIT,
                    0 <= ph < TWO_PI_FX,
                    (MixCursor {
                        out: out@,
                        cursor: st0.cursor,
                        playing: true,
                        lg: lg as int,
                        rg: rg as int,
                        phase: ph as int,
                    }) == tone_mix(inc as int, lstep as int, rstep as int, st0, i as nat),
                    forall|j: int|
                        0 <= j < old(out).len() ==> -0x4000_0000_0000_0000 <= #[trigger] old(
                            out,
                        )[j] <= 0x4000_0000_0000_0000,
                    forall|j: int|
                        0 <= j < out@.len() ==> old(out)[j] - UNIT <= #[trigger] out@[j]
                            <= old(out)[j] + UNIT,
                    forall|j: int|
                        2 * i <= j < out@.len() ==> #[trigger] out@[j] == old(out)[j],
                decreases frames - i,
            {
                let ghost sti = tone_mix(inc as int, lstep as int, rstep as int, st0, i as nat);
                let lg2 = clamp_fx(lg + lstep, 0, UNIT);
                let rg2 = clamp_fx(rg + rstep, 0, UNIT);
                let ph2: i64 = (ph + inc) % TWO_PI_FX;
                let s: i64 = crate::fx::sine_fx(ph2) / 2;
                let cl = mul_fx(s, lg2);
                let cr = mul_fx(s, rg2);
                proof {
                    lemma_contrib_bounded(s as int, lg2 as int);
                    lemma_contrib_bounded(s as int, rg2 as int);
                }
                let a = out[2 * i];
                out[2 * i] = a + cl;
                let b = out[2 * i + 1];
                out[2 * i + 1] = b + cr;
                lg = lg2;
                rg = rg2;
                ph = ph2;
                proof {
                    assert(tone_mix(inc as int, lstep as int, rstep as int, st0, (i + 1) as nat)
                        == tone_step(inc as int, lstep as int, rstep as int, sti, i as nat));
                }
                i = i + 1;
            }
            AudioSource {
                position,
                data: AudioData::Sine { freq, phase: ph },
                looping,
                playing: true,
                cursor: cursor0,
                current_left_gain: tl,
                current_right_gain: tr,
                positional,
            }
        },
    }
}


/// A silent buffer of length `n`.
pub open spec fn zero_out(n: nat) -> Seq<i64> {
    Seq::new(n, |i: int| 0i64)
}

/// The joint result of mixing the first `k` sources into a buffer:
/// the advanced sources in order, and the accumulated output.
pub ghost struct MixAll {
    pub sources: Seq<AudioSource>,
    pub out: Seq<i64>,
}

/// Mix the first `k` sources, in order, each into the output the
/// previous ones produced.
pub open spec fn spec_mix_all(
    sources: Seq<AudioSource>,
    listener: ListenerState,
    out0: Seq<i64>,
    k: nat,
) -> MixAll
    decreases k,
{
    if k == 0 {
        MixAll { sources: Seq::empty(), out: out0 }
    } else {
        let prev = spec_mix_all(sources, listener, out0, (k - 1) as nat);
        let (s2, o2) = spec_mix_source(sources[k - 1], listener, prev.out);
        MixAll { sources: prev.sources.push(s2), out: o2 }
    }
}

/// The mixer: the shared list of sources and the listener state. The
/// embedding guards a value of this type with its lock and calls
/// [`AudioMixer::callback`] from the audio thread.
pub struct AudioMixer {
    pub sources: Vec<AudioSource>,
    pub listener: ListenerState,
}

impl AudioMixer {
    /// Well-formed mixer: listener and every source well-formed.
    pub open spec fn wf(self) -> bool {
        &&& self.listener.wf()
        &&& forall|i: int| 0 <= i < self.sources@.len() ==> #[trigger] self.sources@[i].wf()
    }

    /// A mixer over the given sources and listener state.
    pub fn new(sources: Vec<AudioSource>, listener: ListenerState) -> (r: AudioMixer)
        ensures
            r.sources == sources,
            r.listener == listener,
    {
        AudioMixer { sources, listener }
    }

    /// Hand a source to the mixer.
    pub fn add_source(&mut self, src: AudioSource)
        requires
            src.wf(),
        ensures
            final(self).sources@ == old(self).sources@.push(src),
            final(self).listener == old(self).listener,
            old(self).wf() ==> final(self).wf(),
    {
        self.sources.push(src);
    }

    /// Fill one interleaved stereo output buffer: clear it, then mix
    /// every source into it in order, advancing each source's cursor,
    /// phase and gains.
    pub fn callback(&mut self, out: &mut Vec<i64>)
        requires
            old(self).wf(),
            old(out).len() % 2 == 0,
            old(self).sources@.len() <= MAX_SOURCES,
        ensures
            final(self).listener == old(self).listener,
            final(self).sources@ == spec_mix_all(
                old(self).sources@,
                old(self).listener,
                zero_out(old(out)@.len()),
                old(self).sources@.len(),
            ).sources,
            final(out)@ == spec_mix_all(
                old(self).sources@,
                old(self).listener,
                zero_out(old(out)@.len()),
                old(self).sources@.len(),
            ).out,
            final(out)@.len() == old(out)@.len(),
            final(self).wf(),
    {
        let buf_len = out.len();
        let mut j: usize = 0;
        while j < buf_len
            invariant
                j <= buf_len,
                out@.len() == buf_len,
                forall|k: int| 0 <= k < j ==> #[trigger] out@[k] == 0,
            decreases buf_len - j,
        {
            out[j] = 0;
            j = j + 1;
        }
        proof {
            assert(out@ =~= zero_out(buf_len as nat));
        }
        let listener = ListenerState { position: self.listener.position, right: self.listener.right };
        proof {
            assert(listener == self.listener);
        }
        let n = self.sources.len();
        let ghost gsources = self.sources@;
        let ghost out0 = out@;
        let mut k: usize = 0;
        while k < n
            invariant
                k <= n,
                n == gsources.len(),
                n <= MAX_SOURCES,
                listener == old(self).listener,
                listener.wf(),
                self.listener == old(self).listener,
                gsources == old(self).sources@,
                forall|i: int| 0 <= i < gsources.len() ==> #[trigger] gsources[i].wf(),
                self.sources@.len() == n,
                self.sources@ == gsources.subrange(k as int, n as int) + spec_mix_all(
                    gsources,
                    listener,
                    out0,
                    k as nat,
                ).sources,
                out@ == spec_mix_all(gsources, listener, out0, k as nat).out,
                out@.len() == buf_len,
                buf_len % 2 == 0,
                out0 == zero_out(buf_len as nat),
                forall|i: int| 0 <= i < self.sources@.len() ==> #[trigger] self.sources@[i].wf(),
                forall|i: int|
                    0 <= i < out@.len() ==> -(UNIT as int) * (k as int) <= #[trigger] out@[i]
                        <= (UNIT as int) * (k as int),
            decreases n - k,
        {
            let ghost prev = spec_mix_all(gsources, listener, out0, k as nat);
            proof {
                assert(self.sources@[0] == gsources[k as int]);
                assert(forall|i: int|
                    0 <= i < out@.len() ==> -0x4000_0000_0000_0000 <= #[trigger] out@[i]
                        <= 0x4000_0000_0000_0000) by {
                    assert(forall|i: int|
                        0 <= i < out@.len() ==> -(UNIT as int) * (k as int) <= #[trigger] out@[i]
                            <= (UNIT as int) * (k as int));
                    assert((UNIT as int) * (k as int) <= 0x4000_0000_0000_0000) by (nonlinear_arith)
                        requires
                            0 <= k <= 0x10000,
                            UNIT == 65536,
                    ;
                }
            }
            let src = self.sources.remove(0);
            let mixed = mix_source(src, &listener, out);
            self.sources.push(mixed);
            k = k + 1;
            proof {
                let cur = spec_mix_all(gsources, listener, out0, k as nat);
                assert(cur.sources == prev.sources.push(mixed));
                assert(self.sources@ =~= gsources.subrange(k as int, n as int) + cur.sources);
                assert(forall|i: int|
                    0 <= i < out@.len() ==> -(UNIT as int) * (k as int) <= #[trigger] out@[i]
                        <= (UNIT as int) * (k as int)) by {
                    assert((UNIT as int) * (k as int) == (UNIT as int) * (k - 1) + UNIT)
                        by (nonlinear_arith)
                        requires
                            k >= 1,
                    ;
                }
            }
        }
        proof {
            assert(self.sources@ =~= spec_mix_all(gsources, listener, out0, n as nat).sources);
        }
    }
}


/// Gain interpolation leaves no residual drift: after a full buffer,
/// a playing source's stored gains equal the target gains computed at
/// the start of the callback, exactly.
pub proof fn lemma_gains_converge(src: AudioSource, listener: ListenerState, out: Seq<i64>)
    requires
        src.wf(),
        listener.wf(),
        src.playing,
    ensures
        ({
            let (r, _) = spec_mix_source(src, listener, out);
            (r.current_left_gain as int, r.current_right_gain as int) == spec_target_gains(
                src,
                listener,
            )
        }),
{
    crate::audio::lemma_target_gains_bounds(src, listener);
}

/// A looping clip wraps: a frame played at the last cursor position
/// sends the cursor back to the start, and playback continues.
pub proof fn lemma_looping_clip_wraps(
    samples: Seq<i32>,
    channels: nat,
    positional: bool,
    lstep: int,
    rstep: int,
    st: MixCursor,
    i: nat,
)
    requires
        st.playing,
        clip_frames(samples, channels) > 0,
        st.cursor == clip_frames(samples, channels) - 1,
    ensures
        clip_step(samples, channels, positional, true, lstep, rstep, st, i).cursor == 0,
        clip_step(samples, channels, positional, true, lstep, rstep, st, i).playing,
{
}

/// A clip that does not loop runs out: a frame played at the last
/// cursor position parks the cursor at the clip length, and the frame
/// after that stops playback.
pub proof fn lemma_clip_end_stops(
    samples: Seq<i32>,
    channels: nat,
    positional: bool,
    lstep: int,
    rstep: int,
    st: MixCursor,
    i: nat,
)
    requires
        st.playing,
        clip_frames(samples, channels) > 0,
    ensures
        st.cursor == clip_frames(samples, channels) - 1 ==> {
            let r = clip_step(samples, channels, positional, false, lstep, rstep, st, i);
            r.cursor == clip_frames(samples, channels) && r.playing
        },
        st.cursor >= clip_frames(samples, channels) ==> {
            let r = clip_step(samples, channels, positional, false, lstep, rstep, st, i);
            !r.playing && r.cursor == st.cursor && r.out == st.out
        },
{
}

impl Default for AudioMixer {
    /// An empty mixer: no sources, the listener at the origin facing
    /// so that "right" is the positive x axis.
    fn default() -> (r: AudioMixer)
        ensures
            r.sources@.len() == 0,
            r.listener == (ListenerState {
                position: Vec3Fx { x: 0, y: 0, z: 0 },
                right: Vec3Fx { x: UNIT as i64, y: 0, z: 0 },
            }),
            r.wf(),
    {
        AudioMixer { sources: Vec::new(), listener: ListenerState::default_state() }
    }
}

/// The gain step never exceeds one unit in magnitude.
proof fn lemma_step_bounded(t: int, c: int, frames: nat)
    requires
        0 <= t <= UNIT as int,
        0 <= c <= UNIT as int,
    ensures
        -(UNIT as int) <= spec_gain_step(t, c, frames) <= UNIT as int,
{
    if frames > 0 {
        assert(-(UNIT as int) <= tdiv(t - c, frames as int) <= UNIT as int) by (nonlinear_arith)
            requires
                -(UNIT as int) <= t - c <= UNIT as int,
                frames >= 1,
        ;
    }
}

/// A sample scaled by a gain contributes at most one unit.
proof fn lemma_contrib_bounded(s: int, g: int)
    requires
        -(UNIT as int) <= s <= UNIT as int,
        0 <= g <= UNIT as int,
    ensures
        -(UNIT as int) <= tdiv(s * g, UNIT as int) <= UNIT as int,
{
    assert(-(UNIT * UNIT) <= s * g <= UNIT * UNIT) by (nonlinear_arith)
        requires
            -(UNIT as int) <= s <= UNIT as int,
            0 <= g <= UNIT as int,
    ;
    assert(-(UNIT as int) <= tdiv(s * g, UNIT as int) <= UNIT as int) by (nonlinear_arith)
        requires
            -(UNIT * UNIT) <= s * g <= UNIT * UNIT,
            UNIT == 65536,
    ;
}

/// Twice the halved length does not exceed the length.
proof fn lemma_double_half(len: int, ch: int)
    requires
        len >= 0,
        ch == 1 || ch == 2,
    ensures
        ch * (len / ch) <= len,
{
    assert(ch * (len / ch) <= len) by (nonlinear_arith)
        requires
            len >= 0,
            1 <= ch <= 2,
    ;
}

} // verus!
