//! The audio data model: sources (sampled clips and synthesized tones), the
//! listener, and the spatial gain computation of the mixer. All sample and
//! gain values are fixed point (see [`crate::fx`]); the embedding converts
//! them to the device's sample format at the edge.

use vstd::prelude::*;

use crate::fx::{
    clamp_fx, lemma_isqrt_bracket, lemma_isqrt_unique, mul_fx, spec_clamp, spec_isqrt, sqrt_fx,
    tdiv, TWO_PI_FX, UNIT,
};

verus! {

/// The mixer's native sample rate in frames per second.
pub const NATIVE_RATE: u32 = 44100;

/// Bound on the magnitude of a world coordinate, in fixed point
/// (about sixteen thousand world units), so that squared distances
/// fit the machine integers.
pub const MAX_POS_FX: i64 = 0x4000_0000;

/// Bound on a tone frequency in fixed point: the Nyquist frequency
/// of the native rate.
pub const MAX_FREQ_FX: i64 = 22050 * UNIT;

/// Distances at or below this threshold (about a thousandth of a world
/// unit) make a positional source fall back to a fixed axis instead of
/// normalizing a vanishing offset.
pub const MIN_DIST_FX: i64 = 65;

/// A vector of three fixed-point coordinates.
#[derive(Clone, Copy, Debug, PartialEq, Eq, Structural)]
pub struct Vec3Fx {
    pub x: i64,
    pub y: i64,
    pub z: i64,
}

impl Vec3Fx {
    /// The origin.
    pub fn zero() -> (r: Vec3Fx)
        ensures
            r == (Vec3Fx { x: 0, y: 0, z: 0 }),
    {
        Vec3Fx { x: 0, y: 0, z: 0 }
    }

    /// The positive x axis, of unit length.
    pub fn unit_x() -> (r: Vec3Fx)
        ensures
            r == (Vec3Fx { x: UNIT as i64, y: 0, z: 0 }),
    {
        Vec3Fx { x: UNIT, y: 0, z: 0 }
    }

    /// All coordinates bounded by `m`.
    pub open spec fn bounded(self, m: i64) -> bool {
        -m <= self.x <= m && -m <= self.y <= m && -m <= self.z <= m
    }
}

/// What a source plays: either a decoded clip or a synthesized tone.
pub enum AudioData {
    /// Interleaved fixed-point samples with their channel count.
    Clip { samples: Vec<i32>, channels: usize },
    /// A tone of the given fixed-point frequency (Hz) with its running
    /// phase accumulator in `[0, TWO_PI_FX)`.
    Sine { freq: i64, phase: i64 },
}

impl AudioData {
    /// Well-formed audio data: samples within one unit of full scale,
    /// one or two channels, tone parameters in range.
    pub open spec fn wf(self) -> bool {
        match self {
            AudioData::Clip { samples, channels } => {
                (channels == 1 || channels == 2) && forall|i: int|
                    0 <= i < samples@.len() ==> -UNIT <= #[trigger] samples@[i] <= UNIT
            },
            AudioData::Sine { freq, phase } => 0 <= freq <= MAX_FREQ_FX && 0 <= phase
                < TWO_PI_FX,
        }
    }
}

/// One sound in the world, owned by the host and advanced by the mixer.
pub struct AudioSource {
    pub position: Vec3Fx,
    pub data: AudioData,
    pub looping: bool,
    pub playing: bool,
    pub cursor: usize,
    pub current_left_gain: i64,
    pub current_right_gain: i64,
    pub positional: bool,
}

/// The number of whole frames a clip holds.
pub open spec fn clip_frames(samples: Seq<i32>, channels: nat) -> nat {
    samples.len() / channels
}

impl AudioSource {
    /// Well-formed source: data in range, position bounded, stored gains
    /// within `[0, UNIT]`.
    pub open spec fn wf(self) -> bool {
        &&& self.data.wf()
        &&& self.position.bounded(MAX_POS_FX)
        &&& 0 <= self.current_left_gain <= UNIT
        &&& 0 <= self.current_right_gain <= UNIT
    }

    /// A new source: stopped, cursor at the start, gains at zero,
    /// positional by default.
    pub fn new(position: Vec3Fx, data: AudioData, looping: bool) -> (r: AudioSource)
        requires
            data.wf(),
            position.bounded(MAX_POS_FX),
        ensures
            r == (AudioSource {
                position,
                data,
                looping,
                playing: false,
                cursor: 0,
                current_left_gain: 0,
                current_right_gain: 0,
                positional: true,
            }),
            r.wf(),
    {
        AudioSource {
            position,
            data,
            looping,
            playing: false,
            cursor: 0,
            current_left_gain: 0,
            current_right_gain: 0,
            positional: true,
        }
    }

    /// A tone generator at the origin with phase zero.
    pub fn new_sine(freq: i64, looping: bool) -> (r: AudioSource)
        requires
            0 <= freq <= MAX_FREQ_FX,
        ensures
            r.wf(),
            r.data == (AudioData::Sine { freq, phase: 0 }),
            !r.playing,
            r.cursor == 0,
            r.looping == looping,
            r.positional,
            r.position == (Vec3Fx { x: 0, y: 0, z: 0 }),
            r.current_left_gain == 0 && r.current_right_gain == 0,
    {
        AudioSource::new(Vec3Fx::zero(), AudioData::Sine { freq, phase: 0 }, looping)
    }

    /// A mono clip at the origin from already-decoded samples.
    pub fn new_clip(samples: Vec<i32>, looping: bool) -> (r: AudioSource)
        requires
            forall|i: int| 0 <= i < samples@.len() ==> -UNIT <= #[trigger] samples@[i] <= UNIT,
        ensures
            r.wf(),
            r.data == (AudioData::Clip { samples, channels: 1 }),
            !r.playing,
            r.cursor == 0,
            r.looping == looping,
            r.positional,
            r.position == (Vec3Fx { x: 0, y: 0, z: 0 }),
            r.current_left_gain == 0 && r.current_right_gain == 0,
    {
        AudioSource::new(Vec3Fx::zero(), AudioData::Clip { samples, channels: 1 }, looping)
    }

    /// Start playback.
    pub fn play(&mut self)
        ensures
            *final(self) == (AudioSource { playing: true, ..*old(self) }),
    {
        self.playing = true;
    }

    /// Stop playback, keeping the cursor where it is.
    pub fn pause(&mut self)
        ensures
            *final(self) == (AudioSource { playing: false, ..*old(self) }),
    {
        self.playing = false;
    }

    /// The world position.
    pub fn get_position(&self) -> (r: Vec3Fx)
        ensures
            r == self.position,
    {
        self.position
    }

    /// Move the source.
    pub fn set_position(&mut self, position: Vec3Fx)
        requires
            position.bounded(MAX_POS_FX),
        ensures
            *final(self) == (AudioSource { position, ..*old(self) }),
    {
        self.position = position;
    }

    /// Whether the source is currently playing.
    pub fn is_playing(&self) -> (r: bool)
        ensures
            r == self.playing,
    {
        self.playing
    }

    /// The read cursor, as a frame index.
    pub fn get_cursor(&self) -> (r: usize)
        ensures
            r == self.cursor,
    {
        self.cursor
    }

    /// The duration in milliseconds: frame count scaled by the native
    /// rate for a clip, unbounded for a tone.
    pub fn get_duration(&self) -> (r: u64)
        ensures
            match self.data {
                AudioData::Clip { samples, channels } => {
                    if channels == 0 {
                        r == 0
                    } else {
                        r == clip_frames(samples@, channels as nat) * 1000 / (NATIVE_RATE as nat)
                    }
                },
                AudioData::Sine { .. } => r == u64::MAX,
            },
    {
        match &self.data {
            AudioData::Clip { samples, channels } => {
                let ch = *channels;
                if ch == 0 {
                    0
                } else {
                    let frames: usize = samples.len() / ch;
                    let wide: u128 = (frames as u128) * 1000 / (NATIVE_RATE as u128);
                    proof {
                        assert((frames as int) * 1000 / (NATIVE_RATE as int) <= frames as int)
                            by (nonlinear_arith)
                            requires
                                frames >= 0,
                                NATIVE_RATE == 44100,
                        ;
                    }
                    wide as u64
                }
            },
            AudioData::Sine { .. } => u64::MAX,
        }
    }
}

/// The listener: a position and the camera's "right" basis vector,
/// read by the mixer on every callback.
pub struct ListenerState {
    pub position: Vec3Fx,
    pub right: Vec3Fx,
}

impl ListenerState {
    /// Well-formed listener: bounded position, right vector within unit
    /// coordinates.
    pub open spec fn wf(self) -> bool {
        self.position.bounded(MAX_POS_FX) && self.right.bounded(UNIT)
    }

    /// The default listener: at the origin, facing so that "right" is
    /// the positive x axis.
    pub fn default_state() -> (r: ListenerState)
        ensures
            r.position == (Vec3Fx { x: 0, y: 0, z: 0 }),
            r.right == (Vec3Fx { x: UNIT as i64, y: 0, z: 0 }),
            r.wf(),
    {
        ListenerState { position: Vec3Fx::zero(), right: Vec3Fx::unit_x() }
    }
}

/// The squared distance between two bounded points, in fixed point
/// (each squared coordinate difference is scaled back down by `UNIT`).
pub open spec fn spec_dist_sq(a: Vec3Fx, b: Vec3Fx) -> int {
    let dx = a.x - b.x;
    let dy = a.y - b.y;
    let dz = a.z - b.z;
    dx * dx / (UNIT as int) + dy * dy / (UNIT as int) + dz * dz / (UNIT as int)
}

/// Distance attenuation: `1 / (dist_sq + 1)` in fixed point. At distance
/// zero this is exactly one.
pub open spec fn spec_atten(dist_sq: int) -> int {
    (UNIT * UNIT) as int / (dist_sq + UNIT as int)
}

/// The unit offset from the listener to the source, or the positive y
/// axis when the distance is degenerate.
pub open spec fn spec_direction(a: Vec3Fx, b: Vec3Fx) -> (int, int, int) {
    let dx = a.x - b.x;
    let dy = a.y - b.y;
    let dz = a.z - b.z;
    let dist = spec_isqrt((spec_dist_sq(a, b) * UNIT) as nat) as int;
    if dist > MIN_DIST_FX as int {
        (
            spec_clamp(tdiv(dx * UNIT, dist), -(UNIT as int), UNIT as int),
            spec_clamp(tdiv(dy * UNIT, dist), -(UNIT as int), UNIT as int),
            spec_clamp(tdiv(dz * UNIT, dist), -(UNIT as int), UNIT as int),
        )
    } else {
        (0, UNIT as int, 0)
    }
}

/// The stereo gain pair a positional source is steered toward: distance
/// attenuation combined with equal-power panning against the listener's
/// right vector. A non-positional source is steered toward full gain on
/// both channels.
pub open spec fn spec_target_gains(src: AudioSource, listener: ListenerState) -> (int, int) {
    if !src.positional {
        (UNIT as int, UNIT as int)
    } else {
        let dist_sq = spec_dist_sq(src.position, listener.position);
        let gain = spec_atten(dist_sq);
        let (dirx, diry, dirz) = spec_direction(src.position, listener.position);
        let dot = tdiv(
            dirx * listener.right.x + diry * listener.right.y + dirz * listener.right.z,
            UNIT as int,
        );
        let pan = spec_clamp(dot, -(UNIT as int), UNIT as int);
        let p = (pan + UNIT as int) / 2;
        let right_gain = spec_isqrt((p * UNIT) as nat) as int;
        let left_gain = spec_isqrt(((UNIT as int - p) * UNIT) as nat) as int;
        (tdiv(left_gain * gain, UNIT as int), tdiv(right_gain * gain, UNIT as int))
    }
}

/// Compute the target stereo gains for one source.
pub fn target_gains(src: &AudioSource, listener: &ListenerState) -> (g: (i64, i64))
    requires
        src.wf(),
        listener.wf(),
    ensures
        (g.0 as int, g.1 as int) == spec_target_gains(*src, *listener),
        0 <= g.0 <= UNIT,
        0 <= g.1 <= UNIT,
        !src.positional ==> g.0 == UNIT && g.1 == UNIT,
{
    if !src.positional {
        (UNIT, UNIT)
    } else {
        let dx = src.position.x - listener.position.x;
        let dy = src.position.y - listener.position.y;
        let dz = src.position.z - listener.position.z;
        proof {
            lemma_sq_scaled_bounds(dx as int);
            lemma_sq_scaled_bounds(dy as int);
            lemma_sq_scaled_bounds(dz as int);
        }
        let dist_sq: i64 = dx * dx / UNIT + dy * dy / UNIT + dz * dz / UNIT;
        let dist: i64 = sqrt_fx(dist_sq);
        let (dirx, diry, dirz): (i64, i64, i64) = if dist > MIN_DIST_FX {
            (
                clamp_fx(dx * UNIT / dist, -UNIT, UNIT),
                clamp_fx(dy * UNIT / dist, -UNIT, UNIT),
                clamp_fx(dz * UNIT / dist, -UNIT, UNIT),
            )
        } else {
            (0, UNIT, 0)
        };
        proof {
            lemma_div_at_most_unit(dist_sq as int);
        }
        let gain: i64 = UNIT * UNIT / (dist_sq + UNIT);
        proof {
            lemma_unit_product_bound(dirx as int, listener.right.x as int);
            lemma_unit_product_bound(diry as int, listener.right.y as int);
            lemma_unit_product_bound(dirz as int, listener.right.z as int);
        }
        let dot: i64 = (dirx * listener.right.x + diry * listener.right.y + dirz
            * listener.right.z) / UNIT;
        let pan = clamp_fx(dot, -UNIT, UNIT);
        let p: i64 = (pan + UNIT) / 2;
        let right_gain: i64 = sqrt_fx(p);
        let left_gain: i64 = sqrt_fx(UNIT - p);
        proof {
            lemma_sqrt_gain_le_unit(p as int, right_gain as int);
            lemma_sqrt_gain_le_unit(UNIT as int - p as int, left_gain as int);
        }
        proof {
            lemma_scaled_gain_in_range(left_gain as int, gain as int);
            lemma_scaled_gain_in_range(right_gain as int, gain as int);
        }
        (mul_fx(left_gain, gain), mul_fx(right_gain, gain))
    }
}

/// Scaling one unit-bounded gain by another keeps it within `[0, UNIT]`.
proof fn lemma_scaled_gain_in_range(a: int, b: int)
    requires
        0 <= a <= UNIT as int,
        0 <= b <= UNIT as int,
    ensures
        0 <= tdiv(a * b, UNIT as int) <= UNIT as int,
{
    assert(0 <= a * b <= UNIT * UNIT) by (nonlinear_arith)
        requires
            0 <= a <= UNIT as int,
            0 <= b <= UNIT as int,
    ;
    assert(0 <= a * b / (UNIT as int) <= UNIT as int) by (nonlinear_arith)
        requires
            0 <= a * b <= UNIT * UNIT,
            UNIT == 65536,
    ;
}

/// A product of two unit-bounded factors is bounded by the unit square.
proof fn lemma_unit_product_bound(a: int, b: int)
    requires
        -(UNIT as int) <= a <= UNIT as int,
        -(UNIT as int) <= b <= UNIT as int,
    ensures
        -(UNIT * UNIT) <= a * b <= UNIT * UNIT,
{
    assert(-(UNIT * UNIT) <= a * b <= UNIT * UNIT) by (nonlinear_arith)
        requires
            -(UNIT as int) <= a <= UNIT as int,
            -(UNIT as int) <= b <= UNIT as int,
    ;
}

/// A source with the positional flag off is steered toward full gain
/// on both channels, whatever the listener's position and orientation.
pub proof fn lemma_nonpositional_full_gain(src: AudioSource, listener: ListenerState)
    requires
        !src.positional,
    ensures
        spec_target_gains(src, listener) == (UNIT as int, UNIT as int),
{
}

/// At distance zero the attenuation is exactly one, and the direction
/// falls back to the fixed vertical axis instead of normalizing a
/// vanishing offset.
pub proof fn lemma_zero_distance_fallback(src: AudioSource, listener: ListenerState)
    requires
        src.position == listener.position,
    ensures
        spec_dist_sq(src.position, listener.position) == 0,
        spec_atten(spec_dist_sq(src.position, listener.position)) == UNIT as int,
        spec_direction(src.position, listener.position) == (0int, UNIT as int, 0int),
{
    let z: nat = 0;
    assert(z * z == 0 && (z + 1) * (z + 1) == 1) by (nonlinear_arith)
        requires
            z == 0,
    ;
    lemma_isqrt_unique(0, 0);
}

/// The target gains of a well-formed source lie within `[0, UNIT]` on
/// both channels.
pub proof fn lemma_target_gains_bounds(src: AudioSource, listener: ListenerState)
    requires
        src.wf(),
        listener.wf(),
    ensures
        0 <= spec_target_gains(src, listener).0 <= UNIT as int,
        0 <= spec_target_gains(src, listener).1 <= UNIT as int,
{
    if src.positional {
        let dist_sq = spec_dist_sq(src.position, listener.position);
        lemma_sq_scaled_bounds(src.position.x - listener.position.x);
        lemma_sq_scaled_bounds(src.position.y - listener.position.y);
        lemma_sq_scaled_bounds(src.position.z - listener.position.z);
        lemma_div_at_most_unit(dist_sq);
        let gain = spec_atten(dist_sq);
        let (dirx, diry, dirz) = spec_direction(src.position, listener.position);
        let dot = tdiv(
            dirx * listener.right.x + diry * listener.right.y + dirz * listener.right.z,
            UNIT as int,
        );
        let pan = spec_clamp(dot, -(UNIT as int), UNIT as int);
        let p = (pan + UNIT as int) / 2;
        assert(0 <= p <= UNIT as int);
        lemma_sqrt_spec_le_unit(p);
        lemma_sqrt_spec_le_unit(UNIT as int - p);
        let right_gain = spec_isqrt((p * UNIT) as nat) as int;
        let left_gain = spec_isqrt(((UNIT as int - p) * UNIT) as nat) as int;
        lemma_scaled_gain_in_range(left_gain, gain);
        lemma_scaled_gain_in_range(right_gain, gain);
    }
}

/// The square root of a pan fraction scaled to fixed point is at most
/// one unit.
proof fn lemma_sqrt_spec_le_unit(p: int)
    requires
        0 <= p <= UNIT as int,
    ensures
        0 <= spec_isqrt((p * UNIT) as nat) <= UNIT as int,
{
    assert(0 <= p * UNIT <= UNIT * UNIT) by (nonlinear_arith)
        requires
            0 <= p <= UNIT as int,
            UNIT == 65536,
    ;
    let x = (p * UNIT) as nat;
    lemma_isqrt_bracket(x);
    let r = spec_isqrt(x);
    assert(r <= UNIT as int) by (nonlinear_arith)
        requires
            r >= 0,
            r * r <= x,
            x <= UNIT * UNIT,
            UNIT == 65536,
    ;
}

/// A coordinate difference of bounded points has a bounded scaled square.
proof fn lemma_sq_scaled_bounds(d: int)
    requires
        -2 * MAX_POS_FX <= d <= 2 * MAX_POS_FX,
    ensures
        0 <= d * d <= 4 * MAX_POS_FX * MAX_POS_FX,
        0 <= d * d / (UNIT as int) <= 0x4000_0000_0000,
{
    assert(0 <= d * d <= 4 * MAX_POS_FX * MAX_POS_FX) by (nonlinear_arith)
        requires
            -2 * MAX_POS_FX <= d <= 2 * MAX_POS_FX,
            MAX_POS_FX == 0x4000_0000,
    ;
    assert(0 <= d * d / (UNIT as int) <= 0x4000_0000_0000) by (nonlinear_arith)
        requires
            0 <= d * d <= 4 * 0x4000_0000 * 0x4000_0000,
            UNIT == 65536,
    ;
}

/// Attenuation never exceeds unit gain.
proof fn lemma_div_at_most_unit(d: int)
    requires
        d >= 0,
    ensures
        0 <= (UNIT * UNIT) as int / (d + UNIT as int) <= UNIT as int,
{
    assert(0 <= (UNIT * UNIT) as int / (d + UNIT as int) <= UNIT as int) by (nonlinear_arith)
        requires
            d >= 0,
            UNIT == 65536,
    ;
}

/// An equal-power pan gain never exceeds unit gain.
proof fn lemma_sqrt_gain_le_unit(p: int, r: int)
    requires
        0 <= p <= UNIT as int,
        r == spec_isqrt((p * UNIT) as nat),
        r * r <= p * UNIT,
    ensures
        0 <= r <= UNIT as int,
{
    assert(r <= UNIT as int) by (nonlinear_arith)
        requires
            r >= 0,
            r * r <= p * (UNIT as int),
            0 <= p <= UNIT as int,
            UNIT == 65536,
    ;
}

} // verus!
