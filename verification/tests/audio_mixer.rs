use pie::audio::{target_gains, AudioData, AudioSource, ListenerState, Vec3Fx};
use pie::fx::{isqrt_u64, sine_fx, sqrt_fx, UNIT};
use pie::mixer::AudioMixer;

fn mono_clip(samples: Vec<i32>, looping: bool) -> AudioSource {
    AudioSource::new(
        Vec3Fx { x: 0, y: 0, z: 0 },
        AudioData::Clip { samples, channels: 1 },
        looping,
    )
}

#[test]
fn nonpositional_gains_are_full_everywhere() {
    let listener = ListenerState {
        position: Vec3Fx { x: 123 * UNIT, y: -7 * UNIT, z: 55 * UNIT },
        right: Vec3Fx { x: 0, y: 0, z: UNIT },
    };
    let mut src = mono_clip(vec![0; 8], false);
    src.positional = false;
    src.position = Vec3Fx { x: -9 * UNIT, y: 4 * UNIT, z: 2 * UNIT };
    assert_eq!(target_gains(&src, &listener), (UNIT, UNIT));
}

#[test]
fn zero_distance_attenuation_is_one_and_direction_falls_back() {
    // Source and listener at the same point: attenuation is exactly one,
    // the direction falls back to the vertical axis, and the pan against
    // a horizontal right vector is centered, so both channels carry the
    // square root of one half.
    let listener = ListenerState {
        position: Vec3Fx { x: 3 * UNIT, y: 2 * UNIT, z: UNIT },
        right: Vec3Fx { x: UNIT, y: 0, z: 0 },
    };
    let mut src = mono_clip(vec![0; 8], false);
    src.position = listener.position;
    let half = UNIT / 2;
    let expected = isqrt_u64((half * UNIT) as u64) as i64;
    assert_eq!(target_gains(&src, &listener), (expected, expected));
    assert_eq!(expected, 46340);
}

#[test]
fn gain_interpolation_converges_exactly() {
    let listener = ListenerState {
        position: Vec3Fx { x: 0, y: 0, z: 0 },
        right: Vec3Fx { x: UNIT, y: 0, z: 0 },
    };
    let make = || {
        let mut s = mono_clip(vec![(UNIT / 4) as i32; 1000], true);
        s.position = Vec3Fx { x: 2 * UNIT, y: 0, z: 0 };
        s.playing = true;
        s
    };
    let expected = target_gains(&make(), &listener);
    let mut mixer = AudioMixer::new(vec![make()], listener);
    let mut out: Vec<i64> = vec![0; 128];
    mixer.callback(&mut out);
    assert_eq!(mixer.sources[0].current_left_gain, expected.0);
    assert_eq!(mixer.sources[0].current_right_gain, expected.1);
}

#[test]
fn looping_clip_wraps_cursor_to_start() {
    let mut src = mono_clip(vec![(UNIT / 2) as i32; 4], true);
    src.cursor = 3;
    src.playing = true;
    let mut mixer = AudioMixer::new(vec![src], ListenerState::default_state());
    let mut out: Vec<i64> = vec![0; 2];
    mixer.callback(&mut out);
    assert_eq!(mixer.sources[0].cursor, 0);
    assert!(mixer.sources[0].playing);
}

#[test]
fn non_looping_clip_stops_at_end() {
    let mut src = mono_clip(vec![(UNIT / 2) as i32; 4], false);
    src.cursor = 3;
    src.playing = true;
    let mut mixer = AudioMixer::new(vec![src], ListenerState::default_state());
    let mut out: Vec<i64> = vec![0; 2];
    mixer.callback(&mut out);
    // The last frame was played and the cursor parked at the length.
    assert_eq!(mixer.sources[0].cursor, 4);
    assert!(mixer.sources[0].playing);
    // The next frame finds nothing to play and stops the source.
    let mut out2: Vec<i64> = vec![0; 2];
    mixer.callback(&mut out2);
    assert!(!mixer.sources[0].playing);
    assert_eq!(out2, vec![0, 0]);
}

#[test]
fn clip_mixes_exact_sample_values() {
    // Two frames, non-positional: the gains climb from zero toward full
    // in two steps, so frame one carries half gain and frame two full.
    let mut src = mono_clip(vec![(UNIT / 2) as i32, (-UNIT / 4) as i32], false);
    src.positional = false;
    src.playing = true;
    let mut mixer = AudioMixer::new(vec![src], ListenerState::default_state());
    let mut out: Vec<i64> = vec![7; 4];
    mixer.callback(&mut out);
    assert_eq!(out, vec![UNIT / 4, UNIT / 4, -UNIT / 4, -UNIT / 4]);
}

#[test]
fn stereo_positional_clip_downmixes_to_mono() {
    let samples: Vec<i32> = vec![
        (UNIT / 2) as i32,
        (-UNIT / 2) as i32,
        (UNIT / 4) as i32,
        (UNIT / 4) as i32,
    ];
    let mut src = AudioSource::new(
        Vec3Fx { x: 0, y: 0, z: 0 },
        AudioData::Clip { samples, channels: 2 },
        false,
    );
    src.playing = true;
    // Positional at the listener: both channels get sqrt(1/2) gain; the
    // first frame averages to zero, so the output of frame one is zero.
    let mut mixer = AudioMixer::new(vec![src], ListenerState::default_state());
    let mut out: Vec<i64> = vec![0; 4];
    mixer.callback(&mut out);
    assert_eq!(out[0], 0);
    assert_eq!(out[1], 0);
    assert_ne!(out[2], 0);
    assert_eq!(out[2], out[3]);
}

#[test]
fn callback_zeroes_buffer_without_sources() {
    let mut mixer = AudioMixer::default();
    let mut out: Vec<i64> = vec![123; 8];
    mixer.callback(&mut out);
    assert_eq!(out, vec![0; 8]);
}

#[test]
fn tone_source_advances_phase_and_emits() {
    let mut src = AudioSource::new_sine(440 * UNIT, true);
    src.positional = false;
    src.playing = true;
    let mut mixer = AudioMixer::new(vec![src], ListenerState::default_state());
    let mut out: Vec<i64> = vec![0; 8];
    mixer.callback(&mut out);
    let inc = 440 * UNIT * pie::fx::TWO_PI_FX / UNIT / 44100;
    match &mixer.sources[0].data {
        AudioData::Sine { freq, phase } => {
            assert_eq!(*freq, 440 * UNIT);
            assert_eq!(*phase, (4 * inc) % pie::fx::TWO_PI_FX);
        }
        _ => unreachable!(),
    }
    // The first frame carries sine(inc)/2 at full gain (step reaches the
    // target after frame one of four; the gains start at zero, so frame
    // one carries a quarter of the target gain).
    let s = sine_fx(inc) / 2;
    assert_eq!(out[0], s * (UNIT / 4) / UNIT);
    assert!(out.iter().any(|&v| v != 0));
}

#[test]
fn paused_source_leaves_buffer_silent() {
    let src = mono_clip(vec![(UNIT / 2) as i32; 16], true);
    let mut mixer = AudioMixer::new(vec![src], ListenerState::default_state());
    let mut out: Vec<i64> = vec![0; 8];
    mixer.callback(&mut out);
    assert_eq!(out, vec![0; 8]);
    assert_eq!(mixer.sources[0].cursor, 0);
}

#[test]
fn source_accessors_report_state() {
    let mut src = mono_clip(vec![0; 44100], false);
    assert!(!src.is_playing());
    src.play();
    assert!(src.is_playing());
    src.pause();
    assert!(!src.is_playing());
    assert_eq!(src.get_cursor(), 0);
    assert_eq!(src.get_duration(), 1000);
    src.set_position(Vec3Fx { x: UNIT, y: 2 * UNIT, z: 3 * UNIT });
    assert_eq!(src.get_position(), Vec3Fx { x: UNIT, y: 2 * UNIT, z: 3 * UNIT });
}

#[test]
fn fixed_point_roots_and_sine_formulas() {
    assert_eq!(isqrt_u64(10), 3);
    assert_eq!(isqrt_u64(0), 0);
    assert_eq!(isqrt_u64(u64::MAX), 0xffff_ffff);
    assert_eq!(sqrt_fx(UNIT), UNIT);
    assert_eq!(sqrt_fx(4 * UNIT), 2 * UNIT);
    assert_eq!(sine_fx(0), 0);
    // The parabola peaks within a hair of one at a quarter period.
    let peak = sine_fx(pie::fx::PI_FX / 2);
    assert!(peak > UNIT - 100 && peak <= UNIT, "peak {}", peak);
    // Odd symmetry across the half period.
    assert_eq!(sine_fx(pie::fx::PI_FX + 1000), -sine_fx(1000));
}
