use std::io::Cursor;

use pie::audio::{AudioData, AudioSource};
use pie::fx::UNIT;
use pie::wav::{clip_from_pcm, pcm_to_fx, AudioLoadError, WavLoad};

fn wav_bytes(rate: u32, channels: u16, bits: u16, samples: &[i16]) -> Vec<u8> {
    let spec = hound::WavSpec {
        channels,
        sample_rate: rate,
        bits_per_sample: bits,
        sample_format: hound::SampleFormat::Int,
    };
    let mut buf: Vec<u8> = Vec::new();
    {
        let mut writer = hound::WavWriter::new(Cursor::new(&mut buf), spec).unwrap();
        for &s in samples {
            writer.write_sample(s).unwrap();
        }
        writer.finalize().unwrap();
    }
    buf
}

#[test]
fn mono_native_rate_keeps_frame_count() {
    let samples: Vec<i16> = (0..441).map(|i| (i * 50) as i16).collect();
    let bytes = wav_bytes(44100, 1, 16, &samples);
    match AudioSource::from_wav(&bytes, false).unwrap() {
        WavLoad::Ready(src) => match &src.data {
            AudioData::Clip { samples: fx, channels } => {
                assert_eq!(*channels, 1);
                assert_eq!(fx.len(), 441);
                assert!(!src.playing);
                assert_eq!(src.cursor, 0);
            }
            _ => unreachable!(),
        },
        _ => panic!("expected a ready source at the native rate"),
    }
}

#[test]
fn sample_scaling_is_exact_and_clamped() {
    let raw: Vec<i16> = vec![0, 32767, -32767, i16::MIN, 16384];
    let fx = pcm_to_fx(&raw);
    assert_eq!(fx[0], 0);
    assert_eq!(fx[1], UNIT as i32);
    assert_eq!(fx[2], -(UNIT as i32));
    // Full-scale negative lands just past one unit and is clamped.
    assert_eq!(fx[3], -(UNIT as i32));
    assert_eq!(fx[4], (16384i64 * UNIT / 32767) as i32);
}

#[test]
fn other_rate_is_handed_back_for_resampling() {
    let samples: Vec<i16> = vec![100; 2000];
    let bytes = wav_bytes(22050, 1, 16, &samples);
    match AudioSource::from_wav(&bytes, true).unwrap() {
        WavLoad::NeedsResample { samples: raw, channels, rate } => {
            assert_eq!(raw.len(), 2000);
            assert_eq!(channels, 1);
            assert_eq!(rate, 22050);
        }
        _ => panic!("expected a resampling request away from the native rate"),
    }
}

#[test]
fn resampled_clip_keeps_duration_within_tolerance() {
    // The embedding's path for a clip away from the native rate: feed one
    // resampler chunk and rebuild the source from the converted samples.
    let mut resampler =
        resampler::ResamplerFft::new(1, resampler::SampleRate::Hz22050, resampler::SampleRate::Hz44100);
    let in_len = resampler.chunk_size_input();
    let out_len = resampler.chunk_size_output();
    let samples: Vec<i16> = (0..in_len).map(|i| ((i % 100) as i16) * 300).collect();
    let bytes = wav_bytes(22050, 1, 16, &samples);
    let (raw, channels, rate) = match AudioSource::from_wav(&bytes, false).unwrap() {
        WavLoad::NeedsResample { samples, channels, rate } => (samples, channels, rate),
        _ => panic!("expected a resampling request"),
    };
    assert_eq!(rate, 22050);
    let input: Vec<f32> = raw.iter().map(|&s| s as f32).collect();
    let mut output: Vec<f32> = vec![0.0; out_len];
    resampler.resample(&input, &mut output).unwrap();
    let converted: Vec<i16> = output.iter().map(|&x| x as i16).collect();
    let src = clip_from_pcm(&converted, channels, false);
    let frames = match &src.data {
        AudioData::Clip { samples, .. } => samples.len(),
        _ => unreachable!(),
    };
    let in_duration = in_len as f64 / 22050.0;
    let out_duration = frames as f64 / 44100.0;
    assert!((in_duration - out_duration).abs() < 0.05, "{} vs {}", in_duration, out_duration);
}

#[test]
fn malformed_bytes_are_a_load_error() {
    let bytes: Vec<u8> = vec![1, 2, 3, 4, 5, 6, 7, 8];
    match AudioSource::from_wav(&bytes, false) {
        Err(e) => assert_eq!(e, AudioLoadError::BadFile),
        Ok(_) => panic!("malformed bytes must not load"),
    }
}

#[test]
fn unsupported_bit_depth_is_rejected() {
    let spec = hound::WavSpec {
        channels: 1,
        sample_rate: 44100,
        bits_per_sample: 8,
        sample_format: hound::SampleFormat::Int,
    };
    let mut bytes: Vec<u8> = Vec::new();
    {
        let mut writer = hound::WavWriter::new(Cursor::new(&mut bytes), spec).unwrap();
        for s in [1i8, 2, 3, 4] {
            writer.write_sample(s).unwrap();
        }
        writer.finalize().unwrap();
    }
    // An eight-bit file parses but is not a supported format.
    match AudioSource::from_wav(&bytes, false) {
        Err(AudioLoadError::UnsupportedFormat) => {}
        other => panic!("expected an unsupported format error, got {:?}", other.is_ok()),
    }
}

#[test]
fn three_channel_file_is_rejected() {
    let samples: Vec<i16> = vec![1, 2, 3, 4, 5, 6];
    let bytes = wav_bytes(44100, 3, 16, &samples);
    match AudioSource::from_wav(&bytes, false) {
        Err(AudioLoadError::UnsupportedFormat) => {}
        other => panic!("expected an unsupported format error, got {:?}", other.is_ok()),
    }
}
