//! Pitch-extraction proof of concept: the YIN fundamental-frequency estimator
//! over 16 kHz mono PCM parsed by the library's WAV reader.

use kotoba::audio::capture::parse_pcm16_wav as parse_pcm16_samples;

const SAMPLE_RATE: f64 = 16_000.0;
const MIN_F0_HZ: f64 = 80.0;
const MAX_F0_HZ: f64 = 600.0;
const YIN_THRESHOLD: f32 = 0.12;
const WINDOW_SIZE: usize = 400;

/// Parses a 16-bit PCM WAV file into samples scaled to [-1.0, 1.0].
fn parse_pcm16_wav(data: &[u8]) -> Option<Vec<f32>> {
    parse_pcm16_samples(data).map(|s| s.iter().map(|&x| x as f32 / i16::MAX as f32).collect())
}

fn estimate_f0(samples: &[f32]) -> Option<f64> {
    if samples.len() < WINDOW_SIZE * 2 {
        return None;
    }
    let frame_start = find_most_energetic_frame(samples, WINDOW_SIZE);
    let frame = &samples[frame_start..frame_start + WINDOW_SIZE];
    let tau_min = (SAMPLE_RATE / MAX_F0_HZ).ceil() as usize;
    let tau_max = (SAMPLE_RATE / MIN_F0_HZ).floor() as usize;
    let mut diff = vec![0.0f32; tau_max + 1];
    for tau in 1..=tau_max {
        let mut d = 0.0f32;
        for j in 0..WINDOW_SIZE - tau {
            let delta = frame[j] - frame[j + tau];
            d += delta * delta;
        }
        diff[tau] = d;
    }
    let mut cmndf = vec![1.0f32; tau_max + 1];
    let mut running_sum = 0.0f32;
    for tau in 1..=tau_max {
        running_sum += diff[tau];
        if running_sum.abs() < 1e-10 {
            cmndf[tau] = 1.0;
        } else {
            cmndf[tau] = diff[tau] * tau as f32 / running_sum;
        }
    }
    for tau in tau_min..tau_max {
        if cmndf[tau] < YIN_THRESHOLD && cmndf[tau] < cmndf[tau - 1] && cmndf[tau] <= cmndf[tau + 1] {
            let better_tau = parabolic_interpolation(&cmndf, tau);
            let f0 = SAMPLE_RATE / better_tau;
            if f0 >= MIN_F0_HZ && f0 <= MAX_F0_HZ {
                return Some(f0);
            }
        }
    }
    None
}

fn find_most_energetic_frame(samples: &[f32], window_size: usize) -> usize {
    let num_frames = samples.len().saturating_sub(window_size * 2);
    let mut best_idx = 0;
    let mut best_energy = 0.0f32;
    for i in (0..num_frames).step_by(window_size / 4) {
        let energy: f32 = samples[i..i + window_size].iter().map(|s| s * s).sum();
        if energy > best_energy {
            best_energy = energy;
            best_idx = i;
        }
    }
    best_idx
}

fn parabolic_interpolation(cmndf: &[f32], tau: usize) -> f64 {
    if tau == 0 || tau + 1 >= cmndf.len() {
        return tau as f64;
    }
    let s0 = cmndf[tau - 1] as f64;
    let s1 = cmndf[tau] as f64;
    let s2 = cmndf[tau + 1] as f64;
    let denom = 2.0 * (2.0 * s1 - s2 - s0);
    if denom.abs() < 1e-10 {
        return tau as f64;
    }
    tau as f64 + (s2 - s0) / denom
}

/// Generates a synthetic 16 kHz mono WAV with a pure sine at `freq_hz`.
fn make_sine_wav(freq_hz: f64, duration_secs: f64) -> Vec<u8> {
    let num_samples = (SAMPLE_RATE * duration_secs) as usize;
    let mut pcm: Vec<u8> = Vec::with_capacity(num_samples * 2);
    for i in 0..num_samples {
        let t = i as f64 / SAMPLE_RATE;
        let sample = (2.0 * std::f64::consts::PI * freq_hz * t).sin();
        let s16 = (sample * i16::MAX as f64) as i16;
        pcm.extend_from_slice(&s16.to_le_bytes());
    }
    let data_size = pcm.len() as u32;
    let mut wav = Vec::new();
    wav.extend_from_slice(b"RIFF");
    wav.extend_from_slice(&(36 + data_size).to_le_bytes());
    wav.extend_from_slice(b"WAVE");
    wav.extend_from_slice(b"fmt ");
    wav.extend_from_slice(&16u32.to_le_bytes());
    wav.extend_from_slice(&1u16.to_le_bytes());
    wav.extend_from_slice(&1u16.to_le_bytes());
    wav.extend_from_slice(&(SAMPLE_RATE as u32).to_le_bytes());
    wav.extend_from_slice(&(SAMPLE_RATE as u32 * 2).to_le_bytes());
    wav.extend_from_slice(&2u16.to_le_bytes());
    wav.extend_from_slice(&16u16.to_le_bytes());
    wav.extend_from_slice(b"data");
    wav.extend_from_slice(&data_size.to_le_bytes());
    wav.extend_from_slice(&pcm);
    wav
}

#[test]
fn test_yin_detects_200hz_sine() {
    let wav = make_sine_wav(200.0, 0.1);
    let samples = parse_pcm16_wav(&wav).expect("should parse synthetic WAV");
    let f0 = estimate_f0(&samples).expect("should detect voiced frame at 200 Hz");
    assert!((f0 - 200.0).abs() < 10.0, "expected F0 ≈ 200 Hz, got {f0:.1} Hz");
}

#[test]
fn test_yin_detects_120hz_sine() {
    let wav = make_sine_wav(120.0, 0.15);
    let samples = parse_pcm16_wav(&wav).unwrap();
    let f0 = estimate_f0(&samples).expect("should detect voiced at 120 Hz");
    assert!((f0 - 120.0).abs() < 15.0, "expected F0 ≈ 120 Hz, got {f0:.1} Hz");
}

#[test]
fn test_yin_silence_is_unvoiced() {
    let silence: Vec<f32> = vec![0.0; WINDOW_SIZE * 4];
    let f0 = estimate_f0(&silence);
    assert!(f0.is_none(), "silence should not produce an F0 estimate");
}

#[test]
fn test_wav_parse_minimal() {
    let wav = make_sine_wav(150.0, 0.05);
    let samples = parse_pcm16_wav(&wav);
    assert!(samples.is_some());
}

#[test]
fn test_wav_parse_rejects_garbage() {
    let garbage = b"NOTARIFFFILE0000JUNK";
    assert!(parse_pcm16_wav(garbage).is_none());
}

#[test]
fn test_wav_parse_rejects_truncated() {
    let truncated: Vec<u8> = vec![0u8; 20];
    assert!(parse_pcm16_wav(&truncated).is_none());
}
