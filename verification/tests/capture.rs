use kotoba::audio::capture::{
    clear_last_recorded_wav, create_wav_header, encode_wav, parse_pcm16_wav, set_last_recorded_wav,
    take_last_recorded_wav, RecordingSlot,
};
use kotoba::audio::sidecar_lifecycle::{
    is_whisper_active, load_piper, load_whisper, sidecar_filename, transcript_from_output,
    unload_piper, unload_whisper, whisper_args, whisper_output_path, SidecarState,
};

#[test]
fn header_bytes_exact() {
    let h = create_wav_header(2);
    let mut expected: Vec<u8> = Vec::new();
    expected.extend_from_slice(b"RIFF");
    expected.extend_from_slice(&38u32.to_le_bytes());
    expected.extend_from_slice(b"WAVEfmt ");
    expected.extend_from_slice(&16u32.to_le_bytes());
    expected.extend_from_slice(&1u16.to_le_bytes());
    expected.extend_from_slice(&1u16.to_le_bytes());
    expected.extend_from_slice(&16000u32.to_le_bytes());
    expected.extend_from_slice(&32000u32.to_le_bytes());
    expected.extend_from_slice(&2u16.to_le_bytes());
    expected.extend_from_slice(&16u16.to_le_bytes());
    expected.extend_from_slice(b"data");
    expected.extend_from_slice(&2u32.to_le_bytes());
    assert_eq!(h.to_vec(), expected);
}

#[test]
fn header_sizes_for_large_data() {
    let h = create_wav_header(70000);
    assert_eq!(&h[4..8], &70036u32.to_le_bytes());
    assert_eq!(&h[40..44], &70000u32.to_le_bytes());
}

#[test]
fn wav_roundtrip_samples() {
    let samples: Vec<i16> = vec![0, 1, -1, 32767, -32768, 12345, -256];
    let wav = encode_wav(&samples);
    assert_eq!(wav.len(), 44 + 2 * samples.len());
    assert_eq!(&wav[44..46], &0i16.to_le_bytes());
    assert_eq!(&wav[48..50], &(-1i16).to_le_bytes());
    assert_eq!(parse_pcm16_wav(&wav), Some(samples));
    assert_eq!(parse_pcm16_wav(&encode_wav(&[])), Some(vec![]));
}

#[test]
fn wav_parse_skips_extra_chunks() {
    let mut wav = Vec::new();
    wav.extend_from_slice(b"RIFF");
    wav.extend_from_slice(&0u32.to_le_bytes());
    wav.extend_from_slice(b"WAVE");
    wav.extend_from_slice(b"LIST");
    wav.extend_from_slice(&20u32.to_le_bytes());
    wav.extend_from_slice(&[0u8; 20]);
    wav.extend_from_slice(b"data");
    wav.extend_from_slice(&5u32.to_le_bytes());
    wav.extend_from_slice(&[1, 0, 2, 0, 9]);
    assert_eq!(parse_pcm16_wav(&wav), Some(vec![1, 2]));
    // a chunk size running past the end leaves no data chunk
    let mut bad = wav.clone();
    bad[16..20].copy_from_slice(&1000u32.to_le_bytes());
    assert_eq!(parse_pcm16_wav(&bad), None);
    // no data chunk at all
    let mut no_data = wav.clone();
    no_data[40..44].copy_from_slice(b"junk");
    assert_eq!(parse_pcm16_wav(&no_data), None);
}

#[test]
fn recording_slot_set_take_clear() {
    let mut slot = RecordingSlot::new();
    assert_eq!(take_last_recorded_wav(&mut slot), None);
    set_last_recorded_wav(&mut slot, vec![1, 2, 3]);
    set_last_recorded_wav(&mut slot, vec![4]);
    assert_eq!(take_last_recorded_wav(&mut slot), Some(vec![4]));
    assert_eq!(take_last_recorded_wav(&mut slot), None);
    set_last_recorded_wav(&mut slot, vec![5]);
    clear_last_recorded_wav(&mut slot);
    assert_eq!(take_last_recorded_wav(&mut slot), None);
}

#[test]
fn whisper_lifecycle_flags() {
    let mut s = SidecarState::new();
    assert!(!is_whisper_active(&s));
    load_whisper(&mut s);
    assert!(is_whisper_active(&s));
    load_piper(&mut s);
    unload_piper(&mut s);
    assert!(is_whisper_active(&s));
    unload_whisper(&mut s);
    assert!(!is_whisper_active(&s));
}

#[test]
fn sidecar_names_and_arguments() {
    assert_eq!(sidecar_filename("whisper-cli", "x86_64-pc-windows-msvc", ".exe"), "whisper-cli-x86_64-pc-windows-msvc.exe");
    assert_eq!(sidecar_filename("piper", "x86_64-unknown-linux-gnu", ""), "piper-x86_64-unknown-linux-gnu");
    assert_eq!(whisper_output_path("/tmp/a.wav"), "/tmp/a.wav.txt");
    assert_eq!(
        whisper_args("m.bin", "/tmp/a.wav", "ja"),
        vec!["--model", "m.bin", "--file", "/tmp/a.wav", "--language", "ja", "--output-txt"]
    );
    assert_eq!(transcript_from_output("  ありがとう\n"), "ありがとう");
}

#[test]
fn whisper_active_follows_call_history() {
    let mut s = SidecarState::new();
    assert!(!is_whisper_active(&s));
    load_piper(&mut s);
    assert!(!is_whisper_active(&s));
    load_whisper(&mut s);
    load_piper(&mut s);
    unload_piper(&mut s);
    assert!(is_whisper_active(&s));
    assert!(is_whisper_active(&s));
    unload_whisper(&mut s);
    load_piper(&mut s);
    assert!(!is_whisper_active(&s));
    load_whisper(&mut s);
    load_whisper(&mut s);
    assert!(is_whisper_active(&s));
}
