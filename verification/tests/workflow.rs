use kotoba::db::session::session_duration_seconds;
use kotoba::audio::capture::{set_last_recorded_wav, take_last_recorded_wav, RecordingSlot};
use kotoba::commands::practice::{installed_model_path, release_recording_after_scoring};
use kotoba::db::models::ModelManifestRow;
use kotoba::llm::daemon_waker::{wake_step, WakeAction, WakeEvent, WakeState};
use kotoba::models::downloader::{after_download_attempt, checksum_hex, DownloadChecksum, RetryAction};

fn row(name: &str, path: &str) -> ModelManifestRow {
    ModelManifestRow {
        name: name.to_string(),
        version: "1".to_string(),
        path: path.to_string(),
        checksum_sha256: String::new(),
        downloaded_at: String::new(),
        latest_known_version: None,
        last_update_check_at: None,
    }
}

#[test]
fn checksum_is_lowercase_hex() {
    assert_eq!(checksum_hex(&[0xde, 0xad, 0x00, 0x0f, 0xa0]), "dead000fa0");
    assert_eq!(checksum_hex(&[]), "");
}

#[test]
fn retry_policy_three_attempts() {
    assert_eq!(after_download_attempt(1, true), RetryAction::Finish);
    assert_eq!(after_download_attempt(1, false), RetryAction::Retry);
    assert_eq!(after_download_attempt(2, false), RetryAction::Retry);
    assert_eq!(after_download_attempt(3, false), RetryAction::GiveUp);
    assert_eq!(after_download_attempt(3, true), RetryAction::Finish);
}

#[test]
fn recording_kept_only_with_consent() {
    let mut slot = RecordingSlot::new();
    set_last_recorded_wav(&mut slot, vec![7, 8]);
    assert_eq!(release_recording_after_scoring(&mut slot, true), Some(vec![7, 8]));
    assert_eq!(take_last_recorded_wav(&mut slot), None);
    set_last_recorded_wav(&mut slot, vec![9]);
    assert_eq!(release_recording_after_scoring(&mut slot, false), None);
    assert_eq!(take_last_recorded_wav(&mut slot), None);
}

#[test]
fn manifest_lookup_first_match() {
    let rows = vec![row("piper-en", "/a"), row("whisper-tiny", "/b"), row("whisper-tiny", "/c")];
    assert_eq!(installed_model_path(&rows, "whisper-tiny"), Some("/b".to_string()));
    assert_eq!(installed_model_path(&rows, "piper-ja"), None);
}

#[test]
fn wake_already_running() {
    let (s, a) = wake_step(WakeState::Start, WakeEvent::Probed { available: true });
    assert_eq!(s, WakeState::Done { awake: true });
    assert_eq!(a, WakeAction::Finish { awake: true });
}

#[test]
fn wake_missing_executable() {
    let (s, a) = wake_step(WakeState::Start, WakeEvent::Probed { available: false });
    assert_eq!(a, WakeAction::CheckPath);
    let (_, a) = wake_step(s, WakeEvent::InPath { found: false });
    assert_eq!(a, WakeAction::Finish { awake: false });
}

#[test]
fn wake_backoff_sequence() {
    let (s, _) = wake_step(WakeState::Start, WakeEvent::Probed { available: false });
    let (s, a) = wake_step(s, WakeEvent::InPath { found: true });
    assert_eq!(a, WakeAction::Spawn);
    let (mut s, a) = wake_step(s, WakeEvent::Spawned { started: true });
    assert_eq!(a, WakeAction::CheckElapsed);
    let mut sleeps = Vec::new();
    let mut elapsed = 0u64;
    loop {
        let (s1, a1) = wake_step(s, WakeEvent::Elapsed { ms: elapsed });
        assert_eq!(a1, WakeAction::Probe);
        if s1 == WakeState::FinalProbing {
            let (s2, a2) = wake_step(s1, WakeEvent::Probed { available: false });
            assert_eq!(s2, WakeState::Done { awake: false });
            assert_eq!(a2, WakeAction::Finish { awake: false });
            break;
        }
        let (s2, a2) = wake_step(s1, WakeEvent::Probed { available: false });
        match a2 {
            WakeAction::Sleep { ms } => {
                sleeps.push(ms);
                elapsed += ms;
            }
            other => panic!("unexpected {other:?}"),
        }
        s = s2;
    }
    assert_eq!(sleeps, vec![100, 200, 400, 800, 1600, 3200]);
}

#[test]
fn wake_succeeds_during_polling() {
    let (s, _) = wake_step(WakeState::Spawning, WakeEvent::Spawned { started: true });
    let (s, _) = wake_step(s, WakeEvent::Elapsed { ms: 0 });
    let (s, a) = wake_step(s, WakeEvent::Probed { available: true });
    assert_eq!(s, WakeState::Done { awake: true });
    assert_eq!(a, WakeAction::Finish { awake: true });
}

#[test]
fn download_checksum_is_sha256_hex() {
    let empty = DownloadChecksum::new();
    assert_eq!(
        empty.finish(),
        "e3b0c44298fc1c149afbf4c8996fb92427ae41e4649b934ca495991b7852b855"
    );
    let mut whole = DownloadChecksum::new();
    whole.update(b"abc");
    assert_eq!(
        whole.finish(),
        "ba7816bf8f01cfea414140de5dae2223b00361a396177a9cb410ff61f20015ad"
    );
}

#[test]
fn download_checksum_is_independent_of_chunking() {
    let mut chunked = DownloadChecksum::new();
    chunked.update(b"a");
    chunked.update(b"");
    chunked.update(b"bc");
    assert_eq!(
        chunked.finish(),
        "ba7816bf8f01cfea414140de5dae2223b00361a396177a9cb410ff61f20015ad"
    );
}

#[test]
fn session_duration_clamps_and_falls_back() {
    assert_eq!(session_duration_seconds(Some(42), 7), 42);
    assert_eq!(session_duration_seconds(Some(-3), 7), 0);
    assert_eq!(session_duration_seconds(None, 7), 7);
}
