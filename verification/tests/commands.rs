use kotoba::commands::onboarding::{
    consent_precondition, is_onboarding_required, list_available_models, model_info_after_download,
    model_info_from_row, prerequisite_status,
};
use kotoba::commands::practice::{practice_word_from_row, scoring_target};
use kotoba::commands::settings::{settings_from_stored, stored_values, AppSettings};
use kotoba::commands::tts::{piper_model_name, speech_text};
use kotoba::db::models::{ModelManifestRow, VocabularyRow};
use kotoba::db::settings::{consent_value, parse_audio_persisted, practice_language_or_default};
use kotoba::llm::tutor::{choose_tutor_model, perfect_score_feedback, tutor_system_prompt};
use kotoba::models::catalog::get_model;

fn names(v: &[&str]) -> Vec<String> {
    v.iter().map(|s| s.to_string()).collect()
}

fn row(name: &str) -> ModelManifestRow {
    ModelManifestRow {
        name: name.to_string(),
        version: "1.0.0".to_string(),
        path: "/m/x.onnx".to_string(),
        checksum_sha256: "ab".to_string(),
        downloaded_at: "2024-01-01T00:00:00Z".to_string(),
        latest_known_version: None,
        last_update_check_at: None,
    }
}

fn vocab(language: &str, reading: Option<&str>) -> VocabularyRow {
    VocabularyRow {
        id: "id-1".to_string(),
        word: "水".to_string(),
        reading: reading.map(|r| r.to_string()),
        translation: "water".to_string(),
        language: language.to_string(),
        difficulty: 1,
        pitch_pattern: Some("heiban".to_string()),
    }
}

#[test]
fn onboarding_requires_whisper_and_piper_en() {
    assert!(is_onboarding_required(&names(&[])));
    assert!(is_onboarding_required(&names(&["whisper-tiny"])));
    assert!(is_onboarding_required(&names(&["piper-en", "piper-ja"])));
    assert!(!is_onboarding_required(&names(&["piper-en", "whisper-tiny"])));
}

#[test]
fn consent_reports_first_missing_model() {
    assert_eq!(
        consent_precondition(&names(&["piper-en"])),
        Err("modelo obrigatório 'whisper-tiny' não instalado — conclua o download antes de continuar".to_string())
    );
    assert_eq!(
        consent_precondition(&names(&["whisper-tiny"])),
        Err("modelo obrigatório 'piper-en' não instalado — conclua o download antes de continuar".to_string())
    );
    assert_eq!(consent_precondition(&names(&["whisper-tiny", "piper-en"])), Ok(()));
}

#[test]
fn catalog_screen_lines() {
    let entries = list_available_models(&names(&["piper-ja"]));
    let got: Vec<(String, String, u32, bool, bool)> = entries
        .into_iter()
        .map(|e| (e.name, e.version, e.size_mb_estimate, e.required, e.installed))
        .collect();
    assert_eq!(
        got,
        vec![
            ("whisper-tiny".to_string(), "1.0.0".to_string(), 75, true, false),
            ("piper-en".to_string(), "1.0.0".to_string(), 63, true, false),
            ("piper-ja".to_string(), "1.0.0".to_string(), 63, false, true),
        ]
    );
}

#[test]
fn model_info_sizes() {
    let info = model_info_from_row(row("piper-en"));
    assert_eq!(info.size_mb_estimate, Some(63));
    assert_eq!(info.path, "/m/x.onnx");
    assert_eq!(model_info_from_row(row("custom")).size_mb_estimate, None);
    let def = get_model("whisper-tiny").unwrap();
    assert_eq!(model_info_after_download(row("whisper-tiny"), &def).size_mb_estimate, Some(75));
    let p = prerequisite_status(false, vec![]);
    assert!(p.ollama_wake_attempted && !p.ollama_available);
}

#[test]
fn settings_roundtrip_and_defaults() {
    assert_eq!(consent_value(true), "true");
    assert_eq!(consent_value(false), "false");
    assert!(parse_audio_persisted(Some("true")));
    assert!(!parse_audio_persisted(Some("TRUE")));
    assert!(!parse_audio_persisted(None));
    assert_eq!(practice_language_or_default(None), "ja");
    assert_eq!(practice_language_or_default(Some("en".to_string())), "en");
    let s = AppSettings { audio_persisted: true, practice_language: "en".to_string() };
    let (a, l) = stored_values(&s);
    let back = settings_from_stored(Some(&a), Some(l));
    assert!(back.audio_persisted);
    assert_eq!(back.practice_language, "en");
    let d = settings_from_stored(None, None);
    assert!(!d.audio_persisted);
    assert_eq!(d.practice_language, "ja");
}

#[test]
fn practice_word_and_targets() {
    let (w, target) = practice_word_from_row(vocab("ja", Some("みず")));
    assert_eq!(w.word, "水");
    assert_eq!(w.reading.as_deref(), Some("みず"));
    assert_eq!(target, "みず");
    assert_eq!(scoring_target(&vocab("ja", None)), "水");
    assert_eq!(speech_text(&vocab("ja", Some("みず"))), "みず");
    assert_eq!(speech_text(&vocab("en", Some("wɔːtə"))), "水");
    assert_eq!(piper_model_name("ja"), "piper-ja");
    assert_eq!(piper_model_name("en"), "piper-en");
}

#[test]
fn tutor_choices() {
    assert!(perfect_score_feedback(100).unwrap().starts_with("Parabéns!"));
    assert_eq!(perfect_score_feedback(99), None);
    assert!(tutor_system_prompt("ja").starts_with("Você é um tutor de japonês"));
    assert!(tutor_system_prompt("en").starts_with("Você é um tutor de inglês"));
    assert!(tutor_system_prompt("ja").contains("\n[DIRETRIZES ABSOLUTAS E OBRIGATÓRIAS]\n- ELIMINAÇÃO"));
    assert_eq!(choose_tutor_model(&names(&["nomic-embed-text", "qwen2:7b", "llama3"])), "qwen2:7b");
    assert_eq!(choose_tutor_model(&names(&["nomic-embed-text"])), "llama3:latest");
    assert_eq!(choose_tutor_model(&names(&[])), "llama3:latest");
}
