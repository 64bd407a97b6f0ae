use kotoba::models::catalog::{get_model, required_onboarding_models};

#[test]
fn catalog_lookup() {
    let w = get_model("whisper-tiny").unwrap();
    assert_eq!(w.name, "whisper-tiny");
    assert_eq!(w.version, "1.0.0");
    assert_eq!(w.size_mb_estimate, 75);
    assert_eq!(w.files.len(), 1);
    assert_eq!(w.files[0].filename, "ggml-tiny.bin");
    let ja = get_model("piper-ja").unwrap();
    assert_eq!(ja.files.len(), 2);
    assert_eq!(ja.files[1].filename, "ja_JP-natsuya-medium.onnx.json");
    assert!(get_model("piper-fr").is_none());
    assert!(get_model("").is_none());
}

#[test]
fn required_models_are_cataloged() {
    let req = required_onboarding_models();
    assert_eq!(req, vec!["whisper-tiny", "piper-en"]);
    for name in req {
        assert_eq!(get_model(name).unwrap().name, name);
    }
}
