use kotoba::llm::honesty_gate::{validate_feedback, GateVerdict};

#[test]
fn passes_valid_corrective_feedback() {
    let (text, verdict) = validate_feedback(
        30,
        "Sua pronúncia precisa melhorar bastante. Tente ouvir o áudio novamente.",
        "水",
        "みず",
    );
    assert_eq!(verdict, GateVerdict::Pass);
    assert!(text.contains("precisa melhorar"));
}

#[test]
fn blocks_false_praise_at_low_score() {
    let (text, verdict) = validate_feedback(25, "Excelente trabalho! Sua pronúncia está perfeita.", "水", "みず");
    assert_eq!(verdict, GateVerdict::FallbackApplied);
    assert!(text.contains("25"));
}

#[test]
fn blocks_mid_praise_below_50() {
    let (text, verdict) = validate_feedback(40, "Bom trabalho, quase lá!", "橋", "はし");
    assert_eq!(verdict, GateVerdict::FallbackApplied);
    assert!(text.contains("40"));
}

#[test]
fn allows_mild_praise_between_50_and_75() {
    let (text, verdict) = validate_feedback(60, "Bom trabalho, continue praticando!", "橋", "はし");
    assert_eq!(verdict, GateVerdict::Pass);
    assert!(text.contains("Bom trabalho"));
}

#[test]
fn blocks_excessive_praise_between_50_and_75() {
    let (text, verdict) = validate_feedback(65, "Perfeito! Sua pronúncia está excelente.", "橋", "はし");
    assert_eq!(verdict, GateVerdict::FallbackApplied);
    assert!(text.contains("65"));
}

#[test]
fn allows_all_praise_above_75() {
    let (text, verdict) = validate_feedback(90, "Excelente! Pronúncia quase perfeita.", "ありがとう", "ありがとう");
    assert_eq!(verdict, GateVerdict::Pass);
    assert!(text.contains("Excelente"));
}

#[test]
fn fallback_templates_exact() {
    let (low, _) = validate_feedback(12, "PERFECT!", "水", "みず");
    assert_eq!(
        low,
        "A pronúncia registrada está muito distante de **水** (みず). Tente praticar cada sílaba individualmente em voz alta antes de gravar. Score: 12/100."
    );
    let (mid, _) = validate_feedback(45, "good job", "橋", "はし");
    assert_eq!(
        mid,
        "Há diferenças significativas em relação a **橋** (はし). Preste atenção à sequência de sons e ao ritmo da palavra. Score: 45/100."
    );
    let (high, _) = validate_feedback(74, "Well done!", "cat", "cat");
    assert_eq!(
        high,
        "Sua pronúncia de **cat** (cat) está na direção certa, mas ainda precisa de ajustes. Concentre-se na clareza de cada vogal e na duração das sílabas. Score: 74/100."
    );
}

#[test]
fn gate_thresholds_at_boundaries() {
    assert_eq!(validate_feedback(49, "bom", "a", "a").1, GateVerdict::FallbackApplied);
    assert_eq!(validate_feedback(50, "bom", "a", "a").1, GateVerdict::Pass);
    assert_eq!(validate_feedback(74, "ótimo", "a", "a").1, GateVerdict::FallbackApplied);
    assert_eq!(validate_feedback(75, "ótimo", "a", "a").1, GateVerdict::Pass);
    assert_eq!(validate_feedback(0, "", "a", "a").1, GateVerdict::Pass);
}

#[test]
fn negative_score_renders_sign() {
    let (text, verdict) = validate_feedback(-3, "amazing", "a", "b");
    assert_eq!(verdict, GateVerdict::FallbackApplied);
    assert!(text.ends_with("Score: -3/100."));
}

#[test]
fn raising_score_never_blocks_passing_text() {
    let text = "Bom trabalho!";
    assert_eq!(validate_feedback(40, text, "a", "a").1, GateVerdict::FallbackApplied);
    assert_eq!(validate_feedback(55, text, "a", "a").1, GateVerdict::Pass);
    assert_eq!(validate_feedback(95, text, "a", "a").1, GateVerdict::Pass);
}
