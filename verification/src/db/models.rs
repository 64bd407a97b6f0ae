//! Records of the local database, as plain values.

use vstd::prelude::*;

verus! {

/// A vocabulary entry as selected for practice.
pub struct VocabularyRow {
    pub id: String,
    pub word: String,
    pub reading: Option<String>,
    pub translation: String,
    pub language: String,
    pub difficulty: i64,
    pub pitch_pattern: Option<String>,
}

/// A downloaded model as recorded in the model manifest.
pub struct ModelManifestRow {
    pub name: String,
    pub version: String,
    pub path: String,
    pub checksum_sha256: String,
    pub downloaded_at: String,
    pub latest_known_version: Option<String>,
    pub last_update_check_at: Option<String>,
}

/// A complete vocabulary record, with its timestamps.
pub struct Vocabulary {
    pub id: String,
    pub word: String,
    pub reading: Option<String>,
    pub translation: String,
    pub language: String,
    pub difficulty: i64,
    pub pitch_pattern: Option<String>,
    pub created_at: String,
    pub updated_at: String,
}

/// Latencies measured for one attempt, in milliseconds.
pub struct Telemetry {
    pub id: i64,
    pub attempt_id: Option<String>,
    pub stt_latency_ms: Option<i64>,
    pub scoring_latency_ms: Option<i64>,
    pub llm_latency_ms: Option<i64>,
    pub tts_latency_ms: Option<i64>,
    pub created_at: String,
}

/// The characters of an optional string.
pub open spec fn opt_view(o: Option<String>) -> Option<Seq<char>> {
    match o {
        Some(s) => Some(s@),
        None => None,
    }
}

/// The text that stands for a vocabulary entry when spoken or compared: its
/// reading when it has one, else the written word.
pub open spec fn reading_or_word(word: Seq<char>, reading: Option<Seq<char>>) -> Seq<char> {
    match reading {
        Some(r) => r,
        None => word,
    }
}

impl VocabularyRow {
    /// The reading of the entry when it has one, else the written word (the
    /// text a transcript is scored against).
    pub fn reading_or_word(&self) -> (r: String)
        ensures
            r@ == reading_or_word(self.word@, opt_view(self.reading)),
    {
        match &self.reading {
            Some(r) => r.clone(),
            None => self.word.clone(),
        }
    }
}

} // verus!
