//! User settings: how they are read from, and written to, their stored text
//! values.

use vstd::prelude::*;
use crate::db::settings::{
    consent_from_text, consent_text, consent_value, language_from_text, lemma_consent_roundtrip,
    parse_audio_persisted, practice_language_or_default,
};

verus! {

/// The settings screen.
pub struct AppSettings {
    pub audio_persisted: bool,
    pub practice_language: String,
}

/// The settings stood for by the stored consent and language values.
pub fn settings_from_stored(audio_persisted: Option<&str>, practice_language: Option<String>) -> (r: AppSettings)
    ensures
        r.audio_persisted == consent_from_text(match audio_persisted {
            Some(v) => Some(v@),
            None => None,
        }),
        r.practice_language@ == language_from_text(match practice_language {
            Some(v) => Some(v@),
            None => None,
        }),
{
    AppSettings {
        audio_persisted: parse_audio_persisted(audio_persisted),
        practice_language: practice_language_or_default(practice_language),
    }
}

/// The values stored for `settings`: the consent text and the language.
pub fn stored_values(settings: &AppSettings) -> (r: (String, String))
    ensures
        r.0@ == consent_text(settings.audio_persisted),
        r.1@ == settings.practice_language@,
{
    (consent_value(settings.audio_persisted), settings.practice_language.clone())
}

/// Reading the settings back after saving them gives the saved settings.
pub proof fn lemma_settings_roundtrip(audio_persisted: bool, practice_language: Seq<char>)
    ensures
        consent_from_text(Some(consent_text(audio_persisted))) == audio_persisted,
        language_from_text(Some(practice_language)) == practice_language,
{
    lemma_consent_roundtrip(audio_persisted);
}

} // verus!
