//! Encoding of the user settings kept as text in the `settings` table.

use vstd::prelude::*;
use crate::text::str_eq;

verus! {

/// The stored text for the audio-persistence consent.
pub open spec fn consent_text(audio_persisted: bool) -> Seq<char> {
    if audio_persisted { "true"@ } else { "false"@ }
}

/// The consent a stored value stands for: only the exact text `true` grants
/// it; a missing or any other value denies it.
pub open spec fn consent_from_text(value: Option<Seq<char>>) -> bool {
    match value {
        Some(v) => v == "true"@,
        None => false,
    }
}

/// The practice language a stored value stands for, `ja` when none is
/// stored.
pub open spec fn language_from_text(value: Option<Seq<char>>) -> Seq<char> {
    match value {
        Some(v) => v,
        None => "ja"@,
    }
}

/// Text stored for the audio-persistence consent (`bool::to_string`).
pub fn consent_value(audio_persisted: bool) -> (r: String)
    ensures
        r@ == consent_text(audio_persisted),
{
    if audio_persisted {
        "true".to_owned()
    } else {
        "false".to_owned()
    }
}

/// Reads the audio-persistence consent from its stored value.
pub fn parse_audio_persisted(value: Option<&str>) -> (r: bool)
    ensures
        r == consent_from_text(match value {
            Some(v) => Some(v@),
            None => None,
        }),
{
    match value {
        Some(v) => str_eq(v, "true"),
        None => false,
    }
}

/// Reads the practice language from its stored value, `ja` by default.
pub fn practice_language_or_default(value: Option<String>) -> (r: String)
    ensures
        r@ == language_from_text(match value {
            Some(v) => Some(v@),
            None => None,
        }),
{
    match value {
        Some(v) => v,
        None => "ja".to_owned(),
    }
}

/// Reading back a stored consent gives the consent that was stored.
pub proof fn lemma_consent_roundtrip(audio_persisted: bool)
    ensures
        consent_from_text(Some(consent_text(audio_persisted))) == audio_persisted,
{
    reveal_strlit("true");
    reveal_strlit("false");
    assert("false"@.len() != "true"@.len());
}

/// Reading back a stored practice language gives that language.
pub proof fn lemma_language_roundtrip(language: Seq<char>)
    ensures
        language_from_text(Some(language)) == language,
{
}

} // verus!
