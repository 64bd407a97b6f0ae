//! Text-to-speech choices: what is spoken for a vocabulary entry and with
//! which Piper voice.

use vstd::prelude::*;
use crate::db::models::{opt_view, reading_or_word, VocabularyRow};
use crate::text::str_eq;

verus! {

/// The text spoken for an entry: for Japanese its reading when it has one
/// (else the word), for any other language the word.
pub open spec fn speech_text_spec(language: Seq<char>, word: Seq<char>, reading: Option<Seq<char>>) -> Seq<char> {
    if language == "ja"@ {
        reading_or_word(word, reading)
    } else {
        word
    }
}

/// The Piper voice for a language: `piper-ja` for Japanese, `piper-en`
/// otherwise.
pub open spec fn voice_for(language: Seq<char>) -> Seq<char> {
    if language == "ja"@ { "piper-ja"@ } else { "piper-en"@ }
}

/// The text Piper speaks for `row`.
pub fn speech_text(row: &VocabularyRow) -> (r: String)
    ensures
        r@ == speech_text_spec(row.language@, row.word@, opt_view(row.reading)),
{
    if str_eq(row.language.as_str(), "ja") {
        row.reading_or_word()
    } else {
        row.word.clone()
    }
}

/// The Piper voice model used for `language`.
pub fn piper_model_name(language: &str) -> (r: &'static str)
    ensures
        r@ == voice_for(language@),
{
    if str_eq(language, "ja") { "piper-ja" } else { "piper-en" }
}

} // verus!
