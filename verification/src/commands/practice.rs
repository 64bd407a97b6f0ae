//! Practice flow: the word offered for practice and the text a transcript
//! is scored against.

use vstd::prelude::*;
use crate::audio::capture::{clear_last_recorded_wav, take_last_recorded_wav, RecordingSlot};
use crate::db::models::{opt_view, reading_or_word, ModelManifestRow, VocabularyRow};
use crate::text::str_eq;

verus! {

/// A vocabulary entry offered for practice.
pub struct PracticeWord {
    pub id: String,
    pub word: String,
    pub reading: Option<String>,
    pub translation: String,
    pub language: String,
    pub difficulty: i64,
    pub pitch_pattern: Option<String>,
}

/// The practice word for a vocabulary entry, together with the text the
/// user is expected to say (its reading, else the word).
pub fn practice_word_from_row(row: VocabularyRow) -> (r: (PracticeWord, String))
    ensures
        r.0.id@ == row.id@,
        r.0.word@ == row.word@,
        opt_view(r.0.reading) == opt_view(row.reading),
        r.0.translation@ == row.translation@,
        r.0.language@ == row.language@,
        r.0.difficulty == row.difficulty,
        opt_view(r.0.pitch_pattern) == opt_view(row.pitch_pattern),
        r.1@ == reading_or_word(row.word@, opt_view(row.reading)),
{
    let target = row.reading_or_word();
    let w = PracticeWord {
        id: row.id,
        word: row.word,
        reading: row.reading,
        translation: row.translation,
        language: row.language,
        difficulty: row.difficulty,
        pitch_pattern: row.pitch_pattern,
    };
    (w, target)
}

/// The text a transcript of `row` is scored against: the reading when the
/// entry has one, else the word.
pub fn scoring_target(row: &VocabularyRow) -> (r: String)
    ensures
        r@ == reading_or_word(row.word@, opt_view(row.reading)),
{
    row.reading_or_word()
}

/// What the recording slot holds after an attempt was scored, and which
/// recording is handed out to be written to disk: with consent the last
/// recording is handed out, without it the recording is discarded. Either
/// way the slot ends empty.
pub fn release_recording_after_scoring(slot: &mut RecordingSlot, audio_persisted: bool) -> (r: Option<Vec<u8>>)
    ensures
        final(slot)@ is None,
        audio_persisted ==> (match r {
            Some(w) => Some(w@),
            None => None,
        }) == old(slot)@,
        !audio_persisted ==> r is None,
{
    if audio_persisted {
        take_last_recorded_wav(slot)
    } else {
        clear_last_recorded_wav(slot);
        None
    }
}

/// Path recorded for the first manifest row named `name`.
pub open spec fn manifest_path(rows: Seq<ModelManifestRow>, name: Seq<char>) -> Option<Seq<char>>
    decreases rows.len(),
{
    if rows.len() == 0 {
        None
    } else if rows[0].name@ == name {
        Some(rows[0].path@)
    } else {
        manifest_path(rows.drop_first(), name)
    }
}

/// The local path of the installed model `name` (the first manifest row with
/// that name), if it is installed.
pub fn installed_model_path(rows: &Vec<ModelManifestRow>, name: &str) -> (r: Option<String>)
    ensures
        (match r {
            Some(p) => Some(p@),
            None => None,
        }) == manifest_path(rows@, name@),
{
    let mut i: usize = 0;
    assert(rows@.skip(0) =~= rows@);
    while i < rows.len()
        invariant
            i <= rows.len(),
            manifest_path(rows@, name@) == manifest_path(rows@.skip(i as int), name@),
        decreases rows.len() - i,
    {
        assert(rows@.skip(i as int)[0] == rows@[i as int]);
        assert(rows@.skip(i as int).drop_first() =~= rows@.skip(i + 1));
        if str_eq(rows[i].name.as_str(), name) {
            return Some(rows[i].path.clone());
        }
        i += 1;
    }
    None
}

} // verus!
