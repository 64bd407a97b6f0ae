//! Pronunciation-practice core: transcript and phoneme scoring, Japanese
//! and English grapheme-to-phoneme conversion, the honesty check on tutor
//! feedback, the WAV format of recordings, the model catalogue and the
//! decisions of the onboarding, practice, settings and service wake-up
//! flows.

use vstd::prelude::*;

pub mod audio;
pub mod commands;
pub mod db;
pub mod llm;
pub mod models;
pub mod scoring;
pub mod text;
