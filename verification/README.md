# kotoba

A pronunciation trainer for Japanese and English, written in Verus.

- `src/` is the verified library: grapheme-to-phoneme conversion (kana
  tables, MeCab readings, an English dictionary with a letter fallback),
  Levenshtein distances over characters and phonemes, WAV encoding and
  parsing, the honesty check on tutor feedback, the wake-up state machine of
  the local LLM service, the model catalogue, download checksums and retry
  policy, and the decisions the user-facing commands make. Each public
  function has a contract over spec functions; the laws of the library
  (edit-distance metric laws, script independence of kana readings, the WAV
  round trip, the monotonicity of the honesty check and others) are public proof
  functions.
- `app/` is the shell around it: database access (sqlx), HTTP (reqwest),
  sidecar processes (whisper.cpp, Piper, MeCab), audio devices (cpal,
  rodio) and the floating-point score composition.
- `tests/` exercises the library on concrete values.
