//! Tutor feedback decisions: the Perfect Score Protocol, the system prompt
//! per language, and the choice of local LLM model.

use vstd::prelude::*;
use crate::text::{chars_of, contains, seq_contains, str_eq};

verus! {

/// System prompt for Japanese practice.
pub const JA_SYSTEM_PROMPT: &'static str = "Você é um tutor de japonês atencioso, empático e detalhista. Seu objetivo é ajudar um estudante brasileiro a melhorar a pronúncia das palavras.\n\
    [DIRETRIZES ABSOLUTAS E OBRIGATÓRIAS]\n\
    - ELIMINAÇÃO DE JARGÃO: É estritamente proibido usar jargões fonéticos complexos como \"alveolar\", \"bilabial\", \"velar\" ou \"fricativa\" (e suas variações). Explique como posicionar a língua e os lábios de forma simples e leiga (exemplo: coloque a ponta da língua atrás dos dentes de cima).\n\
    - FOCO PRÁTICO: Dê dicas totalmente focadas na mecânica real: postura da boca/lábios, pausas para respiração (especialmente antes de consoantes duplas/sokuon) e ritmo/tempo da fala comparando com a palavra original.\n\
    - DIRETRIZ CRÍTICA DE ALINHAMENTO: Você receberá um detalhamento de notas (score breakdown) contendo 'text_score' (similaridade ortográfica) e 'phonetic_score' (similaridade fonética/de pronúncia). Se 'phonetic_score' for 100% ou muito próximo disso (ex: >= 90%), a pronúncia do usuário foi matematicamente perfeita. Se o score total ou o 'text_score' for baixo, isso se deve estritamente a uma discrepância ortográfica (exemplo: Kanji vs. Hiragana). Nesse cenário, NÃO alucine erros anatômicos, de respiração ou de posicionamento da língua. Em vez disso, parabenize a pronúncia impecável e note gentilmente a variação de escrita.\n\
    Seja breve e construtivo. Ignore pontuações como pontos finais ou exclamações na transcrição obtida.";

/// System prompt for English (and any other) practice.
pub const EN_SYSTEM_PROMPT: &'static str = "Você é um tutor de inglês atencioso, empático e detalhista. Seu objetivo é ajudar um estudante brasileiro a melhorar a pronúncia das palavras.\n\
    [DIRETRIZES ABSOLUTAS E OBRIGATÓRIAS]\n\
    - ELIMINAÇÃO DE JARGÃO: É estritamente proibido usar jargões fonéticos complexos como \"alveolar\", \"bilabial\", \"velar\" ou \"fricativa\" (e suas variações). Explique como posicionar a língua e os lábios de forma simples e leiga.\n\
    - FOCO PRÁTICO: Dê dicas totalmente focadas na mecânica real: postura da boca/lábios, pausas para respiração e ritmo/tempo da fala comparando com a palavra original.\n\
    - DIRETRIZ CRÍTICA DE ALINHAMENTO: Você receberá um detalhamento de notas (score breakdown) contendo 'text_score' (similaridade ortográfica) e 'phonetic_score' (similaridade fonética/de pronúncia). Se 'phonetic_score' for 100% ou muito próximo disso (ex: >= 90%), a pronúncia do usuário foi matematicamente perfeita. Se o score total ou o 'text_score' for baixo, isso se deve estritamente a uma discrepância de digitação ou representação escrita. Nesse cenário, NÃO alucine erros anatômicos, de respiração ou de posicionamento da língua. Em vez disso, parabenize a pronúncia impecável e note gentilmente a variação de escrita.\n\
    Seja breve e construtivo. Ignore pontuações como pontos finais ou exclamações na transcrição obtida.";

/// Feedback given for a flawless score, without consulting the LLM.
pub const PERFECT_SCORE_FEEDBACK: &'static str = "Parabéns! Sua pronúncia foi perfeita e idêntica à de um falante nativo. Excelente trabalho!";

/// Model used when the local service lists no suitable model.
pub const FALLBACK_TUTOR_MODEL: &'static str = "llama3:latest";

/// Perfect Score Protocol: a score of exactly 100 is answered with the fixed
/// congratulation and nothing else; any other score goes to the LLM.
pub fn perfect_score_feedback(score: i32) -> (r: Option<&'static str>)
    ensures
        score == 100 ==> r == Some(PERFECT_SCORE_FEEDBACK),
        score != 100 ==> r is None,
{
    if score == 100 {
        Some(PERFECT_SCORE_FEEDBACK)
    } else {
        None
    }
}

/// The system prompt for practice in `language`: the Japanese prompt for
/// `ja`, the English one otherwise.
pub fn tutor_system_prompt(language: &str) -> (r: &'static str)
    ensures
        r@ == (if language@ == "ja"@ { JA_SYSTEM_PROMPT@ } else { EN_SYSTEM_PROMPT@ }),
{
    if str_eq(language, "ja") {
        JA_SYSTEM_PROMPT
    } else {
        EN_SYSTEM_PROMPT
    }
}

/// The first model name that is not an embedding model (its name does not
/// contain `embed`), in the order the service lists them.
pub open spec fn first_chat_model(names: Seq<Seq<char>>) -> Option<Seq<char>>
    decreases names.len(),
{
    if names.len() == 0 {
        None
    } else if !seq_contains(names[0], "embed"@) {
        Some(names[0])
    } else {
        first_chat_model(names.drop_first())
    }
}

/// The model used for tutor feedback among those the local service lists:
/// the first that is not an embedding model, else `llama3:latest`.
pub fn choose_tutor_model(names: &Vec<String>) -> (r: String)
    ensures
        r@ == (match first_chat_model(names@.map_values(|s: String| s@)) {
            Some(n) => n,
            None => FALLBACK_TUTOR_MODEL@,
        }),
{
    let ghost views = names@.map_values(|s: String| s@);
    let embed = chars_of("embed");
    let mut i: usize = 0;
    assert(views.skip(0) =~= views);
    while i < names.len()
        invariant
            i <= names.len(),
            embed@ == "embed"@,
            views == names@.map_values(|s: String| s@),
            first_chat_model(views) == first_chat_model(views.skip(i as int)),
        decreases names.len() - i,
    {
        let n = chars_of(names[i].as_str());
        assert(views.skip(i as int)[0] == views[i as int]);
        assert(views.skip(i as int).drop_first() =~= views.skip(i + 1));
        if !contains(&n, &embed) {
            return names[i].clone();
        }
        i += 1;
    }
    assert(views.skip(i as int).len() == 0);
    FALLBACK_TUTOR_MODEL.to_owned()
}

} // verus!
