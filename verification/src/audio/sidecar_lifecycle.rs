//! Sidecar lifecycle: whisper.cpp and Piper are started on demand and
//! discarded right after use. This module tracks whether the whisper sidecar
//! is live and computes the sidecar file name and command line.

use vstd::prelude::*;
use crate::text::{chars_of, push_str, string_from_chars, trim, trim_chars};

verus! {

/// Which sidecars are currently loaded.
pub struct SidecarState {
    whisper_active: bool,
}

impl View for SidecarState {
    type V = bool;

    /// Whether the whisper sidecar is loaded.
    closed spec fn view(&self) -> bool {
        self.whisper_active
    }
}

impl SidecarState {
    /// No sidecar loaded.
    pub fn new() -> (s: SidecarState)
        ensures
            !s@,
    {
        SidecarState { whisper_active: false }
    }
}

/// One call of the sidecar lifecycle.
#[derive(PartialEq, Eq, Structural)]
pub enum SidecarCall {
    LoadWhisper,
    UnloadWhisper,
    LoadPiper,
    UnloadPiper,
    QueryWhisper,
}

/// Whether whisper is loaded after `call`, given whether it was before.
pub open spec fn sidecar_step(active: bool, call: SidecarCall) -> bool {
    match call {
        SidecarCall::LoadWhisper => true,
        SidecarCall::UnloadWhisper => false,
        _ => active,
    }
}

/// Whether whisper is loaded after the calls `calls`, made in order from a
/// state where it was `active`.
pub open spec fn sidecar_replay(active: bool, calls: Seq<SidecarCall>) -> bool
    decreases calls.len(),
{
    if calls.len() == 0 {
        active
    } else {
        sidecar_step(sidecar_replay(active, calls.drop_last()), calls.last())
    }
}

/// Some call of `calls` loads whisper and no later call unloads it.
pub open spec fn loaded_and_not_unloaded_since(calls: Seq<SidecarCall>) -> bool {
    exists|i: int|
        0 <= i < calls.len() && #[trigger] calls[i] == SidecarCall::LoadWhisper && forall|j: int|
            i < j < calls.len() ==> calls[j] != SidecarCall::UnloadWhisper
}

/// Whether the whisper sidecar is loaded.
pub fn is_whisper_active(state: &SidecarState) -> (r: bool)
    ensures
        r == state@,
        r == sidecar_step(state@, SidecarCall::QueryWhisper),
{
    state.whisper_active
}

/// Marks the whisper sidecar as loaded.
pub fn load_whisper(state: &mut SidecarState)
    ensures
        final(state)@,
        final(state)@ == sidecar_step(old(state)@, SidecarCall::LoadWhisper),
{
    state.whisper_active = true;
}

/// Marks the whisper sidecar as unloaded.
pub fn unload_whisper(state: &mut SidecarState)
    ensures
        !final(state)@,
        final(state)@ == sidecar_step(old(state)@, SidecarCall::UnloadWhisper),
{
    state.whisper_active = false;
}

/// Piper is started per request and keeps no state here: loading it leaves
/// the tracked state unchanged.
pub fn load_piper(state: &mut SidecarState)
    ensures
        final(state)@ == old(state)@,
        final(state)@ == sidecar_step(old(state)@, SidecarCall::LoadPiper),
{
}

/// Piper is discarded per request: unloading it leaves the tracked state
/// unchanged.
pub fn unload_piper(state: &mut SidecarState)
    ensures
        final(state)@ == old(state)@,
        final(state)@ == sidecar_step(old(state)@, SidecarCall::UnloadPiper),
{
}

/// Starting from a fresh state, whisper is reported active exactly when it
/// has been loaded and not unloaded since; Piper calls and queries do not
/// change the answer.
pub proof fn lemma_whisper_active_history(calls: Seq<SidecarCall>)
    ensures
        sidecar_replay(false, calls) == loaded_and_not_unloaded_since(calls),
    decreases calls.len(),
{
    if calls.len() > 0 {
        let pre = calls.drop_last();
        let n = calls.len() - 1;
        lemma_whisper_active_history(pre);
        if calls[n] == SidecarCall::LoadWhisper {
            assert(calls[n] == SidecarCall::LoadWhisper);
        } else if calls[n] == SidecarCall::UnloadWhisper {
            assert forall|i: int|
                0 <= i < calls.len() && #[trigger] calls[i] == SidecarCall::LoadWhisper implies
                    exists|j: int| i < j < calls.len() && calls[j] == SidecarCall::UnloadWhisper by {
                assert(i < n);
                assert(calls[n] == SidecarCall::UnloadWhisper);
            }
        } else {
            if loaded_and_not_unloaded_since(pre) {
                let i = choose|i: int|
                    0 <= i < pre.len() && #[trigger] pre[i] == SidecarCall::LoadWhisper && forall|j: int|
                        i < j < pre.len() ==> pre[j] != SidecarCall::UnloadWhisper;
                assert(calls[i] == SidecarCall::LoadWhisper);
                assert forall|j: int| i < j < calls.len() implies calls[j] != SidecarCall::UnloadWhisper by {
                    if j < n {
                        assert(calls[j] == pre[j]);
                    }
                }
            }
            if loaded_and_not_unloaded_since(calls) {
                let i = choose|i: int|
                    0 <= i < calls.len() && #[trigger] calls[i] == SidecarCall::LoadWhisper && forall|j: int|
                        i < j < calls.len() ==> calls[j] != SidecarCall::UnloadWhisper;
                assert(i < n);
                assert(pre[i] == SidecarCall::LoadWhisper);
                assert forall|j: int| i < j < pre.len() implies pre[j] != SidecarCall::UnloadWhisper by {
                    assert(calls[j] == pre[j]);
                }
            }
        }
    }
}

/// File name of a sidecar binary for a target: `{name}-{triple}{ext}`.
pub open spec fn sidecar_file_name(name: Seq<char>, triple: Seq<char>, ext: Seq<char>) -> Seq<char> {
    name + "-"@ + triple + ext
}

/// File name of the sidecar binary `name` built for `target_triple`, with the
/// platform's executable extension `ext` (`.exe` on Windows, empty elsewhere).
pub fn sidecar_filename(name: &str, target_triple: &str, ext: &str) -> (r: String)
    ensures
        r@ == sidecar_file_name(name@, target_triple@, ext@),
{
    let mut v = chars_of(name);
    push_str(&mut v, "-");
    push_str(&mut v, target_triple);
    push_str(&mut v, ext);
    string_from_chars(&v)
}

/// Path of the transcript whisper.cpp writes next to the audio file.
pub open spec fn transcript_path(wav_path: Seq<char>) -> Seq<char> {
    wav_path + ".txt"@
}

/// The whisper.cpp command line for transcribing `wav_path` in `language`.
pub open spec fn whisper_arguments(model_path: Seq<char>, wav_path: Seq<char>, language: Seq<char>) -> Seq<Seq<char>> {
    seq!["--model"@, model_path, "--file"@, wav_path, "--language"@, language, "--output-txt"@]
}

/// Path of the transcript whisper.cpp writes for `wav_path`.
pub fn whisper_output_path(wav_path: &str) -> (r: String)
    ensures
        r@ == transcript_path(wav_path@),
{
    let mut v = chars_of(wav_path);
    push_str(&mut v, ".txt");
    string_from_chars(&v)
}

/// The whisper.cpp arguments: model, input file, language, and a request
/// for a `.txt` transcript.
pub fn whisper_args(model_path: &str, wav_path: &str, language: &str) -> (r: Vec<String>)
    ensures
        r@.map_values(|s: String| s@) == whisper_arguments(model_path@, wav_path@, language@),
{
    let mut r: Vec<String> = Vec::new();
    r.push("--model".to_owned());
    r.push(model_path.to_owned());
    r.push("--file".to_owned());
    r.push(wav_path.to_owned());
    r.push("--language".to_owned());
    r.push(language.to_owned());
    r.push("--output-txt".to_owned());
    assert(r@.map_values(|s: String| s@) =~= whisper_arguments(model_path@, wav_path@, language@));
    r
}

/// The transcription in a whisper.cpp transcript file: its content with
/// surrounding whitespace removed.
pub fn transcript_from_output(content: &str) -> (r: String)
    ensures
        r@ == trim(content@),
{
    let v = chars_of(content);
    let t = trim_chars(&v);
    string_from_chars(&t)
}

} // verus!
