//! Onboarding decisions: which models are still missing, what the model
//! catalogue screen shows, and when the consent step may complete.
//!
//! The installed models are read from the model manifest by the caller and
//! passed in as the list of their names.

use vstd::prelude::*;
use crate::db::models::ModelManifestRow;
use crate::models::catalog::{find_model, get_model, required_models, required_onboarding_models, ModelDefinition};
use crate::text::{chars_of, push_str, str_eq, string_from_chars};

verus! {

/// What the onboarding screen learns about the local LLM service.
pub struct PrerequisiteStatus {
    pub ollama_available: bool,
    pub ollama_models: Vec<String>,
    pub ollama_wake_attempted: bool,
}

/// One line of the model catalogue screen.
pub struct ModelCatalogEntry {
    pub name: String,
    pub version: String,
    pub size_mb_estimate: u32,
    pub required: bool,
    pub installed: bool,
}

/// A model as shown after download or in the manifest listing.
pub struct ModelInfo {
    pub name: String,
    pub version: String,
    pub path: String,
    pub downloaded_at: String,
    pub size_mb_estimate: Option<u32>,
}

/// The characters of each string in a list.
pub open spec fn string_views(v: Seq<String>) -> Seq<Seq<char>> {
    v.map_values(|s: String| s@)
}

/// The models listed on the catalogue screen, in display order.
pub open spec fn catalog_screen_names() -> Seq<Seq<char>> {
    seq!["whisper-tiny"@, "piper-en"@, "piper-ja"@]
}

/// Some required model is not installed.
pub open spec fn onboarding_required(installed: Seq<Seq<char>>) -> bool {
    exists|i: int| 0 <= i < required_models().len() && !installed.contains(#[trigger] required_models()[i])
}

/// The message refusing consent while the required model `name` is missing.
pub open spec fn missing_model_message(name: Seq<char>) -> Seq<char> {
    "modelo obrigatório '"@ + name + "' não instalado — conclua o download antes de continuar"@
}

/// `i` is the first required model that is not installed.
pub open spec fn first_missing(installed: Seq<Seq<char>>, i: int) -> bool {
    &&& 0 <= i < required_models().len()
    &&& !installed.contains(required_models()[i])
    &&& forall|j: int| 0 <= j < i ==> installed.contains(#[trigger] required_models()[j])
}

impl ModelCatalogEntry {
    /// The entry shown for the catalogue model `name` given the installed
    /// models.
    pub open spec fn describes(&self, name: Seq<char>, installed: Seq<Seq<char>>) -> bool {
        let m = find_model(name)->0;
        &&& self.name@ == m.name
        &&& self.version@ == m.version
        &&& self.size_mb_estimate == m.size_mb_estimate
        &&& self.required == required_models().contains(name)
        &&& self.installed == installed.contains(name)
    }
}

/// Whether `name` is one of `list`.
pub fn list_contains(list: &Vec<String>, name: &str) -> (r: bool)
    ensures
        r == string_views(list@).contains(name@),
{
    let mut i: usize = 0;
    while i < list.len()
        invariant
            i <= list.len(),
            forall|j: int| 0 <= j < i ==> string_views(list@)[j] != name@,
        decreases list.len() - i,
    {
        if str_eq(list[i].as_str(), name) {
            assert(string_views(list@)[i as int] == name@);
            return true;
        }
        i += 1;
    }
    false
}

/// Whether `name` is a model that onboarding requires.
fn is_required(name: &str) -> (r: bool)
    ensures
        r == required_models().contains(name@),
{
    let req = required_onboarding_models();
    let ghost views = req@.map_values(|s: &str| s@);
    let mut i: usize = 0;
    while i < req.len()
        invariant
            i <= req.len(),
            views == req@.map_values(|s: &str| s@),
            views == required_models(),
            forall|j: int| 0 <= j < i ==> views[j] != name@,
        decreases req.len() - i,
    {
        if str_eq(req[i], name) {
            assert(views[i as int] == name@);
            return true;
        }
        i += 1;
    }
    false
}

/// The prerequisite report after an attempt to wake the local LLM service,
/// which is always made.
pub fn prerequisite_status(available: bool, models: Vec<String>) -> (r: PrerequisiteStatus)
    ensures
        r.ollama_available == available,
        r.ollama_models@ == models@,
        r.ollama_wake_attempted,
{
    PrerequisiteStatus { ollama_available: available, ollama_models: models, ollama_wake_attempted: true }
}

/// Onboarding is required while some required model is not installed.
pub fn is_onboarding_required(installed: &Vec<String>) -> (r: bool)
    ensures
        r == onboarding_required(string_views(installed@)),
{
    let req = required_onboarding_models();
    let ghost views = req@.map_values(|s: &str| s@);
    let mut i: usize = 0;
    while i < req.len()
        invariant
            i <= req.len(),
            views == req@.map_values(|s: &str| s@),
            views == required_models(),
            forall|j: int| 0 <= j < i ==> string_views(installed@).contains(#[trigger] required_models()[j]),
        decreases req.len() - i,
    {
        if !list_contains(installed, req[i]) {
            assert(!string_views(installed@).contains(required_models()[i as int]));
            return true;
        }
        i += 1;
    }
    false
}

/// Consent may be saved only once every required model is installed;
/// otherwise the first missing one is reported.
pub fn consent_precondition(installed: &Vec<String>) -> (r: Result<(), String>)
    ensures
        r is Ok <==> !onboarding_required(string_views(installed@)),
        r matches Err(m) ==> exists|i: int| first_missing(string_views(installed@), i)
            && m@ == missing_model_message(#[trigger] required_models()[i]),
{
    let req = required_onboarding_models();
    let ghost views = req@.map_values(|s: &str| s@);
    let mut i: usize = 0;
    while i < req.len()
        invariant
            i <= req.len(),
            views == req@.map_values(|s: &str| s@),
            views == required_models(),
            forall|j: int| 0 <= j < i ==> string_views(installed@).contains(#[trigger] required_models()[j]),
        decreases req.len() - i,
    {
        if !list_contains(installed, req[i]) {
            let mut v = chars_of("modelo obrigatório '");
            push_str(&mut v, req[i]);
            push_str(&mut v, "' não instalado — conclua o download antes de continuar");
            let m = string_from_chars(&v);
            assert(first_missing(string_views(installed@), i as int));
            return Err(m);
        }
        i += 1;
    }
    Ok(())
}

/// The catalogue line for the catalogue model `name`.
fn catalog_entry(name: &str, installed: &Vec<String>) -> (r: ModelCatalogEntry)
    requires
        find_model(name@) is Some,
    ensures
        r.describes(name@, string_views(installed@)),
{
    match get_model(name) {
        Some(def) => {
            let required = is_required(name);
            let is_installed = list_contains(installed, name);
            let ModelDefinition { name: n, version, size_mb_estimate, files: _ } = def;
            ModelCatalogEntry { name: n, version, size_mb_estimate, required, installed: is_installed }
        },
        None => vstd::pervasive::unreached(),
    }
}

/// The model catalogue screen: whisper-tiny, piper-en and piper-ja, each
/// with its catalogue data, whether onboarding requires it, and whether it
/// is installed.
pub fn list_available_models(installed: &Vec<String>) -> (r: Vec<ModelCatalogEntry>)
    ensures
        r@.len() == catalog_screen_names().len(),
        forall|i: int| 0 <= i < r@.len() ==> (#[trigger] r@[i]).describes(catalog_screen_names()[i], string_views(installed@)),
{
    let mut r: Vec<ModelCatalogEntry> = Vec::new();
    r.push(catalog_entry("whisper-tiny", installed));
    r.push(catalog_entry("piper-en", installed));
    r.push(catalog_entry("piper-ja", installed));
    r
}

/// A manifest row as shown to the user, with the catalogue's size estimate
/// when the model is in the catalogue.
pub fn model_info_from_row(row: ModelManifestRow) -> (r: ModelInfo)
    ensures
        r.name@ == row.name@,
        r.version@ == row.version@,
        r.path@ == row.path@,
        r.downloaded_at@ == row.downloaded_at@,
        r.size_mb_estimate == (match find_model(row.name@) {
            Some(m) => Some(m.size_mb_estimate),
            None => None,
        }),
{
    let size = match get_model(row.name.as_str()) {
        Some(d) => Some(d.size_mb_estimate),
        None => None,
    };
    ModelInfo {
        name: row.name,
        version: row.version,
        path: row.path,
        downloaded_at: row.downloaded_at,
        size_mb_estimate: size,
    }
}

/// The result shown after downloading `definition`, recorded as `row`.
pub fn model_info_after_download(row: ModelManifestRow, definition: &ModelDefinition) -> (r: ModelInfo)
    ensures
        r.name@ == row.name@,
        r.version@ == row.version@,
        r.path@ == row.path@,
        r.downloaded_at@ == row.downloaded_at@,
        r.size_mb_estimate == Some(definition.size_mb_estimate),
{
    ModelInfo {
        name: row.name,
        version: row.version,
        path: row.path,
        downloaded_at: row.downloaded_at,
        size_mb_estimate: Some(definition.size_mb_estimate),
    }
}

/// Saving consent is refused exactly while onboarding is still required.
pub proof fn lemma_consent_follows_onboarding(installed: Seq<Seq<char>>)
    ensures
        onboarding_required(installed) <==> exists|i: int| first_missing(installed, i),
{
    if onboarding_required(installed) {
        if installed.contains(required_models()[0]) {
            assert(first_missing(installed, 1));
        } else {
            assert(first_missing(installed, 0));
        }
    }
}

/// Installing every required model ends onboarding.
pub proof fn lemma_all_required_installed(installed: Seq<Seq<char>>)
    requires
        forall|i: int| 0 <= i < required_models().len() ==> installed.contains(#[trigger] required_models()[i]),
    ensures
        !onboarding_required(installed),
{
}

} // verus!
