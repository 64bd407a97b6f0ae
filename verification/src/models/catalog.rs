//! Static catalogue of the artefacts downloaded on demand (speech
//! recognition and synthesis models).

use vstd::prelude::*;
use crate::text::str_eq;

verus! {

/// One file of a model: where it is downloaded from and its local name.
pub struct ModelFile {
    pub url: String,
    pub filename: String,
}

/// A downloadable model.
pub struct ModelDefinition {
    pub name: String,
    pub version: String,
    pub size_mb_estimate: u32,
    pub files: Vec<ModelFile>,
}

/// A model as data: name, version, size estimate and `(url, filename)` of
/// each file, in download order.
pub struct ModelSpec {
    pub name: Seq<char>,
    pub version: Seq<char>,
    pub size_mb_estimate: u32,
    pub files: Seq<(Seq<char>, Seq<char>)>,
}

impl ModelDefinition {
    /// The definition as data.
    pub open spec fn spec(&self) -> ModelSpec {
        ModelSpec {
            name: self.name@,
            version: self.version@,
            size_mb_estimate: self.size_mb_estimate,
            files: self.files@.map_values(|f: ModelFile| (f.url@, f.filename@)),
        }
    }
}

/// whisper.cpp tiny model.
pub open spec fn whisper_tiny_spec() -> ModelSpec {
    ModelSpec {
        name: "whisper-tiny"@,
        version: "1.0.0"@,
        size_mb_estimate: 75,
        files: seq![(
            "https://huggingface.co/ggerganov/whisper.cpp/resolve/main/ggml-tiny.bin"@,
            "ggml-tiny.bin"@,
        )],
    }
}

/// Piper English voice (model and its JSON configuration).
pub open spec fn piper_en_spec() -> ModelSpec {
    ModelSpec {
        name: "piper-en"@,
        version: "1.0.0"@,
        size_mb_estimate: 63,
        files: seq![
            (
                "https://huggingface.co/rhasspy/piper-voices/resolve/main/en/en_US/lessac/medium/en_US-lessac-medium.onnx"@,
                "en_US-lessac-medium.onnx"@,
            ),
            (
                "https://huggingface.co/rhasspy/piper-voices/resolve/main/en/en_US/lessac/medium/en_US-lessac-medium.onnx.json"@,
                "en_US-lessac-medium.onnx.json"@,
            ),
        ],
    }
}

/// Piper Japanese voice (model and its JSON configuration).
pub open spec fn piper_ja_spec() -> ModelSpec {
    ModelSpec {
        name: "piper-ja"@,
        version: "1.0.0"@,
        size_mb_estimate: 63,
        files: seq![
            (
                "https://huggingface.co/rhasspy/piper-voices/resolve/main/ja/ja_JP/natsuya/medium/ja_JP-natsuya-medium.onnx"@,
                "ja_JP-natsuya-medium.onnx"@,
            ),
            (
                "https://huggingface.co/rhasspy/piper-voices/resolve/main/ja/ja_JP/natsuya/medium/ja_JP-natsuya-medium.onnx.json"@,
                "ja_JP-natsuya-medium.onnx.json"@,
            ),
        ],
    }
}

/// The first catalogue entry named `name`, in catalogue order.
pub open spec fn find_model(name: Seq<char>) -> Option<ModelSpec> {
    if name == "whisper-tiny"@ {
        Some(whisper_tiny_spec())
    } else if name == "piper-en"@ {
        Some(piper_en_spec())
    } else if name == "piper-ja"@ {
        Some(piper_ja_spec())
    } else {
        None
    }
}

/// Names of the models that onboarding must install.
pub open spec fn required_models() -> Seq<Seq<char>> {
    seq!["whisper-tiny"@, "piper-en"@]
}

fn model_file(url: &str, filename: &str) -> (f: ModelFile)
    ensures
        f.url@ == url@,
        f.filename@ == filename@,
{
    ModelFile { url: url.to_owned(), filename: filename.to_owned() }
}

/// Looks a model up in the catalogue by name.
pub fn get_model(name: &str) -> (r: Option<ModelDefinition>)
    ensures
        (match r {
            Some(d) => Some(d.spec()),
            None => None,
        }) == find_model(name@),
{
    if str_eq(name, "whisper-tiny") {
        let mut files: Vec<ModelFile> = Vec::new();
        files.push(model_file(
            "https://huggingface.co/ggerganov/whisper.cpp/resolve/main/ggml-tiny.bin",
            "ggml-tiny.bin",
        ));
        let d = ModelDefinition {
            name: "whisper-tiny".to_owned(),
            version: "1.0.0".to_owned(),
            size_mb_estimate: 75,
            files,
        };
        assert(d.spec().files =~= whisper_tiny_spec().files);
        Some(d)
    } else if str_eq(name, "piper-en") {
        let mut files: Vec<ModelFile> = Vec::new();
        files.push(model_file(
            "https://huggingface.co/rhasspy/piper-voices/resolve/main/en/en_US/lessac/medium/en_US-lessac-medium.onnx",
            "en_US-lessac-medium.onnx",
        ));
        files.push(model_file(
            "https://huggingface.co/rhasspy/piper-voices/resolve/main/en/en_US/lessac/medium/en_US-lessac-medium.onnx.json",
            "en_US-lessac-medium.onnx.json",
        ));
        let d = ModelDefinition {
            name: "piper-en".to_owned(),
            version: "1.0.0".to_owned(),
            size_mb_estimate: 63,
            files,
        };
        assert(d.spec().files =~= piper_en_spec().files);
        Some(d)
    } else if str_eq(name, "piper-ja") {
        let mut files: Vec<ModelFile> = Vec::new();
        files.push(model_file(
            "https://huggingface.co/rhasspy/piper-voices/resolve/main/ja/ja_JP/natsuya/medium/ja_JP-natsuya-medium.onnx",
            "ja_JP-natsuya-medium.onnx",
        ));
        files.push(model_file(
            "https://huggingface.co/rhasspy/piper-voices/resolve/main/ja/ja_JP/natsuya/medium/ja_JP-natsuya-medium.onnx.json",
            "ja_JP-natsuya-medium.onnx.json",
        ));
        let d = ModelDefinition {
            name: "piper-ja".to_owned(),
            version: "1.0.0".to_owned(),
            size_mb_estimate: 63,
            files,
        };
        assert(d.spec().files =~= piper_ja_spec().files);
        Some(d)
    } else {
        None
    }
}

/// Names of the models that onboarding must install before practice starts.
pub fn required_onboarding_models() -> (r: Vec<&'static str>)
    ensures
        r@.map_values(|s: &str| s@) == required_models(),
{
    let r: Vec<&'static str> = vec!["whisper-tiny", "piper-en"];
    assert(r@.map_values(|s: &str| s@) =~= required_models());
    r
}

/// Every model that onboarding requires is in the catalogue, under that
/// very name, and has at least one file to download.
pub proof fn lemma_required_models_in_catalog(i: int)
    requires
        0 <= i < required_models().len(),
    ensures
        find_model(required_models()[i]) is Some,
        find_model(required_models()[i])->0.name == required_models()[i],
        find_model(required_models()[i])->0.files.len() >= 1,
{
}

/// A catalogue lookup returns an entry carrying the name it was asked for.
pub proof fn lemma_find_model_name(name: Seq<char>)
    ensures
        find_model(name) matches Some(m) ==> m.name == name,
{
}

} // verus!
