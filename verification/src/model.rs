//! The catalogue of Whisper models and the layout of the model cache:
//! file names, cache paths, download URLs and the size check.

use vstd::prelude::*;
use crate::error::AppError;
use crate::paths::{joined_path, path_join};
use crate::text::{join2, join3, join4, text_eq};

verus! {

/// Whisper model size info.
pub struct ModelInfo {
    pub name: &'static str,
    pub description: &'static str,
    pub f16_size_mb: u32,
    pub ggml_filename: &'static str,
}

fn model_info(
    name: &'static str,
    description: &'static str,
    f16_size_mb: u32,
    ggml_filename: &'static str,
) -> (r: ModelInfo)
    ensures
        r.name == name && r.description == description && r.f16_size_mb == f16_size_mb
            && r.ggml_filename == ggml_filename,
{
    ModelInfo { name, description, f16_size_mb, ggml_filename }
}

/// The supported models, smallest first, by name and published size of
/// the full-precision file in megabytes (10^6 bytes).
pub open spec fn model_catalogue() -> Seq<(Seq<char>, nat)> {
    seq![("tiny"@, 75nat), ("base"@, 148nat), ("small"@, 488nat), ("medium"@, 1500nat), ("large-v3-turbo"@, 800nat)]
}

/// The supported models, smallest first.
pub fn models() -> (r: Vec<ModelInfo>)
    ensures
        r@.len() == 5,
        r@.len() == model_catalogue().len(),
        forall|i: int|
            0 <= i < r@.len() ==> #[trigger] r@[i].name@ == model_catalogue()[i].0 && r@[i].f16_size_mb
                == model_catalogue()[i].1,
        r@[0].name@ == "tiny"@ && r@[0].description@ == "Fastest, lowest quality"@ && r@[0].f16_size_mb == 75
            && r@[0].ggml_filename@ == "ggml-tiny.bin"@,
        r@[1].name@ == "base"@ && r@[1].description@ == "Default, balanced"@ && r@[1].f16_size_mb == 148
            && r@[1].ggml_filename@ == "ggml-base.bin"@,
        r@[2].name@ == "small"@ && r@[2].description@ == "Better quality"@ && r@[2].f16_size_mb == 488
            && r@[2].ggml_filename@ == "ggml-small.bin"@,
        r@[3].name@ == "medium"@ && r@[3].description@ == "High quality"@ && r@[3].f16_size_mb == 1500
            && r@[3].ggml_filename@ == "ggml-medium.bin"@,
        r@[4].name@ == "large-v3-turbo"@ && r@[4].description@ == "Best quality/speed ratio"@
            && r@[4].f16_size_mb == 800 && r@[4].ggml_filename@ == "ggml-large-v3-turbo.bin"@,
{
    let mut v: Vec<ModelInfo> = Vec::new();
    v.push(model_info("tiny", "Fastest, lowest quality", 75, "ggml-tiny.bin"));
    v.push(model_info("base", "Default, balanced", 148, "ggml-base.bin"));
    v.push(model_info("small", "Better quality", 488, "ggml-small.bin"));
    v.push(model_info("medium", "High quality", 1500, "ggml-medium.bin"));
    v.push(model_info("large-v3-turbo", "Best quality/speed ratio", 800, "ggml-large-v3-turbo.bin"));
    v
}

/// The file name of a model: `ggml-<name>.bin`, or
/// `ggml-<name>-<quantization>.bin` for a quantized variant.
pub open spec fn model_file_name(name: Seq<char>, quantization: Option<Seq<char>>) -> Seq<char> {
    match quantization {
        Some(q) => "ggml-"@ + name + "-"@ + q + ".bin"@,
        None => "ggml-"@ + name + ".bin"@,
    }
}

/// Where the models are published.
pub open spec fn model_download_prefix() -> Seq<char> {
    "https://huggingface.co/ggerganov/whisper.cpp/resolve/main/"@
}

/// The view of an optional text argument.
pub open spec fn opt_view(o: Option<&str>) -> Option<Seq<char>> {
    match o {
        Some(s) => Some(s@),
        None => None,
    }
}

/// Builds the file name of a model.
pub fn model_file_name_of(name: &str, quantization: Option<&str>) -> (r: String)
    ensures
        r@ == model_file_name(name@, opt_view(quantization)),
{
    match quantization {
        Some(q) => {
            let mut s = join4("ggml-", name, "-", q);
            s.append(".bin");
            s
        },
        None => join3("ggml-", name, ".bin"),
    }
}

/// Knows where downloaded models are kept.
pub struct ModelManager {
    cache_dir: String,
}

impl View for ModelManager {
    type V = Seq<char>;

    /// The cache directory.
    closed spec fn view(&self) -> Seq<char> {
        self.cache_dir@
    }
}

impl ModelManager {
    /// A manager for the cache directory `cache_dir`.
    pub fn new(cache_dir: String) -> (r: Self)
        ensures
            r@ == cache_dir@,
    {
        ModelManager { cache_dir }
    }

    /// The cached file of the full-precision model `model_name`.
    pub fn model_path(&self, model_name: &str) -> (r: String)
        ensures
            r@ == joined_path(self@, model_file_name(model_name@, None)),
    {
        let file = model_file_name_of(model_name, None);
        path_join(self.cache_dir.as_str(), file.as_str())
    }

    /// The cached file of `model_name` quantized as `quantization`.
    pub fn quantized_model_path(&self, model_name: &str, quantization: &str) -> (r: String)
        ensures
            r@ == joined_path(self@, model_file_name(model_name@, Some(quantization@))),
    {
        let file = model_file_name_of(model_name, Some(quantization));
        path_join(self.cache_dir.as_str(), file.as_str())
    }

    /// The cached file of `model_name`, quantized when `quantization` is
    /// given: the file that the cache check, the download and the loader
    /// use.
    pub fn model_file_path(&self, model_name: &str, quantization: Option<&str>) -> (r: String)
        ensures
            r@ == joined_path(self@, model_file_name(model_name@, opt_view(quantization))),
    {
        match quantization {
            Some(q) => self.quantized_model_path(model_name, q),
            None => self.model_path(model_name),
        }
    }

    /// The cache directory.
    pub fn cache_dir(&self) -> (r: &str)
        ensures
            r@ == self@,
    {
        self.cache_dir.as_str()
    }

    /// Where `model_name` (quantized as `quantization`, if given) is
    /// downloaded from.
    pub fn download_url(model_name: &str, quantization: Option<&str>) -> (r: String)
        ensures
            r@ == model_download_prefix() + model_file_name(model_name@, opt_view(quantization)),
    {
        let file = model_file_name_of(model_name, quantization);
        proof {
            reveal_strlit("https://huggingface.co/ggerganov/whisper.cpp/resolve/main/");
        }
        join2("https://huggingface.co/ggerganov/whisper.cpp/resolve/main/", file.as_str())
    }
}

/// Checks the HTTP status of a model download.
pub fn check_download_status(model_name: &str, url: &str, status: u16) -> (r: Result<(), AppError>)
    ensures
        r is Ok <==> 200 <= status <= 299,
        r matches Err(e) ==> e matches AppError::ModelDownload { model, url: u, status: s }
            && model@ == model_name@ && u@ == url@ && s == Some(status),
{
    if 200 <= status && status <= 299 {
        Ok(())
    } else {
        Err(AppError::ModelDownload { model: model_name.to_string(), url: url.to_string(), status: Some(status) })
    }
}

const MIB: u64 = 1024 * 1024;

/// The smallest file size a complete download of `name` can have.
pub open spec fn minimum_model_bytes(name: Seq<char>) -> u64 {
    if name == "tiny"@ {
        (50 * 1024 * 1024) as u64
    } else if name == "base"@ {
        (100 * 1024 * 1024) as u64
    } else if name == "small"@ {
        (300 * 1024 * 1024) as u64
    } else if name == "medium"@ {
        (1000 * 1024 * 1024) as u64
    } else if name == "large-v3-turbo"@ {
        (500 * 1024 * 1024) as u64
    } else {
        (10 * 1024 * 1024) as u64
    }
}

/// The smallest file size a complete download of `model_name` can have.
pub fn minimum_model_size(model_name: &str) -> (r: u64)
    ensures
        r == minimum_model_bytes(model_name@),
{
    if text_eq(model_name, "tiny") {
        50 * MIB
    } else if text_eq(model_name, "base") {
        100 * MIB
    } else if text_eq(model_name, "small") {
        300 * MIB
    } else if text_eq(model_name, "medium") {
        1000 * MIB
    } else if text_eq(model_name, "large-v3-turbo") {
        500 * MIB
    } else {
        10 * MIB
    }
}

/// Whether a cached model file passes the size check: it must exist
/// (`file_len` is its size, `None` when there is no file) and be at least
/// the model's minimum size.
pub fn model_file_acceptable(model_name: &str, file_len: Option<u64>) -> (r: bool)
    ensures
        r == (file_len matches Some(len) && len >= minimum_model_bytes(model_name@)),
{
    match file_len {
        Some(len) => len >= minimum_model_size(model_name),
        None => false,
    }
}

/// A download lands where the cache looks for the model: for every model
/// and quantization, the download URL is the publication prefix followed by
/// exactly the file name that the cached path joins onto the cache
/// directory.
pub proof fn lemma_download_lands_in_cache(cache: Seq<char>, name: Seq<char>, quantization: Option<Seq<char>>)
    ensures
        ({
            let url = model_download_prefix() + model_file_name(name, quantization);
            let file = url.subrange(model_download_prefix().len() as int, url.len() as int);
            &&& url.subrange(0, model_download_prefix().len() as int) == model_download_prefix()
            &&& joined_path(cache, file) == joined_path(cache, model_file_name(name, quantization))
        }),
{
    let url = model_download_prefix() + model_file_name(name, quantization);
    assert(url.subrange(model_download_prefix().len() as int, url.len() as int) =~= model_file_name(name, quantization));
    assert(url.subrange(0, model_download_prefix().len() as int) =~= model_download_prefix());
}

/// The size check accepts every complete model of the catalogue and
/// rejects what is clearly cut short: for each catalogued model, a file of
/// its published size is accepted, and a file of less than half that size
/// is not. A name outside the catalogue needs 10 MiB.
pub proof fn lemma_size_check_fits_the_catalogue(i: int, name: Seq<char>)
    requires
        0 <= i < model_catalogue().len(),
    ensures
        ({
            let (model, mb) = model_catalogue()[i];
            &&& minimum_model_bytes(model) <= mb * 1_000_000
            &&& mb * 1_000_000 <= 2 * minimum_model_bytes(model)
        }),
        (forall|k: int| 0 <= k < model_catalogue().len() ==> #[trigger] model_catalogue()[k].0 != name)
            ==> minimum_model_bytes(name) == 10 * 1024 * 1024,
{
    reveal_strlit("tiny");
    reveal_strlit("base");
    reveal_strlit("small");
    reveal_strlit("medium");
    reveal_strlit("large-v3-turbo");
    assert(model_catalogue()[0].0 == "tiny"@);
    assert(model_catalogue()[1].0 == "base"@);
    assert(model_catalogue()[2].0 == "small"@);
    assert(model_catalogue()[3].0 == "medium"@);
    assert(model_catalogue()[4].0 == "large-v3-turbo"@);
    // The five names differ already in their first letter.
    assert("tiny"@[0] == 't' && "base"@[0] == 'b' && "small"@[0] == 's' && "medium"@[0] == 'm'
        && "large-v3-turbo"@[0] == 'l');
}

} // verus!
