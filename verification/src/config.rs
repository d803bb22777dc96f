//! Configuration: its sections and defaults, the command-line overrides,
//! merging, default locations, and validation.
//!
//! Floating-point settings are held by their IEEE-754 single-precision bit
//! pattern (`f32::to_bits`).

use vstd::prelude::*;
use crate::cli::Cli;
use crate::error::AppError;
use crate::paths::{joined_path, path_join, trimmed, trim_text};
use crate::text::{decimal, decimal_string, extend_texts, join3, join4, text_eq};

verus! {

/// Which model to run and for which language.
#[derive(Debug, Clone)]
pub struct ModelConfig {
    pub name: String,
    pub language: String,
    pub quantization: Option<String>,
}

impl Default for ModelConfig {
    fn default() -> (r: Self)
        ensures
            r.name@ == "base"@,
            r.language@ == "auto"@,
            r.quantization is None,
    {
        ModelConfig { name: "base".to_string(), language: "auto".to_string(), quantization: None }
    }
}

/// The audio format handed to the model.
#[derive(Debug, Clone)]
pub struct AudioConfig {
    pub sample_rate: u32,
    pub channels: u32,
}

impl Default for AudioConfig {
    fn default() -> (r: Self)
        ensures
            r.sample_rate == 16000,
            r.channels == 1,
    {
        AudioConfig { sample_rate: 16000, channels: 1 }
    }
}

/// Threads and GPU backend.
#[derive(Debug, Clone)]
pub struct PerformanceConfig {
    pub threads: u32,
    pub gpu: String,
}

impl Default for PerformanceConfig {
    fn default() -> (r: Self)
        ensures
            r.threads == 0,
            r.gpu@ == "auto"@,
    {
        PerformanceConfig { threads: 0, gpu: "auto".to_string() }
    }
}

/// Where and in which formats transcripts are written.
#[derive(Debug, Clone)]
pub struct OutputConfig {
    pub formats: Vec<String>,
    pub directory: String,
    pub skip_existing: bool,
}

impl Default for OutputConfig {
    fn default() -> (r: Self)
        ensures
            r.formats.deep_view() == seq!["txt"@],
            r.directory@ == "./"@,
            r.skip_existing,
    {
        let mut formats: Vec<String> = Vec::new();
        formats.push("txt".to_string());
        OutputConfig { formats, directory: "./".to_string(), skip_existing: true }
    }
}

/// Log settings.
#[derive(Debug, Clone)]
pub struct LoggingConfig {
    pub level: String,
    pub file: String,
    pub colors: bool,
}

impl Default for LoggingConfig {
    fn default() -> (r: Self)
        ensures
            r.level@ == "info"@,
            r.file@ == Seq::<char>::empty(),
            r.colors,
    {
        LoggingConfig { level: "info".to_string(), file: String::new(), colors: true }
    }
}

/// Where downloaded models are kept.
#[derive(Debug, Clone)]
pub struct CacheConfig {
    pub directory: String,
}

impl Default for CacheConfig {
    fn default() -> (r: Self)
        ensures
            r.directory@ == "~/.cache/whisper"@,
    {
        CacheConfig { directory: "~/.cache/whisper".to_string() }
    }
}

/// The bit pattern of the `f32` value 0.6.
pub const NO_SPEECH_THRESHOLD_DEFAULT_BITS: u32 = 0x3F19_999A;

/// Decoder settings.
#[derive(Debug, Clone)]
pub struct InferenceConfig {
    /// Initial prompt for decoder context
    pub initial_prompt: String,
    /// Sampling temperature (0.0 = greedy), as the bit pattern of an `f32`
    pub temperature: u32,
    /// Suppress non-speech tokens (cough, background noise, etc.)
    pub suppress_non_speech: bool,
    /// No-speech detection threshold (0.0-1.0), as the bit pattern of an `f32`
    pub no_speech_threshold: u32,
    /// Maximum segment length in characters (0 = no limit)
    pub max_segment_length: u32,
    /// Split timestamps on word boundaries instead of characters
    pub split_on_word: bool,
}

impl Default for InferenceConfig {
    fn default() -> (r: Self)
        ensures
            r.initial_prompt@ == Seq::<char>::empty(),
            r.temperature == 0,
            !r.suppress_non_speech,
            r.no_speech_threshold == NO_SPEECH_THRESHOLD_DEFAULT_BITS,
            r.max_segment_length == 0,
            !r.split_on_word,
    {
        InferenceConfig {
            initial_prompt: String::new(),
            temperature: 0,
            suppress_non_speech: false,
            no_speech_threshold: NO_SPEECH_THRESHOLD_DEFAULT_BITS,
            max_segment_length: 0,
            split_on_word: false,
        }
    }
}

/// The whole configuration.
#[derive(Debug, Clone)]
pub struct Config {
    pub model: ModelConfig,
    pub audio: AudioConfig,
    pub performance: PerformanceConfig,
    pub output: OutputConfig,
    pub logging: LoggingConfig,
    pub cache: CacheConfig,
    pub inference: InferenceConfig,
}

/// The values every section takes when nothing configures it.
pub open spec fn is_default_config(c: Config) -> bool {
    &&& c.model.name@ == "base"@
    &&& c.model.language@ == "auto"@
    &&& c.model.quantization is None
    &&& c.audio.sample_rate == 16000
    &&& c.audio.channels == 1
    &&& c.performance.threads == 0
    &&& c.performance.gpu@ == "auto"@
    &&& c.output.formats.deep_view() == seq!["txt"@]
    &&& c.output.directory@ == "./"@
    &&& c.output.skip_existing
    &&& c.logging.level@ == "info"@
    &&& c.logging.file@ == Seq::<char>::empty()
    &&& c.logging.colors
    &&& c.cache.directory@ == "~/.cache/whisper"@
    &&& c.inference.initial_prompt@ == Seq::<char>::empty()
    &&& c.inference.temperature == 0
    &&& !c.inference.suppress_non_speech
    &&& c.inference.no_speech_threshold == NO_SPEECH_THRESHOLD_DEFAULT_BITS
    &&& c.inference.max_segment_length == 0
    &&& !c.inference.split_on_word
}

impl Default for Config {
    fn default() -> (r: Self)
        ensures
            is_default_config(r),
    {
        Config {
            model: ModelConfig::default(),
            audio: AudioConfig::default(),
            performance: PerformanceConfig::default(),
            output: OutputConfig::default(),
            logging: LoggingConfig::default(),
            cache: CacheConfig::default(),
            inference: InferenceConfig::default(),
        }
    }
}

/// Overrides taken from the command line; each present value replaces the
/// configured one.
#[derive(Debug)]
pub struct CliOverrides {
    pub model: Option<String>,
    pub language: Option<String>,
    pub output_dir: Option<String>,
    pub config_path: Option<String>,
    pub format: Option<String>,
    pub threads: Option<u32>,
    pub gpu: Option<String>,
    pub skip_existing: Option<bool>,
    pub initial_prompt: Option<String>,
    /// As the bit pattern of an `f32`
    pub temperature: Option<u32>,
    pub suppress_non_speech: Option<bool>,
    /// As the bit pattern of an `f32`
    pub no_speech_threshold: Option<u32>,
    pub max_segment_length: Option<u32>,
    pub split_on_word: Option<bool>,
}

/// No override at all.
pub open spec fn no_overrides(o: CliOverrides) -> bool {
    &&& o.model is None
    &&& o.language is None
    &&& o.output_dir is None
    &&& o.config_path is None
    &&& o.format is None
    &&& o.threads is None
    &&& o.gpu is None
    &&& o.skip_existing is None
    &&& o.initial_prompt is None
    &&& o.temperature is None
    &&& o.suppress_non_speech is None
    &&& o.no_speech_threshold is None
    &&& o.max_segment_length is None
    &&& o.split_on_word is None
}

impl Default for CliOverrides {
    fn default() -> (r: Self)
        ensures
            no_overrides(r),
    {
        CliOverrides {
            model: None,
            language: None,
            output_dir: None,
            config_path: None,
            format: None,
            threads: None,
            gpu: None,
            skip_existing: None,
            initial_prompt: None,
            temperature: None,
            suppress_non_speech: None,
            no_speech_threshold: None,
            max_segment_length: None,
            split_on_word: None,
        }
    }
}

fn clone_text_option(o: &Option<String>) -> (r: Option<String>)
    ensures
        r == *o,
{
    match o {
        Some(s) => Some(s.clone()),
        None => None,
    }
}

/// `Some(true)` for a flag that was given, `None` otherwise.
pub open spec fn flag_override(flag: bool) -> Option<bool> {
    if flag { Some(true) } else { None }
}

/// The overrides that an invocation carries.
pub open spec fn overrides_of(cli: &Cli) -> CliOverrides {
    CliOverrides {
        model: cli.model,
        language: cli.language,
        output_dir: cli.output,
        config_path: cli.config,
        format: cli.format,
        threads: cli.threads,
        gpu: cli.gpu,
        skip_existing: flag_override(cli.skip_existing),
        initial_prompt: cli.initial_prompt,
        temperature: cli.temperature,
        suppress_non_speech: flag_override(cli.suppress_non_speech),
        no_speech_threshold: cli.no_speech_threshold,
        max_segment_length: cli.max_segment_length,
        split_on_word: flag_override(cli.split_on_word),
    }
}

impl<'a> From<&'a Cli> for CliOverrides {
    fn from(cli: &'a Cli) -> (r: Self) {
        CliOverrides {
            model: clone_text_option(&cli.model),
            language: clone_text_option(&cli.language),
            output_dir: clone_text_option(&cli.output),
            config_path: clone_text_option(&cli.config),
            format: clone_text_option(&cli.format),
            threads: cli.threads,
            gpu: clone_text_option(&cli.gpu),
            skip_existing: if cli.skip_existing { Some(true) } else { None },
            initial_prompt: clone_text_option(&cli.initial_prompt),
            temperature: cli.temperature,
            suppress_non_speech: if cli.suppress_non_speech { Some(true) } else { None },
            no_speech_threshold: cli.no_speech_threshold,
            max_segment_length: cli.max_segment_length,
            split_on_word: if cli.split_on_word { Some(true) } else { None },
        }
    }
}

impl<'a> vstd::std_specs::convert::FromSpecImpl<&'a Cli> for CliOverrides {
    open spec fn obeys_from_spec() -> bool {
        true
    }

    open spec fn from_spec(cli: &'a Cli) -> Self {
        overrides_of(cli)
    }
}

/// The pieces of `s` between occurrences of `sep`, as `str::split` gives
/// them: one more piece than there are separators.
pub open spec fn split_on(s: Seq<char>, sep: char) -> Seq<Seq<char>>
    decreases s.len(),
{
    if s.len() == 0 {
        seq![Seq::<char>::empty()]
    } else {
        let init = split_on(s.drop_last(), sep);
        if s.last() == sep {
            init.push(Seq::<char>::empty())
        } else {
            init.update(init.len() - 1, init.last().push(s.last()))
        }
    }
}

/// `split_on` never gives an empty list.
pub proof fn lemma_split_on_nonempty(s: Seq<char>, sep: char)
    ensures
        split_on(s, sep).len() >= 1,
    decreases s.len(),
{
    if s.len() > 0 {
        lemma_split_on_nonempty(s.drop_last(), sep);
    }
}

/// The format list that a `--format` value selects: `all` stands for the
/// three formats; anything else is split at commas and each piece trimmed.
pub open spec fn formats_from_option(f: Seq<char>) -> Seq<Seq<char>> {
    if f == "all"@ {
        seq!["txt"@, "srt"@, "json"@]
    } else {
        split_on(f, ',').map_values(|p: Seq<char>| trimmed(p))
    }
}

/// Splits `s` at commas and trims each piece.
fn split_commas_trimmed(s: &str) -> (r: Vec<String>)
    ensures
        r.deep_view() == split_on(s@, ',').map_values(|p: Seq<char>| trimmed(p)),
{
    let n = s.unicode_len();
    let mut pieces: Vec<String> = Vec::new();
    let ghost mut raw: Seq<Seq<char>> = Seq::empty();
    let mut start: usize = 0;
    let mut i: usize = 0;
    assert(s@.take(0) =~= Seq::<char>::empty());
    assert(s@.subrange(0, 0) =~= Seq::<char>::empty());
    assert(split_on(Seq::<char>::empty(), ',') == seq![Seq::<char>::empty()]);
    assert(raw.push(s@.subrange(0, 0)) =~= seq![Seq::<char>::empty()]);
    assert(pieces.deep_view() =~= raw.map_values(|p: Seq<char>| trimmed(p)));
    while i < n
        invariant
            n == s@.len(),
            start <= i <= n,
            split_on(s@.take(i as int), ',') == raw.push(s@.subrange(start as int, i as int)),
            pieces.deep_view() == raw.map_values(|p: Seq<char>| trimmed(p)),
        decreases n - i,
    {
        let c = s.get_char(i);
        assert(s@.take(i + 1).drop_last() =~= s@.take(i as int));
        assert(s@.take(i + 1).last() == c);
        if c == ',' {
            let piece = s.substring_char(start, i);
            let t = trim_text(piece);
            let ghost old_view = pieces.deep_view();
            let ghost old_raw = raw;
            proof {
                raw = raw.push(s@.subrange(start as int, i as int));
            }
            pieces.push(t);
            assert(pieces.deep_view() =~= old_view.push(t@));
            assert(raw.map_values(|p: Seq<char>| trimmed(p)) =~= old_raw.map_values(|p: Seq<char>| trimmed(p)).push(trimmed(s@.subrange(start as int, i as int))));
            start = i + 1;
            assert(s@.subrange(start as int, (i + 1) as int) =~= Seq::<char>::empty());
            assert(pieces.deep_view() =~= raw.map_values(|p: Seq<char>| trimmed(p)));
        } else {
            assert(s@.subrange(start as int, (i + 1) as int) =~= s@.subrange(start as int, i as int).push(c));
        }
        i = i + 1;
    }
    let last = s.substring_char(start, n);
    let t = trim_text(last);
    let ghost old_view = pieces.deep_view();
    pieces.push(t);
    assert(pieces.deep_view() =~= old_view.push(t@));
    assert(s@.take(n as int) =~= s@);
    proof {
        let all = raw.push(s@.subrange(start as int, n as int));
        assert(all.map_values(|p: Seq<char>| trimmed(p)) =~= raw.map_values(|p: Seq<char>| trimmed(p)).push(trimmed(s@.subrange(start as int, n as int))));
        assert(pieces.deep_view() =~= all.map_values(|p: Seq<char>| trimmed(p)));
    }
    pieces
}

/// The cache directory after `~` expansion: a leading `~` followed by a
/// separator is replaced by the home directory, when one is known.
pub open spec fn expanded_cache_dir(dir: Seq<char>, home: Option<&str>) -> Seq<char> {
    if dir.len() > 0 && dir[0] == '~' && home is Some {
        joined_path(home->0@, dir.subrange(2, dir.len() as int))
    } else {
        dir
    }
}

/// The inputs on which expanding `dir` is defined: the text after the `~`
/// is taken from byte 2 on, which must be a character boundary within it.
pub open spec fn cache_dir_expandable(dir: Seq<char>, home: Option<&str>) -> bool {
    (dir.len() > 0 && dir[0] == '~' && home is Some) ==> (dir.len() >= 2 && (dir[1] as u32) < 0x80)
}

/// Expands a leading `~` of `dir` with `home`.
fn expand_tilde(dir: &str, home: Option<&str>) -> (r: String)
    requires
        cache_dir_expandable(dir@, home),
    ensures
        r@ == expanded_cache_dir(dir@, home),
{
    let n = dir.unicode_len();
    if n > 0 && dir.get_char(0) == '~' {
        match home {
            Some(h) => {
                let rest = dir.substring_char(2, n);
                path_join(h, rest)
            },
            None => dir.to_string(),
        }
    } else {
        dir.to_string()
    }
}

/// The value that an override gives a setting.
pub open spec fn overridden<T>(o: Option<T>, current: T) -> T {
    match o {
        Some(v) => v,
        None => current,
    }
}

fn merge_model(m: &mut ModelConfig, name: Option<String>, language: Option<String>)
    ensures
        final(m).name == overridden(name, old(m).name),
        final(m).language == overridden(language, old(m).language),
        final(m).quantization == old(m).quantization,
{
    if let Some(name) = name {
        m.name = name;
    }
    if let Some(language) = language {
        m.language = language;
    }
}

fn merge_output(
    o: &mut OutputConfig,
    directory: Option<String>,
    format: Option<String>,
    skip_existing: Option<bool>,
)
    ensures
        final(o).directory == overridden(directory, old(o).directory),
        final(o).formats.deep_view() == (match format {
            Some(f) => formats_from_option(f@),
            None => old(o).formats.deep_view(),
        }),
        final(o).skip_existing == overridden(skip_existing, old(o).skip_existing),
{
    if let Some(dir) = directory {
        o.directory = dir;
    }
    if let Some(format) = format {
        proof {
            reveal_strlit("all");
            reveal_strlit("txt");
            reveal_strlit("srt");
            reveal_strlit("json");
        }
        if text_eq(format.as_str(), "all") {
            let mut all: Vec<String> = Vec::new();
            all.push("txt".to_string());
            all.push("srt".to_string());
            all.push("json".to_string());
            assert(all.deep_view() =~= seq!["txt"@, "srt"@, "json"@]);
            o.formats = all;
        } else {
            o.formats = split_commas_trimmed(format.as_str());
        }
    }
    if let Some(skip) = skip_existing {
        o.skip_existing = skip;
    }
}

fn merge_performance(p: &mut PerformanceConfig, threads: Option<u32>, gpu: Option<String>)
    ensures
        final(p).threads == overridden(threads, old(p).threads),
        final(p).gpu == overridden(gpu, old(p).gpu),
{
    if let Some(threads) = threads {
        p.threads = threads;
    }
    if let Some(gpu) = gpu {
        p.gpu = gpu;
    }
}

fn merge_inference(
    inf: &mut InferenceConfig,
    initial_prompt: Option<String>,
    temperature: Option<u32>,
    suppress_non_speech: Option<bool>,
    no_speech_threshold: Option<u32>,
    max_segment_length: Option<u32>,
    split_on_word: Option<bool>,
)
    ensures
        final(inf).initial_prompt == overridden(initial_prompt, old(inf).initial_prompt),
        final(inf).temperature == overridden(temperature, old(inf).temperature),
        final(inf).suppress_non_speech == overridden(suppress_non_speech, old(inf).suppress_non_speech),
        final(inf).no_speech_threshold == overridden(no_speech_threshold, old(inf).no_speech_threshold),
        final(inf).max_segment_length == overridden(max_segment_length, old(inf).max_segment_length),
        final(inf).split_on_word == overridden(split_on_word, old(inf).split_on_word),
{
    if let Some(v) = initial_prompt {
        inf.initial_prompt = v;
    }
    if let Some(v) = temperature {
        inf.temperature = v;
    }
    if let Some(v) = suppress_non_speech {
        inf.suppress_non_speech = v;
    }
    if let Some(v) = no_speech_threshold {
        inf.no_speech_threshold = v;
    }
    if let Some(v) = max_segment_length {
        inf.max_segment_length = v;
    }
    if let Some(v) = split_on_word {
        inf.split_on_word = v;
    }
}

impl Config {
    /// The default config file, `<home>/.config/transcriber/config.yaml`,
    /// for the home directory `home` (`None` when it is unknown).
    pub fn default_config_path(home: Option<&str>) -> (r: Option<String>)
        ensures
            r matches Some(p) ==> home is Some && p@ == joined_path(
                joined_path(joined_path(home->0@, ".config"@), "transcriber"@),
                "config.yaml"@,
            ),
            home is Some ==> r is Some,
    {
        match home {
            Some(h) => {
                let a = path_join(h, ".config");
                let b = path_join(a.as_str(), "transcriber");
                Some(path_join(b.as_str(), "config.yaml"))
            },
            None => None,
        }
    }

    /// The default model cache, `<home>/.cache/whisper`, for the home
    /// directory `home` (`None` when it is unknown).
    pub fn default_cache_dir(home: Option<&str>) -> (r: Option<String>)
        ensures
            r matches Some(p) ==> home is Some && p@ == joined_path(
                joined_path(home->0@, ".cache"@),
                "whisper"@,
            ),
            home is Some ==> r is Some,
    {
        match home {
            Some(h) => {
                let a = path_join(h, ".cache");
                Some(path_join(a.as_str(), "whisper"))
            },
            None => None,
        }
    }

    /// Applies the command-line overrides (they take priority over the
    /// file), then expands a leading `~` of the cache directory with
    /// `home`, the value of `HOME` if set.
    pub fn merge_with_cli(&mut self, overrides: CliOverrides, home: Option<&str>)
        requires
            cache_dir_expandable(old(self).cache.directory@, home),
        ensures
            final(self).model.name == overridden(overrides.model, old(self).model.name),
            final(self).model.language == overridden(overrides.language, old(self).model.language),
            final(self).model.quantization == old(self).model.quantization,
            final(self).audio == old(self).audio,
            final(self).output.directory == overridden(overrides.output_dir, old(self).output.directory),
            final(self).output.formats.deep_view() == (match overrides.format {
                Some(f) => formats_from_option(f@),
                None => old(self).output.formats.deep_view(),
            }),
            final(self).output.skip_existing == overridden(overrides.skip_existing, old(self).output.skip_existing),
            final(self).performance.threads == overridden(overrides.threads, old(self).performance.threads),
            final(self).performance.gpu == overridden(overrides.gpu, old(self).performance.gpu),
            final(self).inference.initial_prompt == overridden(overrides.initial_prompt, old(self).inference.initial_prompt),
            final(self).inference.temperature == overridden(overrides.temperature, old(self).inference.temperature),
            final(self).inference.suppress_non_speech == overridden(overrides.suppress_non_speech, old(self).inference.suppress_non_speech),
            final(self).inference.no_speech_threshold == overridden(overrides.no_speech_threshold, old(self).inference.no_speech_threshold),
            final(self).inference.max_segment_length == overridden(overrides.max_segment_length, old(self).inference.max_segment_length),
            final(self).inference.split_on_word == overridden(overrides.split_on_word, old(self).inference.split_on_word),
            final(self).logging == old(self).logging,
            final(self).cache.directory@ == expanded_cache_dir(old(self).cache.directory@, home),
    {
        let CliOverrides {
            model,
            language,
            output_dir,
            config_path: _,
            format,
            threads,
            gpu,
            skip_existing,
            initial_prompt,
            temperature,
            suppress_non_speech,
            no_speech_threshold,
            max_segment_length,
            split_on_word,
        } = overrides;
        merge_model(&mut self.model, model, language);
        merge_output(&mut self.output, output_dir, format, skip_existing);
        merge_performance(&mut self.performance, threads, gpu);
        merge_inference(
            &mut self.inference,
            initial_prompt,
            temperature,
            suppress_non_speech,
            no_speech_threshold,
            max_segment_length,
            split_on_word,
        );
        let expanded = expand_tilde(self.cache.directory.as_str(), home);
        self.cache.directory = expanded;
    }
}

/// Model names that can be downloaded and run.
pub const VALID_MODELS: [&'static str; 5] = ["tiny", "base", "small", "medium", "large-v3-turbo"];

/// Quantizations that can be requested.
pub const VALID_QUANTIZATIONS: [&'static str; 4] = ["q4_k", "q5_k", "q6_k", "q8_0"];

pub open spec fn is_valid_model_name(s: Seq<char>) -> bool {
    s == "tiny"@ || s == "base"@ || s == "small"@ || s == "medium"@ || s == "large-v3-turbo"@
}

pub open spec fn is_valid_quantization(s: Seq<char>) -> bool {
    s == "q4_k"@ || s == "q5_k"@ || s == "q6_k"@ || s == "q8_0"@
}

pub open spec fn is_valid_gpu_backend(s: Seq<char>) -> bool {
    s == "auto"@ || s == "metal"@ || s == "cuda"@ || s == "vulkan"@ || s == "cpu"@
}

pub open spec fn is_valid_format_name(s: Seq<char>) -> bool {
    s == "txt"@ || s == "srt"@ || s == "json"@ || s == "all"@
}

/// The number of bytes that UTF-8 encodes `c` with.
pub open spec fn utf8_width(c: char) -> nat {
    if (c as u32) < 0x80 {
        1
    } else if (c as u32) < 0x800 {
        2
    } else if (c as u32) < 0x10000 {
        3
    } else {
        4
    }
}

/// The number of bytes of the UTF-8 encoding of `s`, which `str::len`
/// returns.
pub open spec fn utf8_len(s: Seq<char>) -> nat
    decreases s.len(),
{
    if s.len() == 0 {
        0
    } else {
        utf8_len(s.drop_last()) + utf8_width(s.last())
    }
}

fn char_utf8_width(c: char) -> (r: u64)
    ensures
        r == utf8_width(c),
{
    let v = c as u32;
    if v < 0x80 {
        1
    } else if v < 0x800 {
        2
    } else if v < 0x10000 {
        3
    } else {
        4
    }
}

proof fn lemma_utf8_len_monotone(s: Seq<char>, i: int)
    requires
        0 <= i <= s.len(),
    ensures
        utf8_len(s.take(i)) <= utf8_len(s),
    decreases s.len() - i,
{
    if i < s.len() {
        lemma_utf8_len_monotone(s, i + 1);
        assert(s.take(i + 1).drop_last() =~= s.take(i));
    } else {
        assert(s.take(i) =~= s);
    }
}

/// Whether `s` takes exactly two bytes in UTF-8.
fn utf8_len_is_two(s: &str) -> (r: bool)
    ensures
        r == (utf8_len(s@) == 2),
{
    let n = s.unicode_len();
    let mut total: u64 = 0;
    let mut i: usize = 0;
    while i < n
        invariant
            n == s@.len(),
            i <= n,
            total == utf8_len(s@.take(i as int)),
            total <= 2,
        decreases n - i,
    {
        let c = s.get_char(i);
        assert(s@.take(i + 1).drop_last() =~= s@.take(i as int));
        total = total + char_utf8_width(c);
        i = i + 1;
        if total > 2 {
            proof {
                lemma_utf8_len_monotone(s@, i as int);
            }
            return false;
        }
    }
    assert(s@.take(n as int) =~= s@);
    total == 2
}

/// Whether the `f32` with bit pattern `bits` lies outside `[0.0, 1.0]`:
/// below 0.0, above 1.0, or NaN (which lies within no range). IEEE-754
/// orders the values of one sign by their magnitude bits, with the NaNs
/// above infinity; -0.0 equals 0.0.
pub open spec fn f32_outside_unit_interval(bits: u32) -> bool {
    let negative = bits >= 0x8000_0000;
    let magnitude = if negative { bits - 0x8000_0000 } else { bits as int };
    if negative { magnitude != 0 } else { magnitude > 0x3F80_0000 }
}

fn f32_bits_outside_unit_interval(bits: u32) -> (r: bool)
    ensures
        r == f32_outside_unit_interval(bits),
{
    let negative = bits >= 0x8000_0000;
    let magnitude = if negative { bits - 0x8000_0000 } else { bits };
    if negative { magnitude != 0 } else { magnitude > 0x3F80_0000 }
}

pub open spec fn model_errors(c: Config) -> Seq<Seq<char>> {
    if is_valid_model_name(c.model.name@) {
        seq![]
    } else {
        seq!["Invalid model name '"@ + c.model.name@ + "'. Valid options: tiny, base, small, medium, large-v3-turbo"@]
    }
}

pub open spec fn quantization_errors(c: Config) -> Seq<Seq<char>> {
    match c.model.quantization {
        Some(q) => if is_valid_quantization(q@) {
            seq![]
        } else {
            seq!["Invalid quantization '"@ + q@ + "'. Valid options: q4_k, q5_k, q6_k, q8_0"@]
        },
        None => seq![],
    }
}

pub open spec fn language_errors(c: Config) -> Seq<Seq<char>> {
    if c.model.language@ != "auto"@ && utf8_len(c.model.language@) != 2 {
        seq!["Invalid language code '"@ + c.model.language@ + "'. Use ISO 639-1 (e.g. 'zh', 'en') or 'auto'."@]
    } else {
        seq![]
    }
}

pub open spec fn thread_errors(c: Config, cores: u32) -> Seq<Seq<char>> {
    if c.performance.threads > 2 * cores {
        seq!["Thread count "@ + decimal(c.performance.threads as nat) + " exceeds system capacity ("@
            + decimal(cores as nat) + " cores). Using "@ + decimal(cores as nat) + " threads."@]
    } else {
        seq![]
    }
}

pub open spec fn gpu_errors(c: Config) -> Seq<Seq<char>> {
    if is_valid_gpu_backend(c.performance.gpu@) {
        seq![]
    } else {
        seq!["Invalid GPU backend '"@ + c.performance.gpu@ + "'. Valid options: auto, metal, cuda, vulkan, cpu"@]
    }
}

/// One message per invalid entry of `formats`, in order.
pub open spec fn format_errors(formats: Seq<Seq<char>>) -> Seq<Seq<char>>
    decreases formats.len(),
{
    if formats.len() == 0 {
        seq![]
    } else {
        let f = formats.last();
        format_errors(formats.drop_last()) + if is_valid_format_name(f) {
            seq![]
        } else {
            seq!["Invalid output format '"@ + f + "'. Valid options: txt, srt, json, all"@]
        }
    }
}

pub open spec fn temperature_errors(c: Config, text: Seq<char>) -> Seq<Seq<char>> {
    if f32_outside_unit_interval(c.inference.temperature) {
        seq!["Invalid temperature '"@ + text + "'. Must be between 0.0 and 1.0."@]
    } else {
        seq![]
    }
}

pub open spec fn threshold_errors(c: Config, text: Seq<char>) -> Seq<Seq<char>> {
    if f32_outside_unit_interval(c.inference.no_speech_threshold) {
        seq!["Invalid no_speech_threshold '"@ + text + "'. Must be between 0.0 and 1.0."@]
    } else {
        seq![]
    }
}

/// Every problem that validation reports for `c`, in order, on a machine
/// with `cores` CPUs; `temperature_text` and `threshold_text` are the
/// printed forms of the two floating-point settings.
pub open spec fn validation_errors(
    c: Config,
    cores: u32,
    temperature_text: Seq<char>,
    threshold_text: Seq<char>,
) -> Seq<Seq<char>> {
    model_errors(c) + quantization_errors(c) + language_errors(c) + thread_errors(c, cores)
        + gpu_errors(c) + format_errors(c.output.formats.deep_view()) + temperature_errors(
        c,
        temperature_text,
    ) + threshold_errors(c, threshold_text)
}

/// The number of logical CPUs, by `num_cpus::get`.
///
/// Trusted: the crate documents that the result is at least 1; it depends
/// on the machine, so nothing more is claimed.
#[verifier::external_body]
pub(crate) fn available_cpus() -> (r: usize)
    ensures
        r >= 1,
{
    num_cpus::get()
}

fn single(s: String) -> (r: Vec<String>)
    ensures
        r.deep_view() == seq![s@],
{
    let mut v: Vec<String> = Vec::new();
    v.push(s);
    assert(v.deep_view() =~= seq![s@]);
    v
}

fn is_one_of5(s: &str, a: &str, b: &str, c: &str, d: &str, e: &str) -> (r: bool)
    ensures
        r == (s@ == a@ || s@ == b@ || s@ == c@ || s@ == d@ || s@ == e@),
{
    text_eq(s, a) || text_eq(s, b) || text_eq(s, c) || text_eq(s, d) || text_eq(s, e)
}

impl Config {
    fn model_problems(&self) -> (r: Vec<String>)
        ensures
            r.deep_view() == model_errors(*self),
    {
        let name = self.model.name.as_str();
        if is_one_of5(name, "tiny", "base", "small", "medium", "large-v3-turbo") {
            Vec::new()
        } else {
            single(join3("Invalid model name '", name, "'. Valid options: tiny, base, small, medium, large-v3-turbo"))
        }
    }

    fn quantization_problems(&self) -> (r: Vec<String>)
        ensures
            r.deep_view() == quantization_errors(*self),
    {
        match &self.model.quantization {
            Some(q) => {
                let q = q.as_str();
                if text_eq(q, "q4_k") || text_eq(q, "q5_k") || text_eq(q, "q6_k") || text_eq(q, "q8_0") {
                    Vec::new()
                } else {
                    single(join3("Invalid quantization '", q, "'. Valid options: q4_k, q5_k, q6_k, q8_0"))
                }
            },
            None => Vec::new(),
        }
    }

    fn language_problems(&self) -> (r: Vec<String>)
        ensures
            r.deep_view() == language_errors(*self),
    {
        let lang = self.model.language.as_str();
        if !text_eq(lang, "auto") && !utf8_len_is_two(lang) {
            single(join3("Invalid language code '", lang, "'. Use ISO 639-1 (e.g. 'zh', 'en') or 'auto'."))
        } else {
            Vec::new()
        }
    }

    fn thread_problems(&self, cores: u32) -> (r: Vec<String>)
        ensures
            r.deep_view() == thread_errors(*self, cores),
    {
        if self.performance.threads as u64 > 2 * (cores as u64) {
            let t = decimal_string(self.performance.threads as u64);
            let c = decimal_string(cores as u64);
            let mut s = join4("Thread count ", t.as_str(), " exceeds system capacity (", c.as_str());
            s.append(" cores). Using ");
            s.append(c.as_str());
            s.append(" threads.");
            single(s)
        } else {
            Vec::new()
        }
    }

    fn gpu_problems(&self) -> (r: Vec<String>)
        ensures
            r.deep_view() == gpu_errors(*self),
    {
        let gpu = self.performance.gpu.as_str();
        if is_one_of5(gpu, "auto", "metal", "cuda", "vulkan", "cpu") {
            Vec::new()
        } else {
            single(join3("Invalid GPU backend '", gpu, "'. Valid options: auto, metal, cuda, vulkan, cpu"))
        }
    }

    fn format_problems(&self) -> (r: Vec<String>)
        ensures
            r.deep_view() == format_errors(self.output.formats.deep_view()),
    {
        let formats = &self.output.formats;
        let mut errors: Vec<String> = Vec::new();
        let mut i: usize = 0;
        while i < formats.len()
            invariant
                i <= formats.len(),
                errors.deep_view() == format_errors(formats.deep_view().take(i as int)),
            decreases formats.len() - i,
        {
            let f = formats[i].as_str();
            assert(formats.deep_view().take(i + 1).drop_last() =~= formats.deep_view().take(i as int));
            assert(formats.deep_view().take(i + 1).last() == f@);
            if !(text_eq(f, "txt") || text_eq(f, "srt") || text_eq(f, "json") || text_eq(f, "all")) {
                let msg = join3("Invalid output format '", f, "'. Valid options: txt, srt, json, all");
                extend_texts(&mut errors, single(msg));
            } else {
                assert(format_errors(formats.deep_view().take(i + 1)) =~= format_errors(formats.deep_view().take(i as int)));
            }
            i = i + 1;
        }
        assert(formats.deep_view().take(formats.len() as int) =~= formats.deep_view());
        errors
    }

    fn inference_problems(&self, temperature_text: &str, threshold_text: &str) -> (r: Vec<String>)
        ensures
            r.deep_view() == temperature_errors(*self, temperature_text@) + threshold_errors(
                *self,
                threshold_text@,
            ),
    {
        let mut errors: Vec<String> = Vec::new();
        if f32_bits_outside_unit_interval(self.inference.temperature) {
            extend_texts(
                &mut errors,
                single(join3("Invalid temperature '", temperature_text, "'. Must be between 0.0 and 1.0.")),
            );
        }
        if f32_bits_outside_unit_interval(self.inference.no_speech_threshold) {
            extend_texts(
                &mut errors,
                single(join3("Invalid no_speech_threshold '", threshold_text, "'. Must be between 0.0 and 1.0.")),
            );
        }
        assert(errors.deep_view() =~= temperature_errors(*self, temperature_text@) + threshold_errors(*self, threshold_text@));
        errors
    }

    /// Every problem with this configuration, on a machine with
    /// `available_cores` CPUs. `temperature_text` and `threshold_text` are
    /// the printed forms of `inference.temperature` and
    /// `inference.no_speech_threshold`, which the messages quote.
    pub fn validate_with_cores(
        &self,
        available_cores: u32,
        temperature_text: &str,
        threshold_text: &str,
    ) -> (r: Vec<String>)
        ensures
            r.deep_view() == validation_errors(*self, available_cores, temperature_text@, threshold_text@),
    {
        let mut errors = self.model_problems();
        extend_texts(&mut errors, self.quantization_problems());
        extend_texts(&mut errors, self.language_problems());
        extend_texts(&mut errors, self.thread_problems(available_cores));
        extend_texts(&mut errors, self.gpu_problems());
        extend_texts(&mut errors, self.format_problems());
        extend_texts(&mut errors, self.inference_problems(temperature_text, threshold_text));
        assert(errors.deep_view() =~= validation_errors(*self, available_cores, temperature_text@, threshold_text@));
        errors
    }

    /// Every problem with this configuration on this machine, whose CPU
    /// count (at least 1; counts beyond `u32::MAX` are taken as `u32::MAX`)
    /// bounds the thread setting. `temperature_text` and
    /// `threshold_text` are the printed forms of the two floating-point
    /// settings.
    pub fn validate(&self, temperature_text: &str, threshold_text: &str) -> (r: Vec<String>)
        ensures
            exists|cores: u32|
                cores >= 1 && r.deep_view() == #[trigger] validation_errors(
                    *self,
                    cores,
                    temperature_text@,
                    threshold_text@,
                ),
    {
        let n = available_cpus();
        let cores: u32 = if n > 0xFFFF_FFFF {
            0xFFFF_FFFF
        } else {
            n as u32
        };
        self.validate_with_cores(cores, temperature_text, threshold_text)
    }
}

/// The configuration file to read: the one named on the command line, else
/// the default location under `home`, else `config.yaml` in the working
/// directory.
pub fn config_file_location(explicit: Option<&str>, home: Option<&str>) -> (r: String)
    ensures
        r@ == (match explicit {
            Some(p) => p@,
            None => match home {
                Some(h) => joined_path(joined_path(joined_path(h@, ".config"@), "transcriber"@), "config.yaml"@),
                None => "config.yaml"@,
            },
        }),
{
    match explicit {
        Some(p) => p.to_string(),
        None => match Config::default_config_path(home) {
            Some(p) => p,
            None => "config.yaml".to_string(),
        },
    }
}

/// The model cache directory that a configuration selects: a leading `~`
/// is expanded with `home`; an empty setting means the default cache under
/// `home` (or `~/.cache/whisper` when `home` is unknown).
pub open spec fn resolved_cache_dir(dir: Seq<char>, home: Option<&str>) -> Seq<char> {
    if dir.len() > 0 && dir[0] == '~' && home is Some {
        joined_path(home->0@, dir.subrange(2, dir.len() as int))
    } else if dir.len() == 0 {
        match home {
            Some(h) => joined_path(joined_path(h@, ".cache"@), "whisper"@),
            None => "~/.cache/whisper"@,
        }
    } else {
        dir
    }
}

impl Config {
    /// The model cache directory this configuration selects, with `home`
    /// the value of `HOME` if set.
    pub fn resolve_cache_dir(&self, home: Option<&str>) -> (r: String)
        requires
            cache_dir_expandable(self.cache.directory@, home),
        ensures
            r@ == resolved_cache_dir(self.cache.directory@, home),
    {
        let dir = self.cache.directory.as_str();
        let n = dir.unicode_len();
        if n > 0 && dir.get_char(0) == '~' {
            if let Some(h) = home {
                let rest = dir.substring_char(2, n);
                return path_join(h, rest);
            }
        }
        if n == 0 {
            match Config::default_cache_dir(home) {
                Some(p) => p,
                None => "~/.cache/whisper".to_string(),
            }
        } else {
            dir.to_string()
        }
    }
}

/// Where `init` writes the default configuration: the path given with
/// `--path`, else the default location under `home`; without either, the
/// error that the location cannot be determined.
pub fn init_config_path(custom: Option<&str>, home: Option<&str>) -> (r: Result<String, AppError>)
    ensures
        r is Ok <==> (custom is Some || home is Some),
        r matches Ok(p) ==> p@ == (match custom {
            Some(c) => c@,
            None => joined_path(joined_path(joined_path(home->0@, ".config"@), "transcriber"@), "config.yaml"@),
        }),
        r matches Err(e) ==> e matches AppError::Config { message, field }
            && message@ == "Cannot determine config directory. Use --path to specify."@ && field is None,
{
    match custom {
        Some(c) => Ok(c.to_string()),
        None => match Config::default_config_path(home) {
            Some(p) => Ok(p),
            None => Err(AppError::Config {
                message: "Cannot determine config directory. Use --path to specify.".to_string(),
                field: None,
            }),
        },
    }
}

/// Validating the default configuration reports nothing, on any machine:
/// every default lies within the accepted values.
pub proof fn lemma_default_config_is_valid(
    c: Config,
    cores: u32,
    temperature_text: Seq<char>,
    threshold_text: Seq<char>,
)
    requires
        is_default_config(c),
    ensures
        validation_errors(c, cores, temperature_text, threshold_text) == Seq::<Seq<char>>::empty(),
{
    reveal_strlit("auto");
    reveal_strlit("txt");
    let formats = c.output.formats.deep_view();
    assert(formats.drop_last() =~= Seq::<Seq<char>>::empty());
    assert(format_errors(formats.drop_last()) == Seq::<Seq<char>>::empty());
    assert(formats.last() == "txt"@);
    assert(is_valid_format_name(formats.last()));
    assert(format_errors(formats) =~= Seq::<Seq<char>>::empty());
    assert(validation_errors(c, cores, temperature_text, threshold_text) =~= Seq::<Seq<char>>::empty());
}

/// Without overrides and without a home directory, merging leaves every
/// setting as the configuration file gave it.
pub proof fn lemma_merge_without_overrides_keeps_config(c: Config, overrides: CliOverrides)
    requires
        no_overrides(overrides),
    ensures
        overridden(overrides.model, c.model.name) == c.model.name,
        overridden(overrides.language, c.model.language) == c.model.language,
        overridden(overrides.output_dir, c.output.directory) == c.output.directory,
        overridden(overrides.skip_existing, c.output.skip_existing) == c.output.skip_existing,
        overridden(overrides.threads, c.performance.threads) == c.performance.threads,
        overridden(overrides.gpu, c.performance.gpu) == c.performance.gpu,
        overridden(overrides.initial_prompt, c.inference.initial_prompt) == c.inference.initial_prompt,
        overridden(overrides.temperature, c.inference.temperature) == c.inference.temperature,
        overridden(overrides.suppress_non_speech, c.inference.suppress_non_speech) == c.inference.suppress_non_speech,
        overridden(overrides.no_speech_threshold, c.inference.no_speech_threshold) == c.inference.no_speech_threshold,
        overridden(overrides.max_segment_length, c.inference.max_segment_length) == c.inference.max_segment_length,
        overridden(overrides.split_on_word, c.inference.split_on_word) == c.inference.split_on_word,
        expanded_cache_dir(c.cache.directory@, None) == c.cache.directory@,
{
}

/// The thread message of validation on a machine with `cores` CPUs.
pub open spec fn thread_capacity_message(threads: u32, cores: u32) -> Seq<char> {
    "Thread count "@ + decimal(threads as nat) + " exceeds system capacity ("@ + decimal(cores as nat)
        + " cores). Using "@ + decimal(cores as nat) + " threads."@
}

/// The core count enters validation only through the thread limit of
/// twice the cores: when the configured threads are at most `2 * cores`,
/// validation on `cores` CPUs reports exactly what it reports on a machine
/// with the most CPUs there can be; when they are more, it reports that
/// and one message more, the thread message.
pub proof fn lemma_thread_limit_is_twice_the_cores(
    c: Config,
    cores: u32,
    temperature_text: Seq<char>,
    threshold_text: Seq<char>,
)
    ensures
        c.performance.threads <= 2 * cores ==> validation_errors(c, cores, temperature_text, threshold_text)
            == validation_errors(c, u32::MAX, temperature_text, threshold_text),
        c.performance.threads > 2 * cores ==> {
            let unlimited = validation_errors(c, u32::MAX, temperature_text, threshold_text);
            let here = validation_errors(c, cores, temperature_text, threshold_text);
            &&& here.len() == unlimited.len() + 1
            &&& here.contains(thread_capacity_message(c.performance.threads, cores))
        },
{
    let pre = model_errors(c) + quantization_errors(c) + language_errors(c);
    let post = gpu_errors(c) + format_errors(c.output.formats.deep_view()) + temperature_errors(c, temperature_text)
        + threshold_errors(c, threshold_text);
    assert(thread_errors(c, u32::MAX) =~= Seq::<Seq<char>>::empty());
    assert(validation_errors(c, u32::MAX, temperature_text, threshold_text) =~= pre + post);
    if c.performance.threads <= 2 * cores {
        assert(validation_errors(c, cores, temperature_text, threshold_text) =~= pre + post);
    } else {
        let m = thread_capacity_message(c.performance.threads, cores);
        assert(thread_errors(c, cores) =~= seq![m]);
        let here = validation_errors(c, cores, temperature_text, threshold_text);
        assert(here =~= pre + seq![m] + post);
        assert(here[pre.len() as int] == m);
    }
}

/// With a home directory known, every cache directory that starts with `~`
/// becomes the home directory joined with what follows its first two
/// characters (the `~` and the separator); any other directory, or any
/// directory when no home is known, is kept as it is.
pub proof fn lemma_tilde_expansion(dir: Seq<char>, home: Option<&str>)
    ensures
        home is Some && dir.len() > 0 && dir[0] == '~' ==> expanded_cache_dir(dir, home) == joined_path(
            home->0@,
            dir.subrange(2, dir.len() as int),
        ),
        !(dir.len() > 0 && dir[0] == '~') ==> expanded_cache_dir(dir, home) == dir,
        home is None ==> expanded_cache_dir(dir, home) == dir,
{
}

} // verus!
