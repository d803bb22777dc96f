//! The command line as the library sees it: the options a user passed.
//!
//! Floating-point options are held by their IEEE-754 single-precision bit
//! pattern (`f32::to_bits`).

use vstd::prelude::*;
use crate::error::AppError;
use crate::text::join2;

verus! {

/// The options of one invocation.
#[derive(Debug)]
pub struct Cli {
    /// Input video file path
    pub input: Option<String>,
    /// Batch processing directory
    pub dir: Option<String>,
    /// Whisper model name
    pub model: Option<String>,
    /// Language code
    pub language: Option<String>,
    /// Output directory
    pub output: Option<String>,
    /// Custom config file path
    pub config: Option<String>,
    /// Skip existing transcript files
    pub skip_existing: bool,
    /// Output format list, comma separated
    pub format: Option<String>,
    /// Number of CPU threads
    pub threads: Option<u32>,
    /// GPU backend
    pub gpu: Option<String>,
    /// Initial prompt for decoder context
    pub initial_prompt: Option<String>,
    /// Sampling temperature, as the bit pattern of an `f32`
    pub temperature: Option<u32>,
    /// Suppress non-speech tokens
    pub suppress_non_speech: bool,
    /// No-speech detection threshold, as the bit pattern of an `f32`
    pub no_speech_threshold: Option<u32>,
    /// Maximum segment length in characters (0 = no limit)
    pub max_segment_length: Option<u32>,
    /// Split timestamps on word boundaries
    pub split_on_word: bool,
    /// Write output files after transcription rather than segment by segment
    pub no_streaming: bool,
    pub command: Option<Commands>,
}

/// Subcommands.
#[derive(Debug)]
pub enum Commands {
    /// Generate a default config file
    Init { path: Option<String> },
}

impl Cli {
    /// Whether an input file or an input directory was given.
    pub fn has_input_source(&self) -> (r: bool)
        ensures
            r == (self.input is Some || self.dir is Some),
    {
        self.input.is_some() || self.dir.is_some()
    }

    /// Whether this invocation is the `init` command.
    pub fn is_init_command(&self) -> (r: bool)
        ensures
            r == (self.command matches Some(Commands::Init { .. })),
    {
        match &self.command {
            Some(Commands::Init { .. }) => true,
            None => false,
        }
    }
}

/// The error for an input that is not there: `None` when `present`, else
/// a configuration error on the `input` option that names the file.
pub fn missing_input_error(input: &str, present: bool) -> (r: Option<AppError>)
    ensures
        present <==> r is None,
        r matches Some(e) ==> e matches AppError::Config { message, field } && message@ == "File not found: "@
            + input@ && (field matches Some(f) && f@ == "input"@),
{
    if present {
        None
    } else {
        Some(AppError::Config { message: join2("File not found: ", input), field: Some("input".to_string()) })
    }
}

/// The error for a batch directory that is not there: `None` when
/// `is_dir`, else a configuration error on the `dir` option that names it.
pub fn missing_directory_error(dir: &str, is_dir: bool) -> (r: Option<AppError>)
    ensures
        is_dir <==> r is None,
        r matches Some(e) ==> e matches AppError::Config { message, field } && message@ == "Directory not found: "@
            + dir@ && (field matches Some(f) && f@ == "dir"@),
{
    if is_dir {
        None
    } else {
        Some(AppError::Config { message: join2("Directory not found: ", dir), field: Some("dir".to_string()) })
    }
}

} // verus!
