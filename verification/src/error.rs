//! The library's error type and its user-facing messages.

use vstd::prelude::*;
use crate::text::{decimal, decimal_string, join2, join4};

verus! {

#[verifier::external_type_specification]
#[verifier::external_body]
pub struct ExIoError(std::io::Error);

/// What `{:?}` prints for the path whose text is the argument.
pub uninterp spec fn path_debug_text(path: Seq<char>) -> Seq<char>;

/// Renders `path` with the `Debug` formatting of `std::path::Path`.
///
/// Trusted: the result is claimed to be a fixed function of the path text
/// (std's `Debug` for `Path` quotes and escapes it); what that function is
/// is not stated.
#[verifier::external_body]
fn path_debug(path: &str) -> (r: String)
    ensures
        r@ == path_debug_text(path@),
{
    format!("{:?}", std::path::Path::new(path))
}

/// Renders an I/O error with its `Display` formatting.
///
/// Trusted, with nothing claimed of the text: std builds it from the
/// operating system's error description, which depends on the machine.
#[verifier::external_body]
fn io_error_text(err: &std::io::Error) -> String {
    format!("{}", err)
}

/// Everything that can go wrong while configuring, loading a model,
/// extracting audio, transcribing or writing output.
#[derive(Debug)]
pub enum AppError {
    Config { message: String, field: Option<String> },
    Model { message: String, model: String },
    Audio { message: String, source: Option<String> },
    Transcription { message: String, segment: Option<usize> },
    Output { message: String, path: Option<String> },
    Io(std::io::Error),
    FfmpegNotFound,
    ModelDownload { model: String, url: String, status: Option<u16> },
}

pub open spec fn ffmpeg_hint() -> Seq<char> {
    "FFmpeg not found. Please install FFmpeg:\n  macOS: brew install ffmpeg\n  Ubuntu: sudo apt install ffmpeg\n  Or ensure ffmpeg is in your PATH."@
}

/// The message of every error but `Io`, whose text comes from the system.
pub open spec fn error_message(e: AppError) -> Seq<char> {
    match e {
        AppError::Config { message, field } => match field {
            Some(f) => "Configuration error in '"@ + f@ + "': "@ + message@,
            None => "Configuration error: "@ + message@,
        },
        AppError::Model { message, model } => "Model '"@ + model@ + "' error: "@ + message@,
        AppError::Audio { message, source } => match source {
            Some(s) => "Audio extraction error ("@ + s@ + "): "@ + message@,
            None => "Audio extraction error: "@ + message@,
        },
        AppError::Transcription { message, segment } => match segment {
            Some(i) => "Transcription error at segment "@ + decimal(i as nat) + ": "@ + message@,
            None => "Transcription error: "@ + message@,
        },
        AppError::Output { message, path } => match path {
            Some(p) => "Output error for "@ + path_debug_text(p@) + ": "@ + message@,
            None => "Output error: "@ + message@,
        },
        AppError::Io(_) => "I/O error: "@,
        AppError::FfmpegNotFound => ffmpeg_hint(),
        AppError::ModelDownload { model, url, status } => match status {
            Some(code) => "Failed to download model '"@ + model@ + "' from "@ + url@ + " (HTTP "@
                + decimal(code as nat) + ")"@,
            None => "Failed to download model '"@ + model@ + "' from "@ + url@,
        },
    }
}

/// Whether `needle` occurs in `text` as a contiguous stretch.
pub open spec fn contains_text(text: Seq<char>, needle: Seq<char>) -> bool {
    exists|i: int|
        0 <= i && i + needle.len() <= text.len() && #[trigger] text.subrange(i, i + needle.len()) == needle
}

proof fn lemma_contains_middle(pre: Seq<char>, mid: Seq<char>, post: Seq<char>)
    ensures
        contains_text(pre + mid + post, mid),
{
    let s = pre + mid + post;
    assert(s.subrange(pre.len() as int, (pre.len() + mid.len()) as int) =~= mid);
}

proof fn lemma_contains_last(pre: Seq<char>, last: Seq<char>)
    ensures
        contains_text(pre + last, last),
{
    lemma_contains_middle(pre, last, Seq::empty());
    assert(pre + last + Seq::<char>::empty() =~= pre + last);
}

/// Every message shows what its error carries: the message text, and the
/// field, model, source, segment number, path (in its debug form), URL and
/// HTTP status wherever the error holds one. (An `Io` error's text comes
/// from the system; its message is stated by `AppError::message`.)
pub proof fn lemma_error_message_shows_payloads(e: AppError)
    ensures
        e matches AppError::Config { message, field } ==> contains_text(error_message(e), message@) && (
        field matches Some(f) ==> contains_text(error_message(e), f@)),
        e matches AppError::Model { message, model } ==> contains_text(error_message(e), message@)
            && contains_text(error_message(e), model@),
        e matches AppError::Audio { message, source } ==> contains_text(error_message(e), message@) && (
        source matches Some(s) ==> contains_text(error_message(e), s@)),
        e matches AppError::Transcription { message, segment } ==> contains_text(error_message(e), message@)
            && (segment matches Some(i) ==> contains_text(error_message(e), decimal(i as nat))),
        e matches AppError::Output { message, path } ==> contains_text(error_message(e), message@) && (
        path matches Some(p) ==> contains_text(error_message(e), path_debug_text(p@))),
        e matches AppError::ModelDownload { model, url, status } ==> contains_text(error_message(e), model@)
            && contains_text(error_message(e), url@) && (status matches Some(c) ==> contains_text(
            error_message(e),
            decimal(c as nat),
        )),
{
    match e {
        AppError::Config { message, field } => match field {
            Some(f) => {
                let (a, b) = ("Configuration error in '"@, "': "@);
                lemma_contains_middle(a, f@, b + message@);
                assert(a + f@ + (b + message@) =~= a + f@ + b + message@);
                lemma_contains_last(a + f@ + b, message@);
            },
            None => lemma_contains_last("Configuration error: "@, message@),
        },
        AppError::Model { message, model } => {
            let (a, b) = ("Model '"@, "' error: "@);
            lemma_contains_middle(a, model@, b + message@);
            assert(a + model@ + (b + message@) =~= a + model@ + b + message@);
            lemma_contains_last(a + model@ + b, message@);
        },
        AppError::Audio { message, source } => match source {
            Some(s) => {
                let (a, b) = ("Audio extraction error ("@, "): "@);
                lemma_contains_middle(a, s@, b + message@);
                assert(a + s@ + (b + message@) =~= a + s@ + b + message@);
                lemma_contains_last(a + s@ + b, message@);
            },
            None => lemma_contains_last("Audio extraction error: "@, message@),
        },
        AppError::Transcription { message, segment } => match segment {
            Some(i) => {
                let (a, b, n) = ("Transcription error at segment "@, ": "@, decimal(i as nat));
                lemma_contains_middle(a, n, b + message@);
                assert(a + n + (b + message@) =~= a + n + b + message@);
                lemma_contains_last(a + n + b, message@);
            },
            None => lemma_contains_last("Transcription error: "@, message@),
        },
        AppError::Output { message, path } => match path {
            Some(p) => {
                let (a, b, d) = ("Output error for "@, ": "@, path_debug_text(p@));
                lemma_contains_middle(a, d, b + message@);
                assert(a + d + (b + message@) =~= a + d + b + message@);
                lemma_contains_last(a + d + b, message@);
            },
            None => lemma_contains_last("Output error: "@, message@),
        },
        AppError::ModelDownload { model, url, status } => {
            let (a, b) = ("Failed to download model '"@, "' from "@);
            let base = a + model@ + b + url@;
            let tail = match status {
                Some(c) => " (HTTP "@ + decimal(c as nat) + ")"@,
                None => Seq::<char>::empty(),
            };
            assert(error_message(e) =~= base + tail);
            lemma_contains_middle(a, model@, b + url@ + tail);
            assert(a + model@ + (b + url@ + tail) =~= base + tail);
            lemma_contains_middle(a + model@ + b, url@, tail);
            if let Some(c) = status {
                lemma_contains_middle(base + " (HTTP "@, decimal(c as nat), ")"@);
                assert(base + " (HTTP "@ + decimal(c as nat) + ")"@ =~= base + tail);
            }
        },
        _ => {},
    }
}

impl AppError {
    /// The text shown to the user for this error.
    pub fn message(&self) -> (r: String)
        ensures
            !(self is Io) ==> r@ == error_message(*self),
            self is Io ==> r@.len() >= 11 && r@.subrange(0, 11) == "I/O error: "@,
    {
        match self {
            AppError::Config { message, field } => match field {
                Some(f) => {
                    proof {
                        reveal_strlit("Configuration error in '");
                        reveal_strlit("': ");
                    }
                    join4("Configuration error in '", f.as_str(), "': ", message.as_str())
                },
                None => join2("Configuration error: ", message.as_str()),
            },
            AppError::Model { message, model } => join4(
                "Model '",
                model.as_str(),
                "' error: ",
                message.as_str(),
            ),
            AppError::Audio { message, source } => match source {
                Some(s) => join4("Audio extraction error (", s.as_str(), "): ", message.as_str()),
                None => join2("Audio extraction error: ", message.as_str()),
            },
            AppError::Transcription { message, segment } => match segment {
                Some(i) => {
                    let n = decimal_string(*i as u64);
                    join4("Transcription error at segment ", n.as_str(), ": ", message.as_str())
                },
                None => join2("Transcription error: ", message.as_str()),
            },
            AppError::Output { message, path } => match path {
                Some(p) => {
                    let shown = path_debug(p.as_str());
                    join4("Output error for ", shown.as_str(), ": ", message.as_str())
                },
                None => join2("Output error: ", message.as_str()),
            },
            AppError::Io(err) => {
                let detail = io_error_text(err);
                proof {
                    reveal_strlit("I/O error: ");
                }
                let r = join2("I/O error: ", detail.as_str());
                assert(r@.subrange(0, 11) =~= "I/O error: "@);
                r
            },
            AppError::FfmpegNotFound => "FFmpeg not found. Please install FFmpeg:\n  macOS: brew install ffmpeg\n  Ubuntu: sudo apt install ffmpeg\n  Or ensure ffmpeg is in your PATH.".to_string(),
            AppError::ModelDownload { model, url, status } => match status {
                Some(code) => {
                    let n = decimal_string(*code as u64);
                    let mut s = join4("Failed to download model '", model.as_str(), "' from ", url.as_str());
                    s.append(" (HTTP ");
                    s.append(n.as_str());
                    s.append(")");
                    s
                },
                None => join4("Failed to download model '", model.as_str(), "' from ", url.as_str()),
            },
        }
    }
}

impl From<std::io::Error> for AppError {
    fn from(err: std::io::Error) -> (r: Self) {
        AppError::Io(err)
    }
}

impl vstd::std_specs::convert::FromSpecImpl<std::io::Error> for AppError {
    open spec fn obeys_from_spec() -> bool {
        true
    }

    open spec fn from_spec(err: std::io::Error) -> Self {
        AppError::Io(err)
    }
}

} // verus!
