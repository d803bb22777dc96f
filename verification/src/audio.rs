//! Audio extraction with FFmpeg: which inputs are videos, how FFmpeg is
//! located and described, how it is invoked, and how its run is judged.

use vstd::prelude::*;
use crate::error::AppError;
use crate::paths::{extension_of, file_stem_of, lowercase, path_extension, path_file_stem, to_lower};
use crate::text::{decimal, decimal_string, join2, text_eq};

verus! {

/// Supported video file extensions.
pub const SUPPORTED_VIDEO_EXTENSIONS: [&'static str; 6] = ["mp4", "mov", "avi", "mkv", "webm", "m4v"];

pub open spec fn is_supported_extension(e: Seq<char>) -> bool {
    e == "mp4"@ || e == "mov"@ || e == "avi"@ || e == "mkv"@ || e == "webm"@ || e == "m4v"@
}

/// Whether `path` names a video file: its extension, lower-cased, is one of
/// the supported ones.
pub fn is_supported_video(path: &str) -> (r: bool)
    ensures
        r == (path_extension(path@) matches Some(e) && is_supported_extension(lowercase(e))),
{
    match extension_of(path) {
        Some(e) => {
            let lower = to_lower(e.as_str());
            let l = lower.as_str();
            text_eq(l, "mp4") || text_eq(l, "mov") || text_eq(l, "avi") || text_eq(l, "mkv") || text_eq(l, "webm")
                || text_eq(l, "m4v")
        },
        None => false,
    }
}

/// A path is a supported video exactly when its extension, lower-cased, is
/// one of the entries of `SUPPORTED_VIDEO_EXTENSIONS`.
pub proof fn lemma_supported_videos_are_the_table(path: Seq<char>)
    ensures
        (path_extension(path) matches Some(e) && is_supported_extension(lowercase(e))) <==> (path_extension(path)
            matches Some(e) && exists|i: int|
            0 <= i < SUPPORTED_VIDEO_EXTENSIONS@.len() && #[trigger] SUPPORTED_VIDEO_EXTENSIONS@[i]@ == lowercase(e)),
{
    let table = SUPPORTED_VIDEO_EXTENSIONS@;
    assert(table.len() == 6);
    assert(table[0]@ == "mp4"@ && table[1]@ == "mov"@ && table[2]@ == "avi"@);
    assert(table[3]@ == "mkv"@ && table[4]@ == "webm"@ && table[5]@ == "m4v"@);
}

/// The file name of `path` without its extension; `unknown` when it has
/// none.
pub fn file_stem(path: &str) -> (r: String)
    ensures
        r@ == (match path_file_stem(path@) {
            Some(s) => s,
            None => "unknown"@,
        }),
{
    match file_stem_of(path) {
        Some(s) => s,
        None => "unknown".to_string(),
    }
}

/// The decoding of `bytes` as UTF-8, as `String::from_utf8` performs it.
///
/// Trusted: std documents that it succeeds exactly on valid UTF-8 and then
/// holds the encoded characters; both are stated with vstd's definitions.
#[verifier::external_body]
fn decode_utf8_text(bytes: Vec<u8>) -> (r: Option<String>)
    ensures
        r is Some <==> vstd::utf8::valid_utf8(bytes@),
        r matches Some(s) ==> s@ == vstd::utf8::decode_utf8(bytes@),
{
    match String::from_utf8(bytes) {
        Ok(s) => Some(s),
        Err(_) => None,
    }
}

/// The index of the first newline of `s`, or its length when it has none.
pub open spec fn first_newline(s: Seq<char>) -> nat
    decreases s.len(),
{
    if s.len() == 0 {
        0
    } else if s[0] == '\n' {
        0
    } else {
        1 + first_newline(s.drop_first())
    }
}

/// The first line of `s` as `str::lines` yields it: the text before the
/// first `\n`, without a `\r` just before that `\n`; `None` for empty text.
pub open spec fn first_line(s: Seq<char>) -> Option<Seq<char>> {
    if s.len() == 0 {
        None
    } else {
        let k = first_newline(s);
        let line = s.take(k as int);
        if k < s.len() && k > 0 && line.last() == '\r' {
            Some(line.drop_last())
        } else {
            Some(line)
        }
    }
}

proof fn lemma_first_newline(s: Seq<char>, k: int)
    requires
        0 <= k <= s.len(),
        forall|j: int| 0 <= j < k ==> s[j] != '\n',
        k == s.len() || s[k] == '\n',
    ensures
        first_newline(s) == k,
    decreases s.len(),
{
    if s.len() > 0 && k > 0 {
        lemma_first_newline(s.drop_first(), k - 1);
    }
}

/// The first line of `s`.
fn first_line_of(s: &str) -> (r: Option<String>)
    ensures
        r matches Some(l) ==> first_line(s@) == Some(l@),
        r is None ==> first_line(s@) is None,
{
    let n = s.unicode_len();
    if n == 0 {
        return None;
    }
    let mut k: usize = 0;
    while k < n && s.get_char(k) != '\n'
        invariant
            n == s@.len(),
            k <= n,
            forall|j: int| 0 <= j < k ==> s@[j] != '\n',
        decreases n - k,
    {
        k = k + 1;
    }
    proof {
        lemma_first_newline(s@, k as int);
    }
    if k < n && k > 0 && s.get_char(k - 1) == '\r' {
        Some(s.substring_char(0, k - 1).to_string())
    } else {
        Some(s.substring_char(0, k).to_string())
    }
}

/// What running `ffmpeg -version` gave: whether it exited successfully, and
/// what it printed.
pub struct VersionProbe {
    pub success: bool,
    pub stdout: Vec<u8>,
}

/// The version line of FFmpeg: the first line of what `ffmpeg -version`
/// printed, when it ran, succeeded and printed UTF-8; `unknown` otherwise.
pub open spec fn version_line(probe: Option<VersionProbe>) -> Seq<char> {
    match probe {
        Some(p) => if p.success && vstd::utf8::valid_utf8(p.stdout@) {
            match first_line(vstd::utf8::decode_utf8(p.stdout@)) {
                Some(l) => l,
                None => "unknown"@,
            }
        } else {
            "unknown"@
        },
        None => "unknown"@,
    }
}

/// FFmpeg detection result.
#[derive(Debug, Clone)]
pub struct FfmpegInfo {
    pub path: String,
    pub version: String,
}

impl FfmpegInfo {
    /// Describes the FFmpeg found at `path` from what its version query
    /// gave (`None` when it could not be run).
    pub fn from_probe(path: String, probe: Option<VersionProbe>) -> (r: Self)
        ensures
            r.path == path,
            r.version@ == version_line(probe),
    {
        let version = match probe {
            Some(p) => {
                if p.success {
                    match decode_utf8_text(p.stdout) {
                        Some(text) => match first_line_of(text.as_str()) {
                            Some(l) => l,
                            None => "unknown".to_string(),
                        },
                        None => "unknown".to_string(),
                    }
                } else {
                    "unknown".to_string()
                }
            },
            None => "unknown".to_string(),
        };
        FfmpegInfo { path, version }
    }
}

/// Audio extractor.
pub struct AudioExtractor {
    ffmpeg: FfmpegInfo,
}

impl View for AudioExtractor {
    type V = FfmpegInfo;

    closed spec fn view(&self) -> FfmpegInfo {
        self.ffmpeg
    }
}

impl AudioExtractor {
    /// An extractor running the FFmpeg that was located, if one was;
    /// otherwise the error that FFmpeg is missing.
    pub fn new(located: Option<FfmpegInfo>) -> (r: Result<Self, AppError>)
        ensures
            r is Ok <==> located is Some,
            r matches Ok(x) ==> x@ == located->0,
            r matches Err(e) ==> e is FfmpegNotFound,
    {
        match located {
            Some(ffmpeg) => Ok(AudioExtractor { ffmpeg }),
            None => Err(AppError::FfmpegNotFound),
        }
    }

    /// The FFmpeg this extractor runs.
    pub fn ffmpeg_info(&self) -> (r: &FfmpegInfo)
        ensures
            *r == self@,
    {
        &self.ffmpeg
    }

    /// The arguments that make FFmpeg write the audio of `video_path` to
    /// `output_path` as 16 kHz mono 16-bit PCM WAV, replacing any file.
    pub fn extract_arguments(&self, video_path: &str, output_path: &str) -> (r: Vec<String>)
        ensures
            r.deep_view() == seq![
                "-i"@,
                video_path@,
                "-vn"@,
                "-acodec"@,
                "pcm_s16le"@,
                "-ar"@,
                "16000"@,
                "-ac"@,
                "1"@,
                "-y"@,
                output_path@,
            ],
    {
        let mut v: Vec<String> = Vec::new();
        v.push("-i".to_string());
        v.push(video_path.to_string());
        v.push("-vn".to_string());
        v.push("-acodec".to_string());
        v.push("pcm_s16le".to_string());
        v.push("-ar".to_string());
        v.push("16000".to_string());
        v.push("-ac".to_string());
        v.push("1".to_string());
        v.push("-y".to_string());
        v.push(output_path.to_string());
        assert(v.deep_view() =~= seq![
            "-i"@,
            video_path@,
            "-vn"@,
            "-acodec"@,
            "pcm_s16le"@,
            "-ar"@,
            "16000"@,
            "-ac"@,
            "1"@,
            "-y"@,
            output_path@,
        ]);
        v
    }
}

/// The decimal representation of a signed integer.
pub open spec fn signed_decimal(i: int) -> Seq<char> {
    if i < 0 {
        "-"@ + decimal((-i) as nat)
    } else {
        decimal(i as nat)
    }
}

/// `{:?}` of an optional exit code.
pub open spec fn exit_code_debug(code: Option<i32>) -> Seq<char> {
    match code {
        Some(c) => "Some("@ + signed_decimal(c as int) + ")"@,
        None => "None"@,
    }
}

fn exit_code_text(code: Option<i32>) -> (r: String)
    ensures
        r@ == exit_code_debug(code),
{
    match code {
        Some(c) => {
            let digits = if c < 0 {
                let magnitude = (0i64 - (c as i64)) as u64;
                join2("-", decimal_string(magnitude).as_str())
            } else {
                decimal_string(c as u64)
            };
            let mut s = join2("Some(", digits.as_str());
            s.append(")");
            s
        },
        None => "None".to_string(),
    }
}

/// Whether `e` is an audio error with exactly this message and source.
pub open spec fn is_audio_error(e: AppError, message: Seq<char>, source: Option<Seq<char>>) -> bool {
    match e {
        AppError::Audio { message: m, source: s } => m@ == message && match s {
            Some(t) => source == Some(t@),
            None => source is None,
        },
        _ => false,
    }
}

/// The result of judging an FFmpeg run: `None` when it succeeded, else the
/// message of the audio error.
pub open spec fn extraction_problem(success: bool, exit_code: Option<i32>, output_len: Option<u64>) -> Option<Seq<char>> {
    if !success {
        Some("FFmpeg exited with code: "@ + exit_code_debug(exit_code))
    } else {
        match output_len {
            Some(len) => if len > 0 {
                None
            } else {
                Some("FFmpeg produced empty output"@)
            },
            None => Some("FFmpeg produced empty output"@),
        }
    }
}

/// The error for an FFmpeg that could not be started; `detail` describes
/// why.
pub fn execution_failure(detail: &str) -> (r: AppError)
    ensures
        is_audio_error(r, "Failed to execute FFmpeg: "@ + detail@, Some(detail@)),
{
    AppError::Audio { message: join2("Failed to execute FFmpeg: ", detail), source: Some(detail.to_string()) }
}

/// Judges an FFmpeg run: it must exit successfully and leave a non-empty
/// output file (`output_len` is its size, `None` when there is no file).
pub fn check_extraction(success: bool, exit_code: Option<i32>, output_len: Option<u64>) -> (r: Result<(), AppError>)
    ensures
        r is Ok <==> extraction_problem(success, exit_code, output_len) is None,
        r matches Err(e) ==> is_audio_error(e, extraction_problem(success, exit_code, output_len)->0, None),
{
    if !success {
        let code = exit_code_text(exit_code);
        return Err(AppError::Audio { message: join2("FFmpeg exited with code: ", code.as_str()), source: None });
    }
    match output_len {
        Some(len) => if len > 0 {
            Ok(())
        } else {
            Err(AppError::Audio { message: "FFmpeg produced empty output".to_string(), source: None })
        },
        None => Err(AppError::Audio { message: "FFmpeg produced empty output".to_string(), source: None }),
    }
}

/// The sample rate the recognizer takes.
pub const WHISPER_SAMPLE_RATE: u32 = 16000;

/// Checks that extracted audio has the recognizer's sample rate.
pub fn check_sample_rate(sample_rate: u32) -> (r: Result<(), AppError>)
    ensures
        r is Ok <==> sample_rate == 16000,
        r matches Err(e) ==> is_audio_error(e, "Expected 16kHz sample rate, got "@ + decimal(sample_rate as nat), None),
{
    if sample_rate != WHISPER_SAMPLE_RATE {
        let n = decimal_string(sample_rate as u64);
        Err(AppError::Audio { message: join2("Expected 16kHz sample rate, got ", n.as_str()), source: None })
    } else {
        Ok(())
    }
}

} // verus!
