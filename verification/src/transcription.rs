//! The transcriber's decisions around recognition: where a video's
//! transcripts go, which files to write, when to skip a video, how a batch
//! is counted, and how the recognizer is set up.

use vstd::prelude::*;
use crate::config::{available_cpus, Config};
use crate::error::AppError;
use crate::output::{format_named, get_format_writer, output_file_path, transcript_file_name, FormatWriter, Segment, Transcript};
use crate::paths::{file_name_of, joined_path, parent_of, path_file_name, path_file_stem, path_parent};
use crate::audio::file_stem;
use crate::text::{join2, text_eq};

verus! {

/// Transcribes videos with one configuration.
pub struct Transcriber {
    config: Config,
}

impl View for Transcriber {
    type V = Config;

    closed spec fn view(&self) -> Config {
        self.config
    }
}

/// The directory that receives the transcripts of `video`: the video's own
/// directory when the configured one is `./` (`.` when it has no parent),
/// else the configured one.
pub open spec fn output_dir_for(config: Config, video: Seq<char>) -> Seq<char> {
    if config.output.directory@ == "./"@ {
        match path_parent(video) {
            Some(p) => p,
            None => "."@,
        }
    } else {
        config.output.directory@
    }
}

/// Transcripts go to the configured directory whenever it is anything but
/// exactly `./` (so `./subtitles`, `.` or `/out` are used as given); only
/// `./` sends them next to the video, or to `.` for a video without a
/// parent directory.
pub proof fn lemma_configured_directory_is_used(config: Config, video: Seq<char>)
    ensures
        config.output.directory@ != "./"@ ==> output_dir_for(config, video) == config.output.directory@,
        config.output.directory@ == "./"@ ==> output_dir_for(config, video) == (match path_parent(video) {
            Some(p) => p,
            None => "."@,
        }),
{
}

/// The stem that names the transcripts of `video`.
pub open spec fn stem_for(video: Seq<char>) -> Seq<char> {
    match path_file_stem(video) {
        Some(s) => s,
        None => "unknown"@,
    }
}

/// The formats to write: all three when `all` is among the configured
/// ones, else the configured ones.
pub open spec fn formats_to_write(formats: Seq<Seq<char>>) -> Seq<Seq<char>> {
    if formats.contains("all"@) {
        seq!["txt"@, "srt"@, "json"@]
    } else {
        formats
    }
}

/// One transcript file to write.
pub struct OutputFile {
    pub writer: FormatWriter,
    pub path: String,
}

/// The files to write for one transcript, and the error that stops the
/// writing, if a format is unknown: the files before it are written.
pub struct OutputPlan {
    pub directory: String,
    pub files: Vec<OutputFile>,
    pub error: Option<AppError>,
}

/// How many of `formats` are written before the first unknown one.
pub open spec fn known_prefix(formats: Seq<Seq<char>>) -> nat
    decreases formats.len(),
{
    if formats.len() == 0 {
        0
    } else if format_named(formats[0]) is Some {
        1 + known_prefix(formats.drop_first())
    } else {
        0
    }
}

proof fn lemma_known_prefix(formats: Seq<Seq<char>>, k: int)
    requires
        0 <= k <= formats.len(),
        forall|j: int| 0 <= j < k ==> format_named(#[trigger] formats[j]) is Some,
        k == formats.len() || format_named(formats[k]) is None,
    ensures
        known_prefix(formats) == k,
    decreases formats.len(),
{
    if formats.len() > 0 && k > 0 {
        assert forall|j: int| 0 <= j < k - 1 implies format_named(#[trigger] formats.drop_first()[j]) is Some by {
            assert(formats.drop_first()[j] == formats[j + 1]);
        }
        lemma_known_prefix(formats.drop_first(), k - 1);
    }
}

impl Transcriber {
    pub fn new(config: Config) -> (r: Self)
        ensures
            r@ == config,
    {
        Transcriber { config }
    }

    /// The directory that receives the transcripts of `video_path`.
    pub fn output_directory(&self, video_path: &str) -> (r: String)
        ensures
            r@ == output_dir_for(self@, video_path@),
    {
        if text_eq(self.config.output.directory.as_str(), "./") {
            match parent_of(video_path) {
                Some(p) => p,
                None => ".".to_string(),
            }
        } else {
            self.config.output.directory.clone()
        }
    }

    /// The formats to write.
    pub fn output_formats(&self) -> (r: Vec<String>)
        ensures
            r.deep_view() == formats_to_write(self@.output.formats.deep_view()),
    {
        let formats = &self.config.output.formats;
        let mut i: usize = 0;
        while i < formats.len()
            invariant
                formats == &self@.output.formats,
                i <= formats@.len(),
                forall|j: int| 0 <= j < i ==> formats.deep_view()[j] != "all"@,
            decreases formats@.len() - i,
        {
            if text_eq(formats[i].as_str(), "all") {
                assert(formats.deep_view()[i as int] == "all"@);
                assert(formats.deep_view().contains("all"@));
                let mut all: Vec<String> = Vec::new();
                all.push("txt".to_string());
                all.push("srt".to_string());
                all.push("json".to_string());
                assert(all.deep_view() =~= seq!["txt"@, "srt"@, "json"@]);
                return all;
            }
            i = i + 1;
        }
        assert(!formats.deep_view().contains("all"@));
        let mut copy: Vec<String> = Vec::new();
        let mut k: usize = 0;
        while k < formats.len()
            invariant
                formats == &self@.output.formats,
                k <= formats@.len(),
                copy.deep_view() == formats.deep_view().take(k as int),
            decreases formats@.len() - k,
        {
            let ghost before = copy.deep_view();
            let item = formats[k].clone();
            copy.push(item);
            assert(copy.deep_view() =~= before.push(formats.deep_view()[k as int]));
            assert(copy.deep_view() =~= formats.deep_view().take(k + 1));
            k = k + 1;
        }
        assert(formats.deep_view().take(formats@.len() as int) =~= formats.deep_view());
        copy
    }

    /// Where to write the transcripts of `video_path`, in which formats,
    /// and the error for the first unknown format, if any; the caller
    /// creates the directory and writes the planned files in order.
    pub fn plan_output(&self, video_path: &str) -> (r: OutputPlan)
        ensures
            r.directory@ == output_dir_for(self@, video_path@),
            ({
                let formats = formats_to_write(self@.output.formats.deep_view());
                let k = known_prefix(formats);
                &&& r.files@.len() == k
                &&& forall|i: int|
                    0 <= i < k ==> {
                        &&& Some(#[trigger] r.files@[i].writer) == format_named(formats[i])
                        &&& r.files@[i].path@ == joined_path(
                            output_dir_for(self@, video_path@),
                            transcript_file_name(stem_for(video_path@), formats[i]),
                        )
                    }
                &&& (k < formats.len()) == (r.error is Some)
                &&& r.error matches Some(e) ==> e matches AppError::Output { message, path }
                    && message@ == "Unknown output format: "@ + formats[k as int] && path is None
            }),
    {
        let stem = file_stem(video_path);
        let directory = self.output_directory(video_path);
        let formats = self.output_formats();
        let ghost fv = formats.deep_view();
        let mut files: Vec<OutputFile> = Vec::new();
        let mut i: usize = 0;
        while i < formats.len()
            invariant
                fv == formats.deep_view(),
                fv == formats_to_write(self@.output.formats.deep_view()),
                stem@ == stem_for(video_path@),
                directory@ == output_dir_for(self@, video_path@),
                i <= formats@.len(),
                files@.len() == i,
                forall|j: int| 0 <= j < i ==> format_named(#[trigger] fv[j]) is Some,
                forall|j: int|
                    0 <= j < i ==> {
                        &&& Some(#[trigger] files@[j].writer) == format_named(fv[j])
                        &&& files@[j].path@ == joined_path(
                            output_dir_for(self@, video_path@),
                            transcript_file_name(stem_for(video_path@), fv[j]),
                        )
                    },
            decreases formats@.len() - i,
        {
            let fmt = formats[i].as_str();
            match get_format_writer(fmt) {
                Some(writer) => {
                    let path = output_file_path(stem.as_str(), fmt, directory.as_str());
                    files.push(OutputFile { writer, path });
                },
                None => {
                    proof {
                        lemma_known_prefix(fv, i as int);
                    }
                    let error = AppError::Output { message: join2("Unknown output format: ", fmt), path: None };
                    return OutputPlan { directory, files, error: Some(error) };
                },
            }
            i = i + 1;
        }
        proof {
            lemma_known_prefix(fv, i as int);
        }
        OutputPlan { directory, files, error: None }
    }

    /// The files whose presence means `video_path` was transcribed before:
    /// none when skipping is off, else one per format to write (all three
    /// when `all` is configured).
    pub fn skip_markers(&self, video_path: &str) -> (r: Vec<String>)
        ensures
            !self@.output.skip_existing ==> r@.len() == 0,
            self@.output.skip_existing ==> {
                let formats = formats_to_write(self@.output.formats.deep_view());
                &&& r@.len() == formats.len()
                &&& forall|i: int|
                    0 <= i < r@.len() ==> #[trigger] r@[i]@ == joined_path(
                        output_dir_for(self@, video_path@),
                        transcript_file_name(stem_for(video_path@), formats[i]),
                    )
            },
    {
        let mut markers: Vec<String> = Vec::new();
        if !self.config.output.skip_existing {
            return markers;
        }
        let stem = file_stem(video_path);
        let directory = self.output_directory(video_path);
        let formats = self.output_formats();
        let ghost fv = formats.deep_view();
        let mut i: usize = 0;
        while i < formats.len()
            invariant
                fv == formats.deep_view(),
                fv == formats_to_write(self@.output.formats.deep_view()),
                stem@ == stem_for(video_path@),
                directory@ == output_dir_for(self@, video_path@),
                i <= formats@.len(),
                markers@.len() == i,
                forall|j: int|
                    0 <= j < i ==> #[trigger] markers@[j]@ == joined_path(
                        output_dir_for(self@, video_path@),
                        transcript_file_name(stem_for(video_path@), fv[j]),
                    ),
            decreases formats@.len() - i,
        {
            markers.push(output_file_path(stem.as_str(), formats[i].as_str(), directory.as_str()));
            i = i + 1;
        }
        markers
    }

    /// The thread count handed to the recognizer: the configured one, or
    /// the machine's CPU count when it is 0, as an `i32` (wrapping as `as`
    /// does).
    pub fn whisper_thread_count(&self) -> (r: i32)
        ensures
            self@.performance.threads != 0 ==> r == #[verifier::truncate] (self@.performance.threads as i32),
            self@.performance.threads == 0 ==> exists|cores: usize| cores >= 1 && r == #[trigger] cpu_threads(cores),
    {
        if self.config.performance.threads == 0 {
            let cores = available_cpus();
            let r = #[verifier::truncate] (cores as i32);
            assert(r == cpu_threads(cores));
            r
        } else {
            #[verifier::truncate] (self.config.performance.threads as i32)
        }
    }

    /// The transcript of `video_path` from its recognized `segments`.
    pub fn assemble_transcript(&self, video_path: &str, segments: Vec<Segment>) -> (r: Transcript)
        ensures
            r.file@ == (match path_file_name(video_path@) {
                Some(n) => n,
                None => "unknown"@,
            }),
            r.model == self@.model.name,
            r.language == self@.model.language,
            r.segments == segments,
    {
        let file = match file_name_of(video_path) {
            Some(n) => n,
            None => "unknown".to_string(),
        };
        Transcript {
            file,
            model: self.config.model.name.clone(),
            language: self.config.model.language.clone(),
            segments,
        }
    }
}

/// A CPU count as the recognizer's `i32` thread count.
pub open spec fn cpu_threads(cores: usize) -> i32 {
    #[verifier::truncate] (cores as i32)
}

/// What became of one file of a batch.
pub enum FileOutcome {
    /// Its transcript existed already.
    Skipped,
    /// It was transcribed and written.
    Succeeded,
    /// Transcribing or writing failed.
    Failed,
}

/// Batch transcription counts.
#[derive(Debug)]
pub struct BatchStats {
    pub total: usize,
    pub success: usize,
    pub failed: usize,
    pub skipped: usize,
}

/// The counts (successes, failures, skips) after one more outcome.
pub open spec fn count_step(counts: (nat, nat, nat), outcome: FileOutcome) -> (nat, nat, nat) {
    match outcome {
        FileOutcome::Succeeded => (counts.0 + 1, counts.1, counts.2),
        FileOutcome::Failed => (counts.0, counts.1 + 1, counts.2),
        FileOutcome::Skipped => (counts.0, counts.1, counts.2 + 1),
    }
}

/// The counts (successes, failures, skips) after recording `outcomes` in
/// order from the start of a batch.
pub open spec fn counted(outcomes: Seq<FileOutcome>) -> (nat, nat, nat)
    decreases outcomes.len(),
{
    if outcomes.len() == 0 {
        (0, 0, 0)
    } else {
        count_step(counted(outcomes.drop_last()), outcomes.last())
    }
}

impl BatchStats {
    /// How many files have been accounted for.
    pub open spec fn processed(&self) -> nat {
        (self.success + self.failed + self.skipped) as nat
    }

    /// The successes, failures and skips counted so far.
    pub open spec fn counts(&self) -> (nat, nat, nat) {
        (self.success as nat, self.failed as nat, self.skipped as nat)
    }

    /// The counts of a batch of `total` files, none processed yet.
    pub fn start(total: usize) -> (r: Self)
        ensures
            r.total == total,
            r.success == 0 && r.failed == 0 && r.skipped == 0,
            r.counts() == counted(Seq::empty()),
    {
        BatchStats { total, success: 0, failed: 0, skipped: 0 }
    }

    /// Counts the outcome of one more file of the batch.
    pub fn record(&mut self, outcome: FileOutcome)
        requires
            outcome is Skipped ==> old(self).skipped < usize::MAX,
            outcome is Succeeded ==> old(self).success < usize::MAX,
            outcome is Failed ==> old(self).failed < usize::MAX,
        ensures
            final(self).total == old(self).total,
            final(self).counts() == count_step(old(self).counts(), outcome),
            final(self).processed() == old(self).processed() + 1,
            final(self).success == old(self).success + (if outcome is Succeeded { 1int } else { 0 }),
            final(self).failed == old(self).failed + (if outcome is Failed { 1int } else { 0 }),
            final(self).skipped == old(self).skipped + (if outcome is Skipped { 1int } else { 0 }),
    {
        match outcome {
            FileOutcome::Skipped => self.skipped = self.skipped + 1,
            FileOutcome::Succeeded => self.success = self.success + 1,
            FileOutcome::Failed => self.failed = self.failed + 1,
        }
    }
}

/// Recording outcomes one by one counts them as `counted` does: counts that
/// stand at `counted(outcomes)` stand, after `BatchStats::record` of one
/// more outcome, at the counts of all of them. With `BatchStats::start`,
/// whose counts are `counted` of no outcomes, a batch's counts after
/// recording any outcomes in order are `counted` of those outcomes.
pub proof fn lemma_record_extends_counted(
    before: BatchStats,
    after: BatchStats,
    outcomes: Seq<FileOutcome>,
    outcome: FileOutcome,
)
    requires
        before.counts() == counted(outcomes),
        after.counts() == count_step(before.counts(), outcome),
    ensures
        after.counts() == counted(outcomes.push(outcome)),
{
    assert(outcomes.push(outcome).drop_last() =~= outcomes);
}

/// Every file of a batch is accounted for exactly once: after one outcome
/// per file, the successes, failures and skips add up to the number of
/// files.
pub proof fn lemma_batch_accounts_for_every_file(outcomes: Seq<FileOutcome>)
    ensures
        counted(outcomes).0 + counted(outcomes).1 + counted(outcomes).2 == outcomes.len(),
    decreases outcomes.len(),
{
    if outcomes.len() > 0 {
        lemma_batch_accounts_for_every_file(outcomes.drop_last());
    }
}

} // verus!
