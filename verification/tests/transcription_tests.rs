use transcriber::cli::{missing_directory_error, missing_input_error, Cli, Commands};
use transcriber::config::{CliOverrides, Config};
use transcriber::output::{FormatWriter, Segment};
use transcriber::transcription::{BatchStats, FileOutcome, Transcriber};

fn cli() -> Cli {
    Cli {
        input: None,
        dir: None,
        model: Some("small".to_string()),
        language: None,
        output: Some("out".to_string()),
        config: None,
        skip_existing: true,
        format: None,
        threads: Some(3),
        gpu: None,
        initial_prompt: None,
        temperature: Some(0.25f32.to_bits()),
        suppress_non_speech: false,
        no_speech_threshold: None,
        max_segment_length: None,
        split_on_word: true,
        no_streaming: false,
        command: None,
    }
}

#[test]
fn cli_queries_and_overrides() {
    let mut c = cli();
    assert!(!c.has_input_source());
    assert!(!c.is_init_command());
    c.dir = Some("d".to_string());
    assert!(c.has_input_source());
    c.command = Some(Commands::Init { path: None });
    assert!(c.is_init_command());
    let o = CliOverrides::from(&c);
    assert_eq!(o.model, Some("small".to_string()));
    assert_eq!(o.output_dir, Some("out".to_string()));
    assert_eq!(o.skip_existing, Some(true));
    assert_eq!(o.suppress_non_speech, None);
    assert_eq!(o.split_on_word, Some(true));
    assert_eq!(o.threads, Some(3));
    assert_eq!(o.temperature, Some(0.25f32.to_bits()));
}

#[test]
fn output_plan_and_skip_markers() {
    let mut config = Config::default();
    config.output.formats = vec!["srt".to_string(), "all".to_string()];
    let t = Transcriber::new(config);
    assert_eq!(t.output_directory("/videos/a.mp4"), "/videos");
    assert_eq!(t.output_formats(), vec!["txt", "srt", "json"]);
    let plan = t.plan_output("/videos/a.mp4");
    assert_eq!(plan.directory, "/videos");
    assert!(plan.error.is_none());
    let paths: Vec<&str> = plan.files.iter().map(|f| f.path.as_str()).collect();
    assert_eq!(paths, vec!["/videos/a.transcript.txt", "/videos/a.transcript.srt", "/videos/a.transcript.json"]);
    assert!(matches!(plan.files[2].writer, FormatWriter::Json(_)));
    assert_eq!(t.skip_markers("/videos/a.mp4"), vec!["/videos/a.transcript.txt", "/videos/a.transcript.srt", "/videos/a.transcript.json"]);

    let mut config = Config::default();
    config.output.directory = "/out".to_string();
    config.output.formats = vec!["txt".to_string(), "pdf".to_string(), "srt".to_string()];
    config.output.skip_existing = false;
    let t = Transcriber::new(config);
    let plan = t.plan_output("a.mov");
    assert_eq!(plan.files.len(), 1);
    assert_eq!(plan.files[0].path, "/out/a.transcript.txt");
    assert_eq!(plan.error.unwrap().message(), "Output error: Unknown output format: pdf");
    assert!(t.skip_markers("a.mov").is_empty());
    assert_eq!(t.output_directory("a.mov"), "/out");
}

#[test]
fn transcript_assembly_and_threads() {
    let mut config = Config::default();
    config.performance.threads = 6;
    let t = Transcriber::new(config);
    let seg = Segment { start_ms: 0, end_ms: 10, text: "hi".to_string(), words: vec![] };
    let tr = t.assemble_transcript("/v/clip.mkv", vec![seg]);
    assert_eq!(tr.file, "clip.mkv");
    assert_eq!(tr.model, "base");
    assert_eq!(tr.language, "auto");
    assert_eq!(tr.segments.len(), 1);
    assert_eq!(t.whisper_thread_count(), 6);
    let auto = Transcriber::new(Config::default());
    assert!(auto.whisper_thread_count() >= 1);
}

#[test]
fn batch_counts() {
    let mut stats = BatchStats::start(3);
    stats.record(FileOutcome::Skipped);
    stats.record(FileOutcome::Succeeded);
    stats.record(FileOutcome::Failed);
    assert_eq!((stats.total, stats.success, stats.failed, stats.skipped), (3, 1, 1, 1));
}

#[test]
fn skip_markers_expand_all() {
    let mut config = Config::default();
    config.output.formats = vec!["all".to_string()];
    config.output.directory = "/out".to_string();
    config.output.skip_existing = true;
    let t = Transcriber::new(config);
    assert_eq!(
        t.skip_markers("/videos/talk.mkv"),
        vec!["/out/talk.transcript.txt", "/out/talk.transcript.srt", "/out/talk.transcript.json"]
    );

    let mut config = Config::default();
    config.output.formats = vec!["srt".to_string()];
    config.output.skip_existing = true;
    let t = Transcriber::new(config);
    assert_eq!(t.skip_markers("/videos/talk.mkv"), vec!["/videos/talk.transcript.srt"]);
}

#[test]
fn batch_counts_follow_outcomes_in_order() {
    let outcomes = [
        FileOutcome::Succeeded,
        FileOutcome::Succeeded,
        FileOutcome::Skipped,
        FileOutcome::Failed,
        FileOutcome::Succeeded,
    ];
    let mut stats = BatchStats::start(outcomes.len());
    for o in outcomes {
        stats.record(o);
    }
    assert_eq!((stats.success, stats.failed, stats.skipped), (3, 1, 1));
    assert_eq!(stats.success + stats.failed + stats.skipped, stats.total);
}

#[test]
fn missing_inputs_are_reported() {
    assert!(missing_input_error("a.mp4", true).is_none());
    let e = missing_input_error("a.mp4", false).unwrap();
    assert_eq!(e.message(), "Configuration error in 'input': File not found: a.mp4");
    assert!(missing_directory_error("/videos", true).is_none());
    let e = missing_directory_error("/videos", false).unwrap();
    assert_eq!(e.message(), "Configuration error in 'dir': Directory not found: /videos");
}
