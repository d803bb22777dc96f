use transcriber::audio::{
    check_extraction, check_sample_rate, file_stem, is_supported_video, AudioExtractor, FfmpegInfo, VersionProbe,
    SUPPORTED_VIDEO_EXTENSIONS,
};
use transcriber::config::{init_config_path, CliOverrides, Config};
use transcriber::error::AppError;
use transcriber::output::{get_format_writer, output_file_path};

fn float_text(bits: u32) -> String {
    format!("{}", f32::from_bits(bits))
}

fn validate(config: &Config) -> Vec<String> {
    config.validate(
        &float_text(config.inference.temperature),
        &float_text(config.inference.no_speech_threshold),
    )
}

#[test]
fn test_config_validation_invalid_model() {
    let mut config = Config::default();
    config.model.name = "nonexistent".to_string();

    let errors = validate(&config);
    assert!(errors.iter().any(|e| e.contains("Invalid model name")));
}

#[test]
fn test_config_validation_valid() {
    let config = Config::default();
    let errors = validate(&config);
    assert!(errors.is_empty() || errors.iter().all(|e| e.contains("exceeds")));
}

#[test]
fn test_config_validation_invalid_language() {
    let mut config = Config::default();
    config.model.language = "invalid_lang".to_string();

    let errors = validate(&config);
    assert!(errors.iter().any(|e| e.contains("Invalid language code")));
}

#[test]
fn test_config_validation_invalid_gpu() {
    let mut config = Config::default();
    config.performance.gpu = "nonexistent_gpu".to_string();

    let errors = validate(&config);
    assert!(errors.iter().any(|e| e.contains("Invalid GPU backend")));
}

#[test]
fn test_config_validation_temperature_out_of_range() {
    let mut config = Config::default();
    config.inference.temperature = 1.5f32.to_bits();

    let errors = validate(&config);
    assert!(errors.iter().any(|e| e.contains("temperature")));
}

#[test]
fn test_config_validation_invalid_quantization() {
    let mut config = Config::default();
    config.model.quantization = Some("invalid_quant".to_string());

    let errors = validate(&config);
    assert!(errors.iter().any(|e| e.contains("Invalid quantization")));
}

#[test]
fn validation_messages_in_order() {
    let mut config = Config::default();
    config.model.name = "huge".to_string();
    config.model.language = "中".to_string();
    config.performance.threads = 9;
    config.output.formats = vec!["txt".to_string(), "pdf".to_string(), "all".to_string(), "doc".to_string()];
    config.inference.temperature = (-0.5f32).to_bits();
    config.inference.no_speech_threshold = f32::INFINITY.to_bits();
    let errors = config.validate_with_cores(4, "-0.5", "inf");
    assert_eq!(
        errors,
        vec![
            "Invalid model name 'huge'. Valid options: tiny, base, small, medium, large-v3-turbo".to_string(),
            "Invalid language code '中'. Use ISO 639-1 (e.g. 'zh', 'en') or 'auto'.".to_string(),
            "Thread count 9 exceeds system capacity (4 cores). Using 4 threads.".to_string(),
            "Invalid output format 'pdf'. Valid options: txt, srt, json, all".to_string(),
            "Invalid output format 'doc'. Valid options: txt, srt, json, all".to_string(),
            "Invalid temperature '-0.5'. Must be between 0.0 and 1.0.".to_string(),
            "Invalid no_speech_threshold 'inf'. Must be between 0.0 and 1.0.".to_string(),
        ]
    );
}

#[test]
fn validation_float_edges() {
    let check = |t: f32| {
        let mut c = Config::default();
        c.inference.temperature = t.to_bits();
        !c.validate_with_cores(1, "t", "n").is_empty()
    };
    assert!(!check(0.0));
    assert!(!check(-0.0));
    assert!(!check(1.0));
    assert!(!check(0.999));
    assert!(check(f32::NAN));
    assert!(check(-f32::NAN));
    assert!(check(f32::from_bits(0x7F80_0001)));
    assert!(check(1.0000001));
    assert!(check(-f32::MIN_POSITIVE));
    assert!(check(f32::NEG_INFINITY));
    assert!(check(f32::INFINITY));
}

#[test]
fn validation_languages_by_bytes() {
    let lang_ok = |l: &str| {
        let mut c = Config::default();
        c.model.language = l.to_string();
        c.validate_with_cores(1, "0", "0.6").is_empty()
    };
    assert!(lang_ok("zh"));
    assert!(lang_ok("auto"));
    assert!(lang_ok("é"));
    assert!(!lang_ok("e"));
    assert!(!lang_ok("eng"));
    assert!(!lang_ok("中"));
    assert!(!lang_ok(""));
}

#[test]
fn default_config_values() {
    let c = Config::default();
    assert_eq!(c.model.name, "base");
    assert_eq!(c.model.language, "auto");
    assert_eq!(c.model.quantization, None);
    assert_eq!(c.audio.sample_rate, 16000);
    assert_eq!(c.performance.threads, 0);
    assert_eq!(c.output.formats, vec!["txt"]);
    assert_eq!(c.output.directory, "./");
    assert!(c.output.skip_existing);
    assert_eq!(c.cache.directory, "~/.cache/whisper");
    assert_eq!(c.inference.temperature, 0.0f32.to_bits());
    assert_eq!(c.inference.no_speech_threshold, 0.6f32.to_bits());
}

#[test]
fn test_output_formatter_unknown_format() {
    assert!(get_format_writer("txt").is_some());
    assert!(get_format_writer("srt").is_some());
    assert!(get_format_writer("json").is_some());
    assert!(get_format_writer("unknown").is_none());
    assert!(get_format_writer("").is_none());
}

#[test]
fn test_output_file_path_generation() {
    let path = output_file_path("my_video", "srt", "/output");
    assert_eq!(path, "/output/my_video.transcript.srt");

    let path = output_file_path("video", "json", "./");
    assert!(path.contains("video.transcript.json"));
}

#[test]
fn test_audio_extractor_creation() {
    let probe = VersionProbe {
        success: true,
        stdout: b"ffmpeg version 6.1.1 Copyright (c) 2000-2023 the FFmpeg developers\r\nbuilt with gcc\n".to_vec(),
    };
    let extractor = AudioExtractor::new(Some(FfmpegInfo::from_probe("/usr/bin/ffmpeg".to_string(), Some(probe))));
    assert!(extractor.is_ok());

    let extractor = extractor.unwrap();
    let info = extractor.ffmpeg_info();
    assert!(info.version.contains("ffmpeg") || info.version == "unknown");
    assert_eq!(info.version, "ffmpeg version 6.1.1 Copyright (c) 2000-2023 the FFmpeg developers");
}

#[test]
fn ffmpeg_missing_or_silent() {
    assert!(matches!(AudioExtractor::new(None), Err(AppError::FfmpegNotFound)));
    let failed = FfmpegInfo::from_probe("ffmpeg".to_string(), Some(VersionProbe { success: false, stdout: b"x".to_vec() }));
    assert_eq!(failed.version, "unknown");
    let not_run = FfmpegInfo::from_probe("ffmpeg".to_string(), None);
    assert_eq!(not_run.version, "unknown");
    let empty = FfmpegInfo::from_probe("ffmpeg".to_string(), Some(VersionProbe { success: true, stdout: vec![] }));
    assert_eq!(empty.version, "unknown");
    let bad_utf8 = FfmpegInfo::from_probe("ffmpeg".to_string(), Some(VersionProbe { success: true, stdout: vec![0xff, 0x0a] }));
    assert_eq!(bad_utf8.version, "unknown");
    let bare_cr = FfmpegInfo::from_probe("ffmpeg".to_string(), Some(VersionProbe { success: true, stdout: b"v1\r".to_vec() }));
    assert_eq!(bare_cr.version, "v1\r");
    let blank_first = FfmpegInfo::from_probe("ffmpeg".to_string(), Some(VersionProbe { success: true, stdout: b"\nv2".to_vec() }));
    assert_eq!(blank_first.version, "");
}

#[test]
fn extraction_arguments_and_outcome() {
    let ex = AudioExtractor::new(Some(FfmpegInfo { path: "ffmpeg".to_string(), version: "v".to_string() })).unwrap();
    assert_eq!(
        ex.extract_arguments("in.mp4", "/tmp/a.wav"),
        vec!["-i", "in.mp4", "-vn", "-acodec", "pcm_s16le", "-ar", "16000", "-ac", "1", "-y", "/tmp/a.wav"]
    );
    assert!(check_extraction(true, Some(0), Some(10)).is_ok());
    match check_extraction(false, Some(1), Some(10)) {
        Err(AppError::Audio { message, source }) => {
            assert_eq!(message, "FFmpeg exited with code: Some(1)");
            assert!(source.is_none());
        }
        _ => panic!("expected an audio error"),
    }
    match check_extraction(false, None, None) {
        Err(e) => assert_eq!(e.message(), "Audio extraction error: FFmpeg exited with code: None"),
        _ => panic!("expected an audio error"),
    }
    match check_extraction(false, Some(-9), None) {
        Err(AppError::Audio { message, .. }) => assert_eq!(message, "FFmpeg exited with code: Some(-9)"),
        _ => panic!("expected an audio error"),
    }
    match check_extraction(true, Some(0), Some(0)) {
        Err(AppError::Audio { message, .. }) => assert_eq!(message, "FFmpeg produced empty output"),
        _ => panic!("expected an audio error"),
    }
    assert!(check_extraction(true, Some(0), None).is_err());
    assert!(check_sample_rate(16000).is_ok());
    match check_sample_rate(44100) {
        Err(AppError::Audio { message, .. }) => assert_eq!(message, "Expected 16kHz sample rate, got 44100"),
        _ => panic!("expected an audio error"),
    }
}

#[test]
fn test_supported_video_extensions() {
    assert!(SUPPORTED_VIDEO_EXTENSIONS.contains(&"mp4"));
    assert!(SUPPORTED_VIDEO_EXTENSIONS.contains(&"mov"));
    assert!(SUPPORTED_VIDEO_EXTENSIONS.contains(&"avi"));

    assert!(is_supported_video("video.mp4"));
    assert!(is_supported_video("video.MP4"));
    assert!(is_supported_video("/path/to/video.mov"));
    assert!(!is_supported_video("document.pdf"));
    assert!(!is_supported_video("audio.mp3"));
}

#[test]
fn video_extension_edges() {
    assert!(!is_supported_video("mp4"));
    assert!(!is_supported_video(".mp4"));
    assert!(is_supported_video("a.b.WebM"));
    assert!(is_supported_video("dir.mp4/"));
    assert_eq!(file_stem("/path/to/video.mp4"), "video");
    assert_eq!(file_stem("archive.tar.gz"), "archive.tar");
    assert_eq!(file_stem("/"), "unknown");
    assert_eq!(file_stem(".."), "unknown");
}

#[test]
fn test_cli_overrides_merge() {
    let mut config = Config::default();
    assert_eq!(config.model.name, "base");

    let overrides = CliOverrides {
        model: Some("medium".to_string()),
        language: Some("zh".to_string()),
        threads: Some(8),
        ..Default::default()
    };

    config.merge_with_cli(overrides, None);

    assert_eq!(config.model.name, "medium");
    assert_eq!(config.model.language, "zh");
    assert_eq!(config.performance.threads, 8);
    assert_eq!(config.performance.gpu, "auto");
}

#[test]
fn merge_formats_and_home() {
    let mut config = Config::default();
    config.merge_with_cli(CliOverrides { format: Some("all".to_string()), ..Default::default() }, Some("/home/u"));
    assert_eq!(config.output.formats, vec!["txt", "srt", "json"]);
    assert_eq!(config.cache.directory, "/home/u/.cache/whisper");

    let mut config = Config::default();
    config.merge_with_cli(
        CliOverrides { format: Some(" txt, srt ,,json ".to_string()), skip_existing: Some(false), ..Default::default() },
        None,
    );
    assert_eq!(config.output.formats, vec!["txt", "srt", "", "json"]);
    assert!(!config.output.skip_existing);
    assert_eq!(config.cache.directory, "~/.cache/whisper");

    let mut config = Config::default();
    config.merge_with_cli(CliOverrides::default(), None);
    assert_eq!(config.output.formats, vec!["txt"]);
    assert_eq!(config.model.name, "base");
}

#[test]
fn config_locations() {
    assert_eq!(Config::default_config_path(Some("/home/u")), Some("/home/u/.config/transcriber/config.yaml".to_string()));
    assert_eq!(Config::default_config_path(None), None);
    assert_eq!(Config::default_cache_dir(Some("/h/")), Some("/h/.cache/whisper".to_string()));
    assert_eq!(transcriber::config::config_file_location(Some("c.yaml"), Some("/h")), "c.yaml");
    assert_eq!(transcriber::config::config_file_location(None, None), "config.yaml");
    let mut c = Config::default();
    assert_eq!(c.resolve_cache_dir(Some("/h")), "/h/.cache/whisper");
    assert_eq!(c.resolve_cache_dir(None), "~/.cache/whisper");
    c.cache.directory = String::new();
    assert_eq!(c.resolve_cache_dir(Some("/h")), "/h/.cache/whisper");
    assert_eq!(c.resolve_cache_dir(None), "~/.cache/whisper");
    c.cache.directory = "/models".to_string();
    assert_eq!(c.resolve_cache_dir(Some("/h")), "/models");
}

#[test]
fn test_error_type_display() {
    let err = AppError::FfmpegNotFound;
    let display = err.message();
    assert!(display.contains("FFmpeg not found"));

    let err = AppError::Config { message: "test error".to_string(), field: Some("model".to_string()) };
    let display = err.message();
    assert!(display.contains("test error"));
    assert!(display.contains("model"));
}

#[test]
fn error_messages() {
    let e = AppError::Config { message: "m".to_string(), field: None };
    assert_eq!(e.message(), "Configuration error: m");
    let e = AppError::Config { message: "m".to_string(), field: Some("f".to_string()) };
    assert_eq!(e.message(), "Configuration error in 'f': m");
    let e = AppError::Transcription { message: "m".to_string(), segment: Some(12) };
    assert_eq!(e.message(), "Transcription error at segment 12: m");
    let e = AppError::Output { message: "m".to_string(), path: Some("/o/a\"b".to_string()) };
    assert_eq!(e.message(), "Output error for \"/o/a\\\"b\": m");
    let e = AppError::ModelDownload { model: "base".to_string(), url: "u".to_string(), status: Some(404) };
    assert_eq!(e.message(), "Failed to download model 'base' from u (HTTP 404)");
    let e = AppError::ModelDownload { model: "base".to_string(), url: "u".to_string(), status: None };
    assert_eq!(e.message(), "Failed to download model 'base' from u");
    let e = AppError::Model { message: "m".to_string(), model: "tiny".to_string() };
    assert_eq!(e.message(), "Model 'tiny' error: m");
    let e = AppError::Audio { message: "m".to_string(), source: Some("s".to_string()) };
    assert_eq!(e.message(), "Audio extraction error (s): m");
    let e: AppError = std::io::Error::new(std::io::ErrorKind::Other, "disk gone").into();
    assert_eq!(e.message(), "I/O error: disk gone");
    assert_eq!(
        AppError::FfmpegNotFound.message(),
        "FFmpeg not found. Please install FFmpeg:\n  macOS: brew install ffmpeg\n  Ubuntu: sudo apt install ffmpeg\n  Or ensure ffmpeg is in your PATH."
    );
}

#[test]
fn init_target() {
    assert_eq!(init_config_path(Some("./c.yaml"), Some("/h")).unwrap(), "./c.yaml");
    assert_eq!(init_config_path(None, Some("/h")).unwrap(), "/h/.config/transcriber/config.yaml");
    match init_config_path(None, None) {
        Err(e) => assert_eq!(e.message(), "Configuration error: Cannot determine config directory. Use --path to specify."),
        Ok(_) => panic!("expected an error"),
    }
}

#[test]
fn validation_rejects_nan_settings() {
    let mut config = Config::default();
    config.inference.temperature = f32::NAN.to_bits();
    let errors = validate(&config);
    assert_eq!(errors.len(), 1);
    assert!(errors[0].contains("temperature"));

    let mut config = Config::default();
    config.inference.no_speech_threshold = (-f32::NAN).to_bits();
    let errors = validate(&config);
    assert_eq!(errors.len(), 1);
    assert!(errors[0].contains("no_speech_threshold"));
}

#[test]
fn error_messages_show_their_payloads() {
    let e = AppError::ModelDownload {
        model: "base".to_string(),
        url: "https://example.org/m.bin".to_string(),
        status: Some(404),
    };
    assert_eq!(e.message(), "Failed to download model 'base' from https://example.org/m.bin (HTTP 404)");
    let e = AppError::Transcription { message: "decoder failed".to_string(), segment: Some(12) };
    let m = e.message();
    assert!(m.contains("12") && m.contains("decoder failed"));
    let e = AppError::Config { message: "bad".to_string(), field: None };
    assert_eq!(e.message(), "Configuration error: bad");
}
