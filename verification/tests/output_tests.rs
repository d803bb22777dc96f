use transcriber::output::{
    append_segment_to_streams, finalize_stream_outputs, format_timestamp_srt, get_format_writer,
    open_stream_outputs, output_file_path, stream_header, FormatWriter, JsonFormat, Segment, SrtFormat,
    Transcript, TxtFormat,
};

/// Seconds as the whole milliseconds that the renderings read, converted as
/// the program converts the recognizer's times.
fn ms(seconds: f64) -> u64 {
    (seconds * 1000.0) as u64
}

fn sample_transcript() -> Transcript {
    Transcript {
        file: "test.mp4".to_string(),
        model: "base".to_string(),
        language: "zh".to_string(),
        segments: vec![
            Segment {
                start_ms: ms(0.0),
                end_ms: ms(3.5),
                text: "This is the first segment of recognized text.".to_string(),
                words: vec![],
            },
            Segment {
                start_ms: ms(3.5),
                end_ms: ms(7.2),
                text: "This is the second segment of recognized text.".to_string(),
                words: vec![],
            },
        ],
    }
}

#[test]
fn test_txt_format() {
    let transcript = sample_transcript();
    let formatter = TxtFormat;
    let output = formatter.write(&transcript).unwrap();
    assert_eq!(output, "This is the first segment of recognized text.\nThis is the second segment of recognized text.\n");
}

#[test]
fn test_srt_format() {
    let transcript = sample_transcript();
    let formatter = SrtFormat;
    let output = formatter.write(&transcript).unwrap();
    assert!(output.contains("00:00:00,000 --> 00:00:03,500"));
    assert!(output.contains("00:00:03,500 --> 00:00:07,200"));
    assert!(output.contains("1\n"));
    assert!(output.contains("2\n"));
}

#[test]
fn srt_format_whole_text() {
    let output = SrtFormat.write(&sample_transcript()).unwrap();
    assert_eq!(
        output,
        "1\n00:00:00,000 --> 00:00:03,500\nThis is the first segment of recognized text.\n\n\
         2\n00:00:03,500 --> 00:00:07,200\nThis is the second segment of recognized text.\n\n"
    );
}

#[test]
fn empty_transcript_renders_empty() {
    let mut t = sample_transcript();
    t.segments.clear();
    assert_eq!(TxtFormat.write(&t).unwrap(), "");
    assert_eq!(SrtFormat.write(&t).unwrap(), "");
}

#[test]
fn test_format_timestamp_srt() {
    assert_eq!(format_timestamp_srt(ms(0.0)), "00:00:00,000");
    assert_eq!(format_timestamp_srt(ms(3.5)), "00:00:03,500");
    assert_eq!(format_timestamp_srt(ms(125.0)), "00:02:05,000");
    assert_eq!(format_timestamp_srt(ms(3600.0)), "01:00:00,000");
}

#[test]
fn timestamp_fields_and_long_hours() {
    assert_eq!(format_timestamp_srt(3_723_456), "01:02:03,456");
    assert_eq!(format_timestamp_srt(999), "00:00:00,999");
    assert_eq!(format_timestamp_srt(100 * 3_600_000 + 1), "100:00:00,001");
    assert_eq!(format_timestamp_srt(u64::MAX), "5124095576030:25:51,615");
}

#[test]
fn test_output_file_path() {
    let path = output_file_path("video", "srt", "/out");
    assert_eq!(path, "/out/video.transcript.srt");
}

#[test]
fn test_get_format_writer() {
    assert!(get_format_writer("txt").is_some());
    assert!(get_format_writer("srt").is_some());
    assert!(get_format_writer("json").is_some());
    assert!(get_format_writer("invalid").is_none());
}

#[test]
fn format_writer_extensions_match_names() {
    for name in ["txt", "srt", "json"] {
        let w = get_format_writer(name).unwrap();
        assert_eq!(w.extension(), name);
    }
    assert!(matches!(get_format_writer("txt"), Some(FormatWriter::Txt(_))));
    assert!(matches!(get_format_writer("json"), Some(FormatWriter::Json(_))));
    assert_eq!(JsonFormat.extension(), "json");
    assert!(get_format_writer("TXT").is_none());
}

fn segment_json(s: &Segment) -> String {
    format!(
        "{{\"start\":{},\"end\":{},\"text\":\"{}\",\"words\":[]}}",
        s.start_ms as f64 / 1000.0,
        s.end_ms as f64 / 1000.0,
        s.text
    )
}

#[test]
fn test_streaming_writes_progressively() {
    let formats = vec!["txt".to_string(), "json".to_string()];
    let mut streams = open_stream_outputs("test", &formats, "/tmp/transcriber-test-streaming");
    assert_eq!(streams[0].path, "/tmp/transcriber-test-streaming/test.transcript.txt");
    assert_eq!(streams[1].path, "/tmp/transcriber-test-streaming/test.transcript.json");
    let mut contents: Vec<String> = streams.iter().map(|s| stream_header(&s.format)).collect();

    let seg1 = Segment { start_ms: ms(0.0), end_ms: ms(2.0), text: "Hello world".to_string(), words: vec![] };
    let chunks = append_segment_to_streams(&mut streams, &seg1, &segment_json(&seg1));
    for (c, chunk) in contents.iter_mut().zip(chunks) {
        c.push_str(&chunk);
    }
    assert_eq!(contents[0], "Hello world\n", "TXT should have first segment after flush");
    assert!(contents[1].starts_with("["), "JSON should start with array open");
    assert!(contents[1].contains("Hello world"), "JSON should contain first segment");

    let seg2 = Segment { start_ms: ms(2.0), end_ms: ms(5.0), text: "Second segment".to_string(), words: vec![] };
    let chunks = append_segment_to_streams(&mut streams, &seg2, &segment_json(&seg2));
    for (c, chunk) in contents.iter_mut().zip(chunks) {
        c.push_str(&chunk);
    }
    assert_eq!(contents[0], "Hello world\nSecond segment\n", "TXT should have both segments");
    assert!(contents[1].contains("Second segment"), "JSON should contain second segment");
    assert_eq!(streams[0].segment_count, 2);
    assert_eq!(streams[1].segment_count, 2);

    let footers = finalize_stream_outputs(streams);
    for (c, f) in contents.iter_mut().zip(footers) {
        c.push_str(&f);
    }
    assert!(contents[1].ends_with("\n]\n"), "JSON should end with array close, got: {:?}", contents[1].chars().last());
    assert_eq!(
        contents[1],
        "[\n  {\"start\":0,\"end\":2,\"text\":\"Hello world\",\"words\":[]},\n  {\"start\":2,\"end\":5,\"text\":\"Second segment\",\"words\":[]}\n]\n"
    );
}

#[test]
fn streaming_srt_matches_batch() {
    let t = sample_transcript();
    let formats = vec!["srt".to_string()];
    let mut streams = open_stream_outputs("x", &formats, "o");
    let mut text = stream_header("srt");
    for s in &t.segments {
        for chunk in append_segment_to_streams(&mut streams, s, "") {
            text.push_str(&chunk);
        }
    }
    for f in finalize_stream_outputs(streams) {
        text.push_str(&f);
    }
    assert_eq!(text, SrtFormat.write(&t).unwrap());
}
