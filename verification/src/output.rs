//! Transcript renderings: plain text and SubRip subtitles, output file
//! names, and the text that streaming output appends segment by segment.
//!
//! Times are held in whole milliseconds; the conversion from the
//! floating-point seconds of the recognizer happens before the library.

use vstd::prelude::*;
use crate::error::AppError;
use crate::paths::{joined_path, path_join};
use crate::text::{decimal, decimal_string, join2, join3, padded_decimal, text_eq, zero_pad};

verus! {

/// Word-level timestamp.
#[derive(Debug, Clone)]
pub struct Word {
    pub word: String,
    pub start_ms: u64,
    pub end_ms: u64,
}

/// One recognized stretch of speech.
#[derive(Debug, Clone)]
pub struct Segment {
    pub start_ms: u64,
    pub end_ms: u64,
    pub text: String,
    pub words: Vec<Word>,
}

/// A transcript as the text renderings read it.
#[derive(Debug, Clone)]
pub struct Transcript {
    pub file: String,
    pub model: String,
    pub language: String,
    pub segments: Vec<Segment>,
}

/// `HH:MM:SS,mmm` for a time of `ms` milliseconds; the hours take more
/// digits when there are more than 99 of them.
pub open spec fn srt_timestamp(ms: nat) -> Seq<char> {
    zero_pad(decimal(ms / 3_600_000), 2) + ":"@ + zero_pad(decimal((ms % 3_600_000) / 60_000), 2) + ":"@
        + zero_pad(decimal((ms % 60_000) / 1000), 2) + ","@ + zero_pad(decimal(ms % 1000), 3)
}

/// Converts milliseconds to an SRT timestamp (`HH:MM:SS,mmm`).
pub fn format_timestamp_srt(total_ms: u64) -> (r: String)
    ensures
        r@ == srt_timestamp(total_ms as nat),
{
    let hours = total_ms / 3_600_000;
    let minutes = (total_ms % 3_600_000) / 60_000;
    let secs = (total_ms % 60_000) / 1000;
    let millis = total_ms % 1000;
    let h = padded_decimal(hours, 2);
    let m = padded_decimal(minutes, 2);
    let s = padded_decimal(secs, 2);
    let f = padded_decimal(millis, 3);
    let mut out = join3(h.as_str(), ":", m.as_str());
    out.append(":");
    out.append(s.as_str());
    out.append(",");
    out.append(f.as_str());
    out
}

/// A timestamp takes the time apart exactly: its four fields are in range
/// and add back up to the time.
pub proof fn lemma_srt_timestamp_fields(ms: nat)
    ensures
        ms % 1000 < 1000,
        (ms % 60_000) / 1000 < 60,
        (ms % 3_600_000) / 60_000 < 60,
        (ms / 3_600_000) * 3_600_000 + ((ms % 3_600_000) / 60_000) * 60_000 + ((ms % 60_000) / 1000) * 1000
            + ms % 1000 == ms,
{
    assert((ms / 3_600_000) * 3_600_000 + ((ms % 3_600_000) / 60_000) * 60_000 + ((ms % 60_000) / 1000) * 1000
        + ms % 1000 == ms) by (nonlinear_arith);
    assert((ms % 60_000) / 1000 < 60) by (nonlinear_arith);
    assert((ms % 3_600_000) / 60_000 < 60) by (nonlinear_arith);
}

/// One line of the text rendering.
pub open spec fn txt_block(text: Seq<char>) -> Seq<char> {
    text + "\n"@
}

/// One subtitle block: its number, its time range and its text.
pub open spec fn srt_block(index: nat, start_ms: nat, end_ms: nat, text: Seq<char>) -> Seq<char> {
    decimal(index) + "\n"@ + srt_timestamp(start_ms) + " --> "@ + srt_timestamp(end_ms) + "\n"@ + text + "\n\n"@
}

/// The text rendering: each segment's text on a line of its own.
pub open spec fn txt_render(segments: Seq<Segment>) -> Seq<char>
    decreases segments.len(),
{
    if segments.len() == 0 {
        Seq::empty()
    } else {
        txt_render(segments.drop_last()) + txt_block(segments.last().text@)
    }
}

/// The SubRip rendering: one block per segment, numbered from 1.
pub open spec fn srt_render(segments: Seq<Segment>) -> Seq<char>
    decreases segments.len(),
{
    if segments.len() == 0 {
        Seq::empty()
    } else {
        let s = segments.last();
        srt_render(segments.drop_last()) + srt_block(segments.len(), s.start_ms as nat, s.end_ms as nat, s.text@)
    }
}

fn srt_block_text(index: u64, start_ms: u64, end_ms: u64, text: &str) -> (r: String)
    ensures
        r@ == srt_block(index as nat, start_ms as nat, end_ms as nat, text@),
{
    let n = decimal_string(index);
    let a = format_timestamp_srt(start_ms);
    let b = format_timestamp_srt(end_ms);
    let mut out = join3(n.as_str(), "\n", a.as_str());
    out.append(" --> ");
    out.append(b.as_str());
    out.append("\n");
    out.append(text);
    out.append("\n\n");
    out
}

/// TXT format: one line of text per segment.
pub struct TxtFormat;

/// SRT format: subtitle index, time range and text per segment.
pub struct SrtFormat;

/// JSON format: the whole transcript with metadata and word timings,
/// serialized outside the library.
pub struct JsonFormat;

impl TxtFormat {
    pub fn extension(&self) -> (r: &'static str)
        ensures
            r@ == "txt"@,
    {
        "txt"
    }

    /// Renders `transcript` as plain text.
    pub fn write(&self, transcript: &Transcript) -> (r: Result<String, AppError>)
        ensures
            r matches Ok(s) && s@ == txt_render(transcript.segments@),
    {
        let segments = &transcript.segments;
        let mut output = String::new();
        let mut i: usize = 0;
        while i < segments.len()
            invariant
                i <= segments.len(),
                output@ == txt_render(segments@.take(i as int)),
            decreases segments.len() - i,
        {
            assert(segments@.take(i + 1).drop_last() =~= segments@.take(i as int));
            output.append(segments[i].text.as_str());
            output.append("\n");
            i = i + 1;
        }
        assert(segments@.take(segments.len() as int) =~= segments@);
        Ok(output)
    }
}

impl SrtFormat {
    pub fn extension(&self) -> (r: &'static str)
        ensures
            r@ == "srt"@,
    {
        "srt"
    }

    /// Renders `transcript` as SubRip subtitles.
    pub fn write(&self, transcript: &Transcript) -> (r: Result<String, AppError>)
        ensures
            r matches Ok(s) && s@ == srt_render(transcript.segments@),
    {
        let segments = &transcript.segments;
        let mut output = String::new();
        let mut i: usize = 0;
        while i < segments.len()
            invariant
                i <= segments.len(),
                output@ == srt_render(segments@.take(i as int)),
            decreases segments.len() - i,
        {
            assert(segments@.take(i + 1).drop_last() =~= segments@.take(i as int));
            let seg = &segments[i];
            let block = srt_block_text((i as u64) + 1, seg.start_ms, seg.end_ms, seg.text.as_str());
            output.append(block.as_str());
            i = i + 1;
        }
        assert(segments@.take(segments.len() as int) =~= segments@);
        Ok(output)
    }
}

impl JsonFormat {
    pub fn extension(&self) -> (r: &'static str)
        ensures
            r@ == "json"@,
    {
        "json"
    }
}

/// An output format, chosen by name.
pub enum FormatWriter {
    Txt(TxtFormat),
    Srt(SrtFormat),
    Json(JsonFormat),
}

impl FormatWriter {
    /// The file extension, which is also the format's name.
    pub open spec fn spec_extension(&self) -> Seq<char> {
        match self {
            FormatWriter::Txt(_) => "txt"@,
            FormatWriter::Srt(_) => "srt"@,
            FormatWriter::Json(_) => "json"@,
        }
    }

    pub fn extension(&self) -> (r: &'static str)
        ensures
            r@ == self.spec_extension(),
    {
        match self {
            FormatWriter::Txt(f) => f.extension(),
            FormatWriter::Srt(f) => f.extension(),
            FormatWriter::Json(f) => f.extension(),
        }
    }
}

/// The format named `format`, if there is one.
pub open spec fn format_named(format: Seq<char>) -> Option<FormatWriter> {
    if format == "txt"@ {
        Some(FormatWriter::Txt(TxtFormat))
    } else if format == "srt"@ {
        Some(FormatWriter::Srt(SrtFormat))
    } else if format == "json"@ {
        Some(FormatWriter::Json(JsonFormat))
    } else {
        None
    }
}

/// The writer of the format named `format`; `None` for an unknown name.
pub fn get_format_writer(format: &str) -> (r: Option<FormatWriter>)
    ensures
        r == format_named(format@),
{
    if text_eq(format, "txt") {
        Some(FormatWriter::Txt(TxtFormat))
    } else if text_eq(format, "srt") {
        Some(FormatWriter::Srt(SrtFormat))
    } else if text_eq(format, "json") {
        Some(FormatWriter::Json(JsonFormat))
    } else {
        None
    }
}

/// Looking a format up by name and asking it for its extension gives the
/// name back; exactly `txt`, `srt` and `json` are known.
pub proof fn lemma_format_names_round_trip(format: Seq<char>)
    ensures
        format_named(format) matches Some(w) ==> w.spec_extension() == format,
        format_named(format) is Some <==> (format == "txt"@ || format == "srt"@ || format == "json"@),
{
}

/// The name of a transcript file: `<stem>.transcript.<format>`.
pub open spec fn transcript_file_name(stem: Seq<char>, format: Seq<char>) -> Seq<char> {
    stem + ".transcript."@ + format
}

/// The path of the `format` transcript of the input named `stem`, inside
/// `output_dir`.
pub fn output_file_path(stem: &str, format: &str, output_dir: &str) -> (r: String)
    ensures
        r@ == joined_path(output_dir@, transcript_file_name(stem@, format@)),
{
    let filename = join3(stem, ".transcript.", format);
    path_join(output_dir, filename.as_str())
}

/// An output file that receives a transcript segment by segment; the file
/// itself is held by the caller, which writes the texts these functions
/// return.
#[derive(Debug)]
pub struct StreamOutput {
    pub path: String,
    pub format: String,
    pub segment_count: usize,
}

/// The formats that can be streamed.
pub open spec fn is_stream_format(format: Seq<char>) -> bool {
    format == "txt"@ || format == "srt"@ || format == "json"@
}

/// What a stream file starts with: `[` on a line of its own for JSON.
pub open spec fn stream_header_text(format: Seq<char>) -> Seq<char> {
    if format == "json"@ {
        "[\n"@
    } else {
        Seq::empty()
    }
}

/// What a stream file ends with: `]` on a line of its own for JSON.
pub open spec fn stream_footer_text(format: Seq<char>) -> Seq<char> {
    if format == "json"@ {
        "\n]\n"@
    } else {
        Seq::empty()
    }
}

/// What one segment adds to a stream of `format` that already holds
/// `count` segments; `json` is the segment serialized as JSON.
pub open spec fn stream_chunk(
    format: Seq<char>,
    count: nat,
    start_ms: nat,
    end_ms: nat,
    text: Seq<char>,
    json: Seq<char>,
) -> Seq<char> {
    if format == "txt"@ {
        txt_block(text)
    } else if format == "srt"@ {
        srt_block(count + 1, start_ms, end_ms, text)
    } else if count > 0 {
        ",\n  "@ + json
    } else {
        "  "@ + json
    }
}

/// Opens one stream per format, each at its transcript path and empty.
pub fn open_stream_outputs(stem: &str, formats: &Vec<String>, output_dir: &str) -> (r: Vec<StreamOutput>)
    ensures
        r@.len() == formats@.len(),
        forall|i: int|
            #![trigger r@[i]]
            0 <= i < r@.len() ==> {
                &&& r@[i].path@ == joined_path(output_dir@, transcript_file_name(stem@, formats@[i]@))
                &&& r@[i].format@ == formats@[i]@
                &&& r@[i].segment_count == 0
            },
{
    let mut streams: Vec<StreamOutput> = Vec::new();
    let mut i: usize = 0;
    while i < formats.len()
        invariant
            i <= formats@.len(),
            streams@.len() == i,
            forall|k: int|
                #![trigger streams@[k]]
                0 <= k < i ==> {
                    &&& streams@[k].path@ == joined_path(output_dir@, transcript_file_name(stem@, formats@[k]@))
                    &&& streams@[k].format@ == formats@[k]@
                    &&& streams@[k].segment_count == 0
                },
        decreases formats@.len() - i,
    {
        let fmt = formats[i].as_str();
        let path = output_file_path(stem, fmt, output_dir);
        streams.push(StreamOutput { path, format: fmt.to_string(), segment_count: 0 });
        i = i + 1;
    }
    streams
}

/// The text a stream of `format` starts with.
pub fn stream_header(format: &str) -> (r: String)
    ensures
        r@ == stream_header_text(format@),
{
    if text_eq(format, "json") {
        proof { reveal_strlit("[\n"); }
        "[\n".to_string()
    } else {
        String::new()
    }
}

/// The text a stream of `format` ends with.
pub fn stream_footer(format: &str) -> (r: String)
    ensures
        r@ == stream_footer_text(format@),
{
    if text_eq(format, "json") {
        proof { reveal_strlit("\n]\n"); }
        "\n]\n".to_string()
    } else {
        String::new()
    }
}

fn stream_chunk_text(format: &str, count: usize, start_ms: u64, end_ms: u64, text: &str, json: &str) -> (r: String)
    requires
        is_stream_format(format@),
        count < usize::MAX,
    ensures
        r@ == stream_chunk(format@, count as nat, start_ms as nat, end_ms as nat, text@, json@),
{
    if text_eq(format, "txt") {
        join2(text, "\n")
    } else if text_eq(format, "srt") {
        srt_block_text((count as u64) + 1, start_ms, end_ms, text)
    } else if count > 0 {
        join2(",\n  ", json)
    } else {
        join2("  ", json)
    }
}

/// The streams that can take one more segment: each has a known format
/// and room in its counter.
pub open spec fn streams_ready(streams: Seq<StreamOutput>) -> bool {
    forall|i: int|
        0 <= i < streams.len() ==> is_stream_format(#[trigger] streams[i].format@) && streams[i].segment_count
            < usize::MAX
}

/// Appends one segment, given by its times, text and JSON serialization,
/// to every stream: returns what to write to each, in order, and counts
/// the segment in each.
pub fn write_stream_callback_segment(
    streams: &mut Vec<StreamOutput>,
    start_ms: u64,
    end_ms: u64,
    text: &str,
    segment_json: &str,
) -> (r: Vec<String>)
    requires
        streams_ready(old(streams)@),
    ensures
        final(streams)@.len() == old(streams)@.len(),
        r@.len() == old(streams)@.len(),
        forall|i: int|
            0 <= i < r@.len() ==> #[trigger] r@[i]@ == stream_chunk(
                old(streams)@[i].format@,
                old(streams)@[i].segment_count as nat,
                start_ms as nat,
                end_ms as nat,
                text@,
                segment_json@,
            ),
        forall|i: int|
            #![trigger final(streams)@[i]]
            0 <= i < final(streams)@.len() ==> {
                &&& final(streams)@[i].path == old(streams)@[i].path
                &&& final(streams)@[i].format == old(streams)@[i].format
                &&& final(streams)@[i].segment_count == old(streams)@[i].segment_count + 1
            },
{
    let mut chunks: Vec<String> = Vec::new();
    let mut next: Vec<StreamOutput> = Vec::new();
    let mut i: usize = 0;
    while i < streams.len()
        invariant
            streams@ == old(streams)@,
            streams_ready(old(streams)@),
            i <= streams@.len(),
            chunks@.len() == i,
            next@.len() == i,
            forall|k: int|
                0 <= k < i ==> #[trigger] chunks@[k]@ == stream_chunk(
                    old(streams)@[k].format@,
                    old(streams)@[k].segment_count as nat,
                    start_ms as nat,
                    end_ms as nat,
                    text@,
                    segment_json@,
                ),
            forall|k: int|
                #![trigger next@[k]]
                0 <= k < i ==> {
                    &&& next@[k].path == old(streams)@[k].path
                    &&& next@[k].format == old(streams)@[k].format
                    &&& next@[k].segment_count == old(streams)@[k].segment_count + 1
                },
        decreases streams@.len() - i,
    {
        let s = &streams[i];
        assert(is_stream_format(old(streams)@[i as int].format@));
        let chunk = stream_chunk_text(s.format.as_str(), s.segment_count, start_ms, end_ms, text, segment_json);
        chunks.push(chunk);
        next.push(StreamOutput { path: s.path.clone(), format: s.format.clone(), segment_count: s.segment_count + 1 });
        i = i + 1;
    }
    *streams = next;
    chunks
}

/// Appends one transcribed segment to every stream: returns what to write
/// to each, in order, and counts the segment in each. `segment_json` is
/// the segment serialized as JSON.
pub fn append_segment_to_streams(streams: &mut Vec<StreamOutput>, segment: &Segment, segment_json: &str) -> (r: Vec<String>)
    requires
        streams_ready(old(streams)@),
    ensures
        final(streams)@.len() == old(streams)@.len(),
        r@.len() == old(streams)@.len(),
        forall|i: int|
            0 <= i < r@.len() ==> #[trigger] r@[i]@ == stream_chunk(
                old(streams)@[i].format@,
                old(streams)@[i].segment_count as nat,
                segment.start_ms as nat,
                segment.end_ms as nat,
                segment.text@,
                segment_json@,
            ),
        forall|i: int|
            #![trigger final(streams)@[i]]
            0 <= i < final(streams)@.len() ==> {
                &&& final(streams)@[i].path == old(streams)@[i].path
                &&& final(streams)@[i].format == old(streams)@[i].format
                &&& final(streams)@[i].segment_count == old(streams)@[i].segment_count + 1
            },
{
    write_stream_callback_segment(streams, segment.start_ms, segment.end_ms, segment.text.as_str(), segment_json)
}

/// Closes every stream: returns what to write at the end of each, in order.
pub fn finalize_stream_outputs(streams: Vec<StreamOutput>) -> (r: Vec<String>)
    ensures
        r@.len() == streams@.len(),
        forall|i: int| 0 <= i < r@.len() ==> #[trigger] r@[i]@ == stream_footer_text(streams@[i].format@),
{
    let mut footers: Vec<String> = Vec::new();
    let mut i: usize = 0;
    while i < streams.len()
        invariant
            i <= streams@.len(),
            footers@.len() == i,
            forall|k: int| 0 <= k < i ==> #[trigger] footers@[k]@ == stream_footer_text(streams@[k].format@),
        decreases streams@.len() - i,
    {
        footers.push(stream_footer(streams[i].format.as_str()));
        i = i + 1;
    }
    footers
}

/// What a stream of `format` holds after `segments` went into it in order,
/// without its header and footer; `jsons` are their JSON serializations.
pub open spec fn streamed_body(format: Seq<char>, segments: Seq<Segment>, jsons: Seq<Seq<char>>) -> Seq<char>
    decreases segments.len(),
{
    if segments.len() == 0 {
        Seq::empty()
    } else {
        let s = segments.last();
        streamed_body(format, segments.drop_last(), jsons.drop_last()) + stream_chunk(
            format,
            (segments.len() - 1) as nat,
            s.start_ms as nat,
            s.end_ms as nat,
            s.text@,
            jsons.last(),
        )
    }
}

/// Appending a segment extends a stream by exactly the text that
/// `append_segment_to_streams` returns for it: a stream that holds the body
/// of `segments` (and so counts `segments.len()` of them) holds, after one
/// more segment, the body of all of them.
pub proof fn lemma_stream_step(
    format: Seq<char>,
    segments: Seq<Segment>,
    jsons: Seq<Seq<char>>,
    segment: Segment,
    json: Seq<char>,
)
    requires
        jsons.len() == segments.len(),
    ensures
        streamed_body(format, segments.push(segment), jsons.push(json)) == streamed_body(format, segments, jsons)
            + stream_chunk(
            format,
            segments.len(),
            segment.start_ms as nat,
            segment.end_ms as nat,
            segment.text@,
            json,
        ),
{
    assert(segments.push(segment).drop_last() =~= segments);
    assert(jsons.push(json).drop_last() =~= jsons);
}

/// The elements of a JSON array, each on a line of its own after two
/// spaces, separated by commas.
pub open spec fn json_array_items(items: Seq<Seq<char>>) -> Seq<char>
    decreases items.len(),
{
    if items.len() == 0 {
        Seq::empty()
    } else if items.len() == 1 {
        "  "@ + items[0]
    } else {
        json_array_items(items.drop_last()) + ",\n  "@ + items.last()
    }
}

/// Streaming writes what writing all at once writes: a finished text or
/// SubRip stream holds exactly the batch rendering of its segments, and a
/// finished JSON stream is the array of the segments' JSON texts.
pub proof fn lemma_streaming_matches_batch(segments: Seq<Segment>, jsons: Seq<Seq<char>>)
    requires
        jsons.len() == segments.len(),
    ensures
        stream_header_text("txt"@) + streamed_body("txt"@, segments, jsons) + stream_footer_text("txt"@)
            == txt_render(segments),
        stream_header_text("srt"@) + streamed_body("srt"@, segments, jsons) + stream_footer_text("srt"@)
            == srt_render(segments),
        stream_header_text("json"@) + streamed_body("json"@, segments, jsons) + stream_footer_text("json"@)
            == "[\n"@ + json_array_items(jsons) + "\n]\n"@,
    decreases segments.len(),
{
    reveal_strlit("txt");
    reveal_strlit("srt");
    reveal_strlit("json");
    assert("txt"@.len() == 3);
    assert("json"@.len() == 4);
    assert("srt"@[0] != "txt"@[0]);
    assert(stream_header_text("txt"@) == Seq::<char>::empty());
    if segments.len() == 0 {
        assert(streamed_body("txt"@, segments, jsons) =~= Seq::<char>::empty());
        assert(stream_header_text("txt"@) + streamed_body("txt"@, segments, jsons) + stream_footer_text("txt"@) =~= txt_render(segments));
        assert(stream_header_text("srt"@) + streamed_body("srt"@, segments, jsons) + stream_footer_text("srt"@) =~= srt_render(segments));
        assert(stream_header_text("json"@) + streamed_body("json"@, segments, jsons) + stream_footer_text("json"@) =~= "[\n"@ + json_array_items(jsons) + "\n]\n"@);
    } else {
        lemma_streaming_matches_batch(segments.drop_last(), jsons.drop_last());
        assert(stream_header_text("txt"@) + streamed_body("txt"@, segments, jsons) + stream_footer_text("txt"@) =~= txt_render(segments));
        assert(stream_header_text("srt"@) + streamed_body("srt"@, segments, jsons) + stream_footer_text("srt"@) =~= srt_render(segments));
        lemma_streamed_json(segments, jsons);
        assert(stream_header_text("json"@) + streamed_body("json"@, segments, jsons) + stream_footer_text("json"@) =~= "[\n"@ + json_array_items(jsons) + "\n]\n"@);
    }
}

proof fn lemma_streamed_json(segments: Seq<Segment>, jsons: Seq<Seq<char>>)
    requires
        jsons.len() == segments.len(),
    ensures
        streamed_body("json"@, segments, jsons) == json_array_items(jsons),
    decreases segments.len(),
{
    reveal_strlit("txt");
    reveal_strlit("srt");
    reveal_strlit("json");
    assert("txt"@.len() == 3);
    assert("srt"@.len() == 3);
    assert("json"@.len() == 4);
    if segments.len() == 0 {
        assert(streamed_body("json"@, segments, jsons) =~= json_array_items(jsons));
    } else if segments.len() == 1 {
        assert(segments.drop_last().len() == 0);
        assert(streamed_body("json"@, segments.drop_last(), jsons.drop_last()) == Seq::<char>::empty());
        let s = segments.last();
        assert(stream_chunk("json"@, 0, s.start_ms as nat, s.end_ms as nat, s.text@, jsons.last()) == "  "@ + jsons.last());
        assert(jsons.last() == jsons[0]);
        assert(streamed_body("json"@, segments, jsons) =~= json_array_items(jsons));
    } else {
        lemma_streamed_json(segments.drop_last(), jsons.drop_last());
        assert(streamed_body("json"@, segments, jsons) =~= json_array_items(jsons));
    }
}

} // verus!
