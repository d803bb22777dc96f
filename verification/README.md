# transcriber

A command-line tool that extracts the audio of video files with FFmpeg,
transcribes it with whisper.cpp, and writes TXT, SRT and JSON transcripts.

## Layout

- `src/` — the verified library (Verus):
  - `config.rs`: configuration sections and defaults, command-line
    overrides and their merge, default locations, validation;
  - `cli.rs`: the options of an invocation and the errors for a missing
    input file or directory;
  - `model.rs`: model catalogue, cache file names and paths, download URLs,
    download status and size checks;
  - `audio.rs`: which files are videos, FFmpeg description and arguments,
    judging an FFmpeg run, the sample-rate check;
  - `output.rs`: TXT and SRT rendering, SRT timestamps, output file names,
    and what streaming output appends segment by segment;
  - `transcription.rs`: output directories and plans, skip markers,
    recognizer thread count, transcript assembly, batch counting;
  - `error.rs`: the error type and its messages;
  - `paths.rs`, `text.rs`: path operations of std and text helpers.
- `app/` — the program around it: argument parsing, the YAML file, FFmpeg
  and model downloads, whisper, JSON output and file writing.
- `tests/` — tests of the library.

Floating-point settings are held in the library by their `f32` bit
pattern, and segment times in whole milliseconds; the program converts.
