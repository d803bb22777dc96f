//! Verified core of a video transcription tool: configuration handling,
//! model cache paths, subtitle and text rendering, and output planning.

pub mod audio;
pub mod cli;
pub mod config;
pub mod error;
pub mod model;
pub mod output;
pub mod paths;
pub mod text;
pub mod transcription;
