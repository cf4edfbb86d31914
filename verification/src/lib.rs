//! Speech to timestamped transcripts: the decisions and the data model of
//! a transcription pipeline.
//!
//! The pipeline takes audio from a file or a URL, decodes it to 16 kHz mono
//! samples, fetches the model it needs into a cache, runs a speech
//! recognition engine over the samples and renders what the engine emitted
//! as text, SRT or WebVTT.
//!
//! This library runs no program, opens no file and makes no request. It
//! decides: the caller does what it is told and reports what happened.
//!
//! - [`config`]: languages, models and options.
//! - [`audio`]: the decoder's surroundings, and which part of a buffer
//!   silence trimming keeps.
//! - [`model`]: the model cache and the download protocol.
//! - [`download`]: audio from a URL, and the checks on what the downloader returns.
//! - [`transcribe`]: the engine's configuration, and the transcript of its output.
//! - [`types`]: the transcript and its renderings.
//! - [`pipeline`]: the order of the stages of a run.
//! - [`error`], [`paths`], [`text`]: what the others share.

pub mod audio;
pub mod config;
pub mod download;
pub mod error;
pub mod model;
pub mod paths;
pub mod pipeline;
pub mod text;
pub mod transcribe;
pub mod types;

pub use config::AudioProcessing;
pub use config::Language;
pub use config::Model;
pub use config::TranscribeOptions;
pub use error::Error;
pub use pipeline::transcribe;
pub use pipeline::transcribe_file;
pub use pipeline::transcribe_file_with_options;
pub use pipeline::transcribe_with_options;
pub use types::Segment;
pub use types::Transcript;
pub use types::Word;
