//! The error type of the library.

use crate::paths::path_text;
use std::path::PathBuf;
use vstd::prelude::*;
use vstd::std_specs::convert::FromSpecImpl;

verus! {

/// `std::io::Error`, which is opaque here.
#[verifier::external_type_specification]
#[verifier::external_body]
pub struct ExIoError(std::io::Error);

/// All errors that can occur in the library.
#[derive(Debug)]
pub enum Error {
    /// The model file could not be used.
    Model(String),
    /// A custom model path names no existing file.
    ModelNotFound { path: PathBuf },
    /// Fetching a model from the artifact host failed or was refused.
    ModelDownload(String),
    /// The decoder is missing, failed, or produced nothing.
    AudioDecode(String),
    /// The audio file to transcribe does not exist.
    AudioNotFound { path: PathBuf },
    /// The language is not one the engine knows.
    UnsupportedLanguage(String),
    /// An option has a value outside its range.
    InvalidOption(String),
    /// The engine's output could not be turned into a transcript.
    Transcription(String),
    /// The inference engine reported a failure; the text is its message.
    Whisper(String),
    /// Fetching audio from a URL failed or was refused.
    Download(String),
    /// The downloader program is not installed.
    YtDlpNotFound,
    /// An input or output operation failed.
    Io(std::io::Error),
    /// An HTTP request failed; the text is the client's message.
    Http(String),
    /// JSON could not be written or read; the text is the encoder's message.
    Json(String),
}

/// `Display` of `std::io::Error`: the text of the error, which for an
/// operating-system error depends on the platform.
#[verifier::external_body]
fn io_error_text(e: &std::io::Error) -> (text: String) {
    format!("{e}")
}

/// `Path::display`, rendered: the text of the path with invalid UTF-8 replaced.
#[verifier::external_body]
pub(crate) fn path_display(path: &PathBuf) -> (text: String)
    ensures
        text@ == path_text(*path),
{
    format!("{}", path.display())
}

/// `prefix` followed by `detail`.
pub(crate) fn prefixed(prefix: &str, detail: &str) -> (text: String)
    ensures
        text@ == prefix@ + detail@,
{
    let mut text = String::from_str(prefix);
    text.append(detail);
    text
}

impl Error {
    /// Whether the message of this error is fixed by its fields alone.
    pub open spec fn has_fixed_message(&self) -> bool {
        !(self is Io)
    }

    /// The words that open the message of this error.
    pub open spec fn message_prefix(&self) -> Seq<char> {
        match self {
            Error::Model(_) => "model error: "@,
            Error::ModelNotFound { .. } => "model not found: "@,
            Error::ModelDownload(_) => "model download failed: "@,
            Error::AudioDecode(_) => "audio decoding error: "@,
            Error::AudioNotFound { .. } => "audio file not found: "@,
            Error::UnsupportedLanguage(_) => "unsupported language: \""@,
            Error::InvalidOption(_) => "invalid option: "@,
            Error::Transcription(_) => "transcription error: "@,
            Error::Whisper(_) => "whisper error: "@,
            Error::Download(_) => "download error: "@,
            Error::YtDlpNotFound => "yt-dlp not found — install with: pip install yt-dlp"@,
            Error::Io(_) => "I/O error: "@,
            Error::Http(_) => "HTTP error: "@,
            Error::Json(_) => "JSON error: "@,
        }
    }

    /// What follows the opening words, where the fields fix it.
    pub open spec fn message_detail(&self) -> Seq<char> {
        match self {
            Error::Model(m) => m@,
            Error::ModelNotFound { path } => path_text(*path),
            Error::ModelDownload(m) => m@,
            Error::AudioDecode(m) => m@,
            Error::AudioNotFound { path } => path_text(*path),
            Error::UnsupportedLanguage(lang) => lang@
                + "\" — use Language::supported() to list valid codes"@,
            Error::InvalidOption(m) => m@,
            Error::Transcription(m) => m@,
            Error::Whisper(m) => m@,
            Error::Download(m) => m@,
            Error::YtDlpNotFound => Seq::empty(),
            Error::Io(_) => Seq::empty(),
            Error::Http(m) => m@,
            Error::Json(m) => m@,
        }
    }

    /// The message of this error, as it is shown to the operator.
    ///
    /// For an I/O error the text after the opening words is that error's own.
    pub fn to_string(&self) -> (text: String)
        ensures
            self.message_prefix().is_prefix_of(text@),
            self.has_fixed_message() ==> text@ == self.message_prefix() + self.message_detail(),
    {
        let text = match self {
            Error::Model(m) => prefixed("model error: ", m.as_str()),
            Error::ModelNotFound { path } => {
                let shown = path_display(path);
                prefixed("model not found: ", shown.as_str())
            },
            Error::ModelDownload(m) => prefixed("model download failed: ", m.as_str()),
            Error::AudioDecode(m) => prefixed("audio decoding error: ", m.as_str()),
            Error::AudioNotFound { path } => {
                let shown = path_display(path);
                prefixed("audio file not found: ", shown.as_str())
            },
            Error::UnsupportedLanguage(lang) => {
                let mut t = prefixed("unsupported language: \"", lang.as_str());
                t.append("\" — use Language::supported() to list valid codes");
                t
            },
            Error::InvalidOption(m) => prefixed("invalid option: ", m.as_str()),
            Error::Transcription(m) => prefixed("transcription error: ", m.as_str()),
            Error::Whisper(m) => prefixed("whisper error: ", m.as_str()),
            Error::Download(m) => prefixed("download error: ", m.as_str()),
            Error::YtDlpNotFound => prefixed(
                "yt-dlp not found — install with: pip install yt-dlp",
                "",
            ),
            Error::Io(e) => {
                let inner = io_error_text(e);
                prefixed("I/O error: ", inner.as_str())
            },
            Error::Http(m) => prefixed("HTTP error: ", m.as_str()),
            Error::Json(m) => prefixed("JSON error: ", m.as_str()),
        };
        proof {
            if self is YtDlpNotFound {
                reveal_strlit("");
            }
        }
        text
    }
}

impl From<std::io::Error> for Error {
    fn from(e: std::io::Error) -> (r: Error) {
        Error::Io(e)
    }
}

impl FromSpecImpl<std::io::Error> for Error {
    open spec fn obeys_from_spec() -> bool {
        true
    }

    open spec fn from_spec(e: std::io::Error) -> Error {
        Error::Io(e)
    }
}

} // verus!
