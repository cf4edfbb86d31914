use std::path::PathBuf;

use transcriber::Error;

#[test]
fn test_error_display_model() {
    let e = Error::Model("bad model".into());
    assert_eq!(e.to_string(), "model error: bad model");
}

#[test]
fn test_error_display_model_not_found() {
    let e = Error::ModelNotFound {
        path: PathBuf::from("/tmp/model.bin"),
    };
    assert!(e.to_string().contains("/tmp/model.bin"));
}

#[test]
fn test_error_display_audio_not_found() {
    let e = Error::AudioNotFound {
        path: PathBuf::from("/tmp/audio.wav"),
    };
    assert!(e.to_string().contains("/tmp/audio.wav"));
}

#[test]
fn test_error_display_unsupported_language() {
    let e = Error::UnsupportedLanguage("klingon".into());
    let msg = e.to_string();
    assert!(msg.contains("klingon"));
    assert!(msg.contains("Language::supported()"));
}

#[test]
fn test_error_from_io() {
    let io_err = std::io::Error::new(std::io::ErrorKind::NotFound, "file not found");
    let e: Error = io_err.into();
    assert!(matches!(e, Error::Io(_)));
    assert!(e.to_string().contains("file not found"));
}

#[test]
fn test_error_from_json() {
    let json_err = serde_json::from_str::<String>("invalid json").unwrap_err();
    let e = Error::Json(json_err.to_string());
    assert!(matches!(e, Error::Json(_)));
    assert!(e.to_string().starts_with("JSON error: "));
}

#[test]
fn test_error_debug_impl() {
    let e = Error::AudioDecode("test error".into());
    let debug = format!("{:?}", e);
    assert!(debug.contains("AudioDecode"));
}

#[test]
fn error_messages_are_exact() {
    let cases: Vec<(Error, &str)> = vec![
        (Error::Model("m".into()), "model error: m"),
        (
            Error::ModelNotFound { path: PathBuf::from("/tmp/model.bin") },
            "model not found: /tmp/model.bin",
        ),
        (Error::ModelDownload("d".into()), "model download failed: d"),
        (Error::AudioDecode("a".into()), "audio decoding error: a"),
        (
            Error::AudioNotFound { path: PathBuf::from("/tmp/audio.wav") },
            "audio file not found: /tmp/audio.wav",
        ),
        (
            Error::UnsupportedLanguage("klingon".into()),
            "unsupported language: \"klingon\" — use Language::supported() to list valid codes",
        ),
        (Error::InvalidOption("o".into()), "invalid option: o"),
        (Error::Transcription("t".into()), "transcription error: t"),
        (Error::Whisper("w".into()), "whisper error: w"),
        (Error::Download("x".into()), "download error: x"),
        (Error::YtDlpNotFound, "yt-dlp not found — install with: pip install yt-dlp"),
        (Error::Http("h".into()), "HTTP error: h"),
        (Error::Json("j".into()), "JSON error: j"),
        (
            Error::Io(std::io::Error::new(std::io::ErrorKind::Other, "disk on fire")),
            "I/O error: disk on fire",
        ),
    ];
    for (error, message) in cases {
        assert_eq!(error.to_string(), message);
    }
}
