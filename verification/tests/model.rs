use std::path::PathBuf;

use transcriber::model::cache_dir_failure;
use transcriber::model::download_model;
use transcriber::model::ensure_model;
use transcriber::model::http_status_failure;
use transcriber::model::list_cached_models;
use transcriber::model::model_path;
use transcriber::model::model_url;
use transcriber::model::step;
use transcriber::model::temp_path;
use transcriber::model::DownloadAction;
use transcriber::model::DownloadEvent;
use transcriber::model::DownloadState;
use transcriber::model::ModelPlan;
use transcriber::model::PartFileGuard;
use transcriber::model::Rejection;
use transcriber::model::MAX_MODEL_BYTES;
use transcriber::model::MIN_MODEL_BYTES;
use transcriber::Error;
use transcriber::Model;

#[test]
fn test_list_cached_models_empty_dir() {
    let models = list_cached_models(&Vec::new());
    assert!(models.is_empty());
}

#[test]
fn test_list_cached_models_nonexistent_dir() {
    // A directory that cannot be read has no entries to hand in.
    let listing: Vec<PathBuf> = match PathBuf::from("/nonexistent/path").read_dir() {
        Ok(entries) => entries.filter_map(|e| e.ok()).map(|e| e.path()).collect(),
        Err(_) => Vec::new(),
    };
    let models = list_cached_models(&listing);
    assert!(models.is_empty());
}

#[test]
fn test_list_cached_models_finds_bin_files() {
    let dir = PathBuf::from("/tmp/transcriber_test_list_cache");
    let entries = vec![
        dir.join("ggml-tiny.bin"),
        dir.join("ggml-base.bin"),
        dir.join("ggml-tiny.bin.part"), // should be excluded
        dir.join("readme.txt"),         // should be excluded
    ];
    let models = list_cached_models(&entries);
    assert_eq!(models.len(), 2);
    assert!(models.iter().all(|p| p.extension().unwrap() == "bin"));
    assert_eq!(models, vec![dir.join("ggml-tiny.bin"), dir.join("ggml-base.bin")]);
}

#[test]
fn list_cached_models_leaves_out_temporary_files() {
    let entries = vec![
        PathBuf::from("/c/ggml-tiny.bin.part.4711"),
        PathBuf::from("/c/ggml-tiny.BIN"),
        PathBuf::from("/c/bin"),
        PathBuf::from("/c/.bin"),
        PathBuf::from("/c/x.bin"),
    ];
    assert_eq!(list_cached_models(&entries), vec![PathBuf::from("/c/x.bin")]);
}

#[test]
fn test_ensure_model_custom_exists() {
    let tmp = PathBuf::from("/tmp/transcriber_test_custom_model.bin");
    let model = Model::Custom(tmp.clone());
    let result = ensure_model(&model, &PathBuf::from("/unused"), true);
    match result {
        Ok(ModelPlan::Ready(path)) => assert_eq!(path, tmp),
        other => panic!("unexpected: {:?}", other),
    }
}

#[test]
fn test_ensure_model_custom_not_found() {
    let model = Model::Custom(PathBuf::from("/nonexistent/model.bin"));
    let result = ensure_model(&model, &PathBuf::from("/unused"), false);
    assert!(result.is_err());
    match result.unwrap_err() {
        Error::ModelNotFound { path } => assert_eq!(path, PathBuf::from("/nonexistent/model.bin")),
        other => panic!("unexpected: {:?}", other),
    }
}

#[test]
fn test_ensure_model_uses_cache() {
    let cache = PathBuf::from("/tmp/transcriber_test_model_cache");
    let result = ensure_model(&Model::Tiny, &cache, true);
    match result {
        Ok(ModelPlan::Ready(path)) => assert_eq!(path, cache.join("ggml-tiny.bin")),
        other => panic!("unexpected: {:?}", other),
    }
}

#[test]
fn ensure_model_fetches_what_is_not_cached() {
    let cache = PathBuf::from("/var/cache/models");
    match ensure_model(&Model::LargeV3Turbo, &cache, false) {
        Ok(ModelPlan::Fetch { url, dest }) => {
            assert_eq!(
                url,
                "https://huggingface.co/ggerganov/whisper.cpp/resolve/main/ggml-large-v3-turbo.bin"
            );
            assert_eq!(dest, cache.join("ggml-large-v3-turbo.bin"));
        }
        other => panic!("unexpected: {:?}", other),
    }
}

#[test]
fn model_path_and_url() {
    let cache = PathBuf::from("/c");
    assert_eq!(model_path(&Model::BaseEn, &cache), PathBuf::from("/c/ggml-base.en.bin"));
    assert_eq!(
        model_path(&Model::Custom(PathBuf::from("/m/own.ggml")), &cache),
        PathBuf::from("/m/own.ggml")
    );
    assert_eq!(
        model_url("ggml-tiny.bin"),
        "https://huggingface.co/ggerganov/whisper.cpp/resolve/main/ggml-tiny.bin"
    );
}

#[test]
fn temp_path_is_per_process() {
    let dest = PathBuf::from("/c/ggml-tiny.bin");
    assert_eq!(temp_path(&dest, 4711), PathBuf::from("/c/ggml-tiny.bin.part.4711"));
    assert_eq!(temp_path(&dest, 0), PathBuf::from("/c/ggml-tiny.bin.part.0"));
    assert_eq!(
        temp_path(&PathBuf::from("/c/ggml-base.en.bin"), u32::MAX),
        PathBuf::from("/c/ggml-base.en.bin.part.4294967295")
    );
    assert_ne!(temp_path(&dest, 1), temp_path(&dest, 2));
}

#[test]
fn failures_of_the_cache_and_the_host() {
    match cache_dir_failure(&PathBuf::from("/ro/cache"), "Read-only file system") {
        Error::Model(m) => {
            assert_eq!(m, "failed to create cache dir /ro/cache: Read-only file system")
        }
        other => panic!("unexpected: {:?}", other),
    }
    match http_status_failure("404 Not Found") {
        Error::ModelDownload(m) => assert_eq!(m, "HTTP error: 404 Not Found"),
        other => panic!("unexpected: {:?}", other),
    }
}

#[test]
fn download_of_a_model_that_is_fine() {
    let size = 2_000_000u64;
    let (s, a) = step(DownloadState::Requested, DownloadEvent::Response { content_length: Some(size) });
    assert_eq!(a, DownloadAction::CreateTemp);
    assert_eq!(s, DownloadState::Streaming { advertised: size, written: 0 });
    let (s, a) = step(s, DownloadEvent::Chunk { len: 1_500_000 });
    assert_eq!(a, DownloadAction::Write { progress: 1_500_000 });
    let (s, a) = step(s, DownloadEvent::Chunk { len: 500_000 });
    assert_eq!(a, DownloadAction::Write { progress: 2_000_000 });
    assert_eq!(s, DownloadState::Streaming { advertised: size, written: size });
    let (s, a) = step(s, DownloadEvent::EndOfStream);
    assert_eq!(a, DownloadAction::Flush);
    assert_eq!(s, DownloadState::Written { advertised: size });
    let (s, a) = step(s, DownloadEvent::Flushed { size });
    assert_eq!(a, DownloadAction::Rename);
    assert_eq!(s, DownloadState::Verified);
    let (s, a) = step(s, DownloadEvent::Renamed);
    assert_eq!(a, DownloadAction::Finish);
    assert_eq!(s, DownloadState::Done);
}

#[test]
fn download_rejects_oversized_response_before_writing() {
    let (s, a) = step(
        DownloadState::Requested,
        DownloadEvent::Response { content_length: Some(5_000_000_001) },
    );
    assert_eq!(a, DownloadAction::Abort(Rejection::TooLarge { advertised: 5_000_000_001 }));
    assert_eq!(s, DownloadState::Failed);
    // Exactly the limit is still accepted.
    let (s, a) = step(
        DownloadState::Requested,
        DownloadEvent::Response { content_length: Some(5_000_000_000) },
    );
    assert_eq!(a, DownloadAction::CreateTemp);
    assert_eq!(s, DownloadState::Streaming { advertised: MAX_MODEL_BYTES, written: 0 });
}

#[test]
fn download_without_advertised_length() {
    let (s, a) = step(DownloadState::Requested, DownloadEvent::Response { content_length: None });
    assert_eq!(a, DownloadAction::CreateTemp);
    assert_eq!(s, DownloadState::Streaming { advertised: 0, written: 0 });
    let (s, _) = step(s, DownloadEvent::Chunk { len: 3_000_000 });
    let (s, _) = step(s, DownloadEvent::EndOfStream);
    // No length to compare with: the minimum alone decides.
    assert_eq!(step(s, DownloadEvent::Flushed { size: 3_000_000 }).1, DownloadAction::Rename);
    assert_eq!(step(s, DownloadEvent::Flushed { size: 1_000_000 }).1, DownloadAction::Rename);
}

#[test]
fn download_aborts_when_the_stream_passes_the_limit() {
    let s = DownloadState::Streaming { advertised: 0, written: 4_999_999_000 };
    let (s2, a) = step(s, DownloadEvent::Chunk { len: 1_000 });
    assert_eq!(a, DownloadAction::Write { progress: 5_000_000_000 });
    let (s3, a) = step(s2, DownloadEvent::Chunk { len: 1 });
    assert_eq!(a, DownloadAction::Abort(Rejection::Exceeded));
    assert_eq!(s3, DownloadState::Failed);
    let (_, a) = step(s, DownloadEvent::Chunk { len: usize::MAX });
    assert_eq!(a, DownloadAction::Abort(Rejection::Exceeded));
}

#[test]
fn download_rejects_undersized_and_mismatched_files() {
    let s = DownloadState::Written { advertised: 0 };
    let (s2, a) = step(s, DownloadEvent::Flushed { size: 999_999 });
    assert_eq!(a, DownloadAction::Abort(Rejection::TooSmall { size: 999_999 }));
    assert_eq!(s2, DownloadState::Failed);
    assert_eq!(MIN_MODEL_BYTES, 1_000_000);

    let s = DownloadState::Written { advertised: 2_000_000 };
    let (s2, a) = step(s, DownloadEvent::Flushed { size: 1_999_999 });
    assert_eq!(
        a,
        DownloadAction::Abort(Rejection::SizeMismatch { expected: 2_000_000, size: 1_999_999 })
    );
    assert_eq!(s2, DownloadState::Failed);
    // Too small wins over a mismatch.
    let (_, a) = step(s, DownloadEvent::Flushed { size: 10 });
    assert_eq!(a, DownloadAction::Abort(Rejection::TooSmall { size: 10 }));
}

#[test]
fn download_failures_and_disorder() {
    for state in [
        DownloadState::Requested,
        DownloadState::Streaming { advertised: 0, written: 5 },
        DownloadState::Written { advertised: 0 },
        DownloadState::Verified,
    ] {
        let (s, a) = step(state, DownloadEvent::Broken);
        assert_eq!(a, DownloadAction::Abort(Rejection::Broken));
        assert_eq!(s, DownloadState::Failed);
    }
    let (s, a) = step(DownloadState::Requested, DownloadEvent::Renamed);
    assert_eq!(a, DownloadAction::Abort(Rejection::OutOfOrder));
    assert_eq!(s, DownloadState::Failed);
    let (s, a) = step(DownloadState::Failed, DownloadEvent::Flushed { size: 2_000_000 });
    assert_eq!(a, DownloadAction::Abort(Rejection::OutOfOrder));
    assert_eq!(s, DownloadState::Failed);
    let (_, a) = step(DownloadState::Written { advertised: 0 }, DownloadEvent::Renamed);
    assert_eq!(a, DownloadAction::Abort(Rejection::OutOfOrder));
}

#[test]
fn rejection_messages() {
    let text = |r: Rejection| match r.to_error() {
        Error::ModelDownload(m) => m,
        other => panic!("unexpected: {:?}", other),
    };
    assert_eq!(
        text(Rejection::TooLarge { advertised: 6_000_000_000 }),
        "model file too large (6000000000 bytes, max 5000000000)"
    );
    assert_eq!(text(Rejection::Exceeded), "download exceeded max size (5000000000 bytes)");
    assert_eq!(
        text(Rejection::TooSmall { size: 512 }),
        "downloaded file too small (512 bytes) — likely an error page"
    );
    assert_eq!(
        text(Rejection::SizeMismatch { expected: 2_000_000, size: 1_999_999 }),
        "file size mismatch (expected 2000000 bytes, got 1999999) — download may be corrupt"
    );
}

#[test]
fn part_file_guard() {
    let mut guard = PartFileGuard::new(PathBuf::from("/c/ggml-tiny.bin.part.1"));
    assert!(guard.armed);
    assert!(guard.must_remove(true));
    assert!(!guard.must_remove(false));
    guard.disarm();
    assert!(!guard.armed);
    assert_eq!(guard.path, PathBuf::from("/c/ggml-tiny.bin.part.1"));
    assert!(!guard.must_remove(true));
    assert!(!guard.must_remove(false));
}

#[test]
fn download_that_is_done_stays_done() {
    for event in [
        DownloadEvent::Broken,
        DownloadEvent::Renamed,
        DownloadEvent::Chunk { len: 1 },
        DownloadEvent::Flushed { size: 0 },
    ] {
        assert_eq!(step(DownloadState::Done, event), (DownloadState::Done, DownloadAction::Finish));
    }
}

#[test]
fn guarded_download_that_succeeds() {
    let dest = PathBuf::from("/c/ggml-tiny.bin");
    let d = download_model(dest.clone(), 77);
    assert_eq!(d.state(), DownloadState::Requested);
    assert_eq!(d.dest(), &dest);
    assert_eq!(d.temp_path(), &PathBuf::from("/c/ggml-tiny.bin.part.77"));
    // Nothing is on disk yet, so nothing is to be removed.
    assert!(!d.must_remove(false));
    let (d, a) = d.step(DownloadEvent::Response { content_length: None });
    assert_eq!(a, DownloadAction::CreateTemp);
    assert!(d.must_remove(true));
    let (d, a) = d.step(DownloadEvent::Chunk { len: 1_000_000 });
    assert_eq!(a, DownloadAction::Write { progress: 1_000_000 });
    let (d, _) = d.step(DownloadEvent::EndOfStream);
    let (d, a) = d.step(DownloadEvent::Flushed { size: 1_000_000 });
    assert_eq!(a, DownloadAction::Rename);
    // Until the rename has happened the temporary file is still guarded.
    assert!(d.must_remove(true));
    let (d, a) = d.step(DownloadEvent::Renamed);
    assert_eq!(a, DownloadAction::Finish);
    assert_eq!(d.state(), DownloadState::Done);
    assert!(!d.must_remove(true));
    assert!(!d.must_remove(false));
    assert_eq!(d.temp_path(), &PathBuf::from("/c/ggml-tiny.bin.part.77"));
}

#[test]
fn guarded_download_that_is_given_up_removes_its_file() {
    let dest = PathBuf::from("/c/ggml-base.bin");
    // Rejected before anything is written: no file exists, none is removed.
    let (d, a) = download_model(dest.clone(), 1)
        .step(DownloadEvent::Response { content_length: Some(MAX_MODEL_BYTES + 1) });
    assert!(matches!(a, DownloadAction::Abort(Rejection::TooLarge { .. })));
    assert_eq!(d.state(), DownloadState::Failed);
    assert!(!d.must_remove(false));
    // Rejected after the stream: the file is there and has to go.
    let (d, _) = download_model(dest.clone(), 1).step(DownloadEvent::Response { content_length: None });
    let (d, _) = d.step(DownloadEvent::Chunk { len: 10 });
    let (d, _) = d.step(DownloadEvent::EndOfStream);
    let (d, a) = d.step(DownloadEvent::Flushed { size: 10 });
    assert_eq!(a, DownloadAction::Abort(Rejection::TooSmall { size: 10 }));
    assert!(d.must_remove(true));
    // A broken transfer, at any point.
    let (d, _) = download_model(dest, 1).step(DownloadEvent::Response { content_length: Some(9) });
    let (d, a) = d.step(DownloadEvent::Broken);
    assert_eq!(a, DownloadAction::Abort(Rejection::Broken));
    assert!(d.must_remove(true));
}
