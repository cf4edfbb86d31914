use std::path::PathBuf;

use transcriber::download::download_audio;
use transcriber::download::download_failure;
use transcriber::download::find_audio_file;
use transcriber::download::normalize_path;
use transcriber::download::validate_path_in_dir;
use transcriber::download::validate_url;
use transcriber::download::AudioDownload;
use transcriber::download::DirEntryInfo;
use transcriber::download::FetchAction;
use transcriber::download::FetchEvent;
use transcriber::download::MediaInfo;
use transcriber::download::Stage;
use transcriber::paths::PartKind;
use transcriber::Error;

/// Validates as the pipeline does: with what the file system resolves the
/// two paths to, where it can.
fn in_dir(path: &PathBuf, dir: &PathBuf) -> Result<(), Error> {
    validate_path_in_dir(path, dir, &path.canonicalize().ok(), &dir.canonicalize().ok())
}

fn names(path: &str) -> Vec<String> {
    normalize_path(&PathBuf::from(path))
        .iter()
        .map(|p| String::from_utf8(p.name.clone()).unwrap())
        .collect()
}

#[test]
fn test_validate_url_https() {
    assert!(validate_url("https://youtube.com/watch?v=abc").is_ok());
}

#[test]
fn test_validate_url_http() {
    assert!(validate_url("http://example.com/audio.mp3").is_ok());
}

#[test]
fn test_validate_url_rejects_no_scheme() {
    assert!(validate_url("youtube.com/watch?v=abc").is_err());
}

#[test]
fn test_validate_url_rejects_file_scheme() {
    assert!(validate_url("file:///etc/passwd").is_err());
}

#[test]
fn test_validate_url_rejects_empty() {
    assert!(validate_url("").is_err());
}

#[test]
fn test_validate_url_rejects_command() {
    assert!(validate_url("$(whoami)").is_err());
}

#[test]
fn test_validate_url_rejects_pipe() {
    assert!(validate_url("| cat /etc/passwd").is_err());
}

#[test]
fn validate_url_accepts_and_rejects() {
    assert!(validate_url("https://host/path").is_ok());
    assert!(validate_url("http://host/path").is_ok());
    assert!(validate_url("  https://host/path\n").is_ok());
    assert!(validate_url("ftp://host").is_err());
    assert!(validate_url("HTTPS://host/path").is_err());
    assert!(validate_url("https:/host").is_err());
    assert!(validate_url("http//host").is_err());
    assert!(validate_url("x https://host").is_err());
    assert!(validate_url("   ").is_err());
}

#[test]
fn validate_url_reports_the_trimmed_text() {
    match validate_url("  ftp://host \t") {
        Err(Error::Download(m)) => {
            assert_eq!(m, "invalid URL (must start with http:// or https://): ftp://host")
        }
        other => panic!("unexpected: {:?}", other),
    }
}

#[test]
fn test_validate_path_in_dir_valid() {
    let dir = PathBuf::from("/tmp");
    let path = dir.join("test_file.wav");
    assert!(in_dir(&path, &dir).is_ok());
}

#[test]
fn test_validate_path_in_dir_traversal() {
    let dir = PathBuf::from("/tmp").join("transkribo_test");
    let path = PathBuf::from("/etc/passwd");
    assert!(in_dir(&path, &dir).is_err());
}

#[test]
fn test_validate_path_in_dir_parent_traversal() {
    let dir = PathBuf::from("/tmp").join("transkribo_test");
    let path = dir.join("..").join("..").join("etc").join("passwd");
    assert!(in_dir(&path, &dir).is_err());
}

#[test]
fn validate_path_in_dir_without_file_system() {
    let dir = PathBuf::from("/no/such/dir/out");
    let ok = |p: &str| validate_path_in_dir(&PathBuf::from(p), &dir, &None, &None).is_ok();
    assert!(ok("/no/such/dir/out/a.wav"));
    assert!(ok("/no/such/dir/out/./sub/../a.wav"));
    assert!(ok("/no/such/dir/out"));
    assert!(ok("/no/such/dir/x/../out/a.wav"));
    assert!(!ok("/no/such/dir/out/../a.wav"));
    assert!(!ok("/no/such/dir/outside/a.wav"));
    assert!(!ok("/no/such/dir/ou"));
    assert!(!ok("no/such/dir/out/a.wav"));
    assert!(!ok("/etc/passwd"));
}

#[test]
fn validate_path_in_dir_prefers_canonical_paths() {
    let dir = PathBuf::from("/data/out");
    let path = PathBuf::from("/data/out/link.wav");
    // The file system says that the path is a link that leaves the directory.
    let elsewhere = Some(PathBuf::from("/etc/passwd"));
    assert!(validate_path_in_dir(&path, &dir, &elsewhere, &None).is_err());
    // The directory itself resolves elsewhere, and the file with it.
    let real_dir = Some(PathBuf::from("/mnt/disk/out"));
    let real_path = Some(PathBuf::from("/mnt/disk/out/link.wav"));
    assert!(validate_path_in_dir(&path, &dir, &real_path, &real_dir).is_ok());
    assert!(validate_path_in_dir(&path, &dir, &None, &real_dir).is_err());
}

#[test]
fn validate_path_in_dir_error_message() {
    match validate_path_in_dir(&PathBuf::from("/a"), &PathBuf::from("/b"), &None, &None) {
        Err(Error::Download(m)) => {
            assert_eq!(m, "downloaded file path is outside the expected output directory")
        }
        other => panic!("unexpected: {:?}", other),
    }
}

#[test]
fn normalize_path_resolves_dots() {
    assert_eq!(names("/a/b/../c/./d"), vec!["/", "a", "c", "d"]);
    assert_eq!(names("a/./b"), vec!["a", "b"]);
    assert_eq!(names("a/b/../.."), Vec::<String>::new());
    // `..` removes whatever stands before it, the root too.
    assert_eq!(names("/../a"), vec!["a"]);
    assert_eq!(names("../a"), vec!["a"]);
    assert_eq!(names(""), Vec::<String>::new());
    let parts = normalize_path(&PathBuf::from("/x/../y"));
    assert_eq!(parts.len(), 2);
    assert_eq!(parts[0].kind, PartKind::RootDir);
    assert_eq!(parts[1].kind, PartKind::Normal);
}

fn entry(path: &str, modified: Option<i128>) -> DirEntryInfo {
    DirEntryInfo { path: PathBuf::from(path), modified }
}

#[test]
fn find_audio_file_takes_the_latest() {
    let entries = vec![
        entry("/out/a.wav", Some(10)),
        entry("/out/b.mp3", Some(30)),
        entry("/out/c.txt", Some(99)),
        entry("/out/d.flac", Some(20)),
        entry("/out/e.opus", None),
    ];
    assert_eq!(find_audio_file(&entries).unwrap(), PathBuf::from("/out/b.mp3"));
}

#[test]
fn find_audio_file_takes_the_first_of_equals() {
    let entries = vec![
        entry("/out/a.ogg", Some(5)),
        entry("/out/b.m4a", Some(7)),
        entry("/out/c.wav", Some(7)),
    ];
    assert_eq!(find_audio_file(&entries).unwrap(), PathBuf::from("/out/b.m4a"));
    let entries = vec![entry("/out/only.opus", Some(-3))];
    assert_eq!(find_audio_file(&entries).unwrap(), PathBuf::from("/out/only.opus"));
}

#[test]
fn find_audio_file_without_candidates() {
    let entries = vec![
        entry("/out/readme.txt", Some(1)),
        entry("/out/noext", Some(2)),
        entry("/out/a.WAV", Some(3)),
        entry("/out/b.wav", None),
        entry("/out/c.webm", Some(4)),
    ];
    match find_audio_file(&entries) {
        Err(Error::Download(m)) => assert_eq!(m, "no audio file found after download"),
        other => panic!("unexpected: {:?}", other),
    }
    assert!(find_audio_file(&Vec::new()).is_err());
}

#[test]
fn download_failure_truncates_the_complaint() {
    match download_failure("no such video") {
        Error::Download(m) => assert_eq!(m, "yt-dlp failed: no such video"),
        other => panic!("unexpected: {:?}", other),
    }
    let long: String = "é".repeat(1500);
    match download_failure(&long) {
        Error::Download(m) => {
            assert_eq!(m.chars().count(), "yt-dlp failed: ".len() + 1000);
            assert!(m.ends_with("é"));
        }
        other => panic!("unexpected: {:?}", other),
    }
    let exact: String = "x".repeat(1000);
    match download_failure(&exact) {
        Error::Download(m) => assert_eq!(m.len(), "yt-dlp failed: ".len() + 1000),
        other => panic!("unexpected: {:?}", other),
    }
}

fn texts(args: &[String]) -> Vec<&str> {
    args.iter().map(|a| a.as_str()).collect()
}

/// Runs a download up to the point where the downloader has been asked to fetch.
fn fetching(url: &str, dir: &str) -> AudioDownload {
    let (d, action) = download_audio(url, PathBuf::from(dir));
    assert!(matches!(action, FetchAction::Probe));
    assert_eq!(d.stage(), Stage::Probing);
    let (d, action) = d.step(FetchEvent::Probed { ran: true });
    assert!(matches!(action, FetchAction::CreateDir));
    assert_eq!(d.stage(), Stage::Preparing);
    let (d, action) = d.step(FetchEvent::DirCreated);
    match action {
        FetchAction::Describe { args } => {
            assert_eq!(texts(&args), vec!["--dump-json", "--no-download", "--no-exec", url])
        }
        other => panic!("unexpected: {:?}", other),
    }
    assert_eq!(d.stage(), Stage::Describing);
    let info = MediaInfo { title: Some("A talk".to_string()), duration_bits: Some(12.5f64.to_bits()) };
    let (d, action) = d.step(FetchEvent::Described { success: true, parsed: Some(info) });
    match action {
        FetchAction::Fetch { args } => assert_eq!(
            texts(&args),
            vec![
                "--extract-audio",
                "--audio-format",
                "wav",
                "--audio-quality",
                "0",
                "--no-playlist",
                "--no-exec",
                "--output",
                &format!("{dir}/%(id)s.%(ext)s"),
                "--print",
                "after_move:filepath",
                url,
            ]
        ),
        other => panic!("unexpected: {:?}", other),
    }
    assert_eq!(d.stage(), Stage::Fetching);
    d
}

#[test]
fn audio_download_with_reported_path() {
    let d = fetching("https://example.com/v", "/tmp/out");
    let (d, action) = d.step(FetchEvent::Fetched {
        success: true,
        stdout: "/tmp/out/abc.wav\n".to_string(),
        stderr: String::new(),
    });
    match action {
        FetchAction::Resolve { path } => assert_eq!(path, PathBuf::from("/tmp/out/abc.wav")),
        other => panic!("unexpected: {:?}", other),
    }
    assert_eq!(d.stage(), Stage::Resolving);
    let (d, action) = d.step(FetchEvent::Resolved { canonical_path: None, canonical_dir: None });
    match action {
        FetchAction::Check { path } => assert_eq!(path, PathBuf::from("/tmp/out/abc.wav")),
        other => panic!("unexpected: {:?}", other),
    }
    assert_eq!(d.stage(), Stage::Checking);
    let (d, action) = d.step(FetchEvent::Checked { exists: true });
    match action {
        FetchAction::Finish(result) => {
            assert_eq!(result.audio_path, PathBuf::from("/tmp/out/abc.wav"));
            assert_eq!(result.title.as_deref(), Some("A talk"));
            assert_eq!(result.duration_bits.map(f64::from_bits), Some(12.5));
        }
        other => panic!("unexpected: {:?}", other),
    }
    assert_eq!(d.stage(), Stage::Done);
}

#[test]
fn audio_download_falls_back_to_the_directory() {
    let d = fetching("http://example.com/v", "/tmp/out");
    let (d, action) = d.step(FetchEvent::Fetched {
        success: true,
        stdout: "  \n".to_string(),
        stderr: String::new(),
    });
    assert!(matches!(action, FetchAction::List));
    assert_eq!(d.stage(), Stage::Listing);
    let entries = vec![entry("/tmp/out/old.wav", Some(1)), entry("/tmp/out/new.wav", Some(2))];
    let (d, action) = d.step(FetchEvent::Listed { entries });
    match action {
        FetchAction::Check { path } => assert_eq!(path, PathBuf::from("/tmp/out/new.wav")),
        other => panic!("unexpected: {:?}", other),
    }
    let (d, action) = d.step(FetchEvent::Checked { exists: false });
    match action {
        FetchAction::Fail(Error::Download(m)) => {
            assert_eq!(m, "downloaded file not found at /tmp/out/new.wav")
        }
        other => panic!("unexpected: {:?}", other),
    }
    assert_eq!(d.stage(), Stage::Failed);
}

#[test]
fn audio_download_rejects_bad_url_before_anything_runs() {
    for url in ["file:///etc/passwd", "ftp://host", "$(whoami)", "| cat /etc/passwd", ""] {
        let (d, action) = download_audio(url, PathBuf::from("/tmp/out"));
        assert!(matches!(action, FetchAction::Fail(Error::Download(_))));
        assert_eq!(d.stage(), Stage::Failed);
        // Nothing brings it back.
        let (d, action) = d.step(FetchEvent::Probed { ran: true });
        assert!(matches!(action, FetchAction::Fail(Error::Download(_))));
        assert_eq!(d.stage(), Stage::Failed);
    }
}

#[test]
fn audio_download_failures() {
    let (d, _) = download_audio("https://example.com/v", PathBuf::from("/tmp/out"));
    let (d, action) = d.step(FetchEvent::Probed { ran: false });
    assert!(matches!(action, FetchAction::Fail(Error::YtDlpNotFound)));
    assert_eq!(d.stage(), Stage::Failed);

    let d = fetching("https://example.com/v", "/tmp/out");
    let (d, action) = d.step(FetchEvent::Fetched {
        success: false,
        stdout: "/tmp/out/abc.wav".to_string(),
        stderr: "ERROR: unavailable".to_string(),
    });
    match action {
        FetchAction::Fail(Error::Download(m)) => assert_eq!(m, "yt-dlp failed: ERROR: unavailable"),
        other => panic!("unexpected: {:?}", other),
    }
    assert_eq!(d.stage(), Stage::Failed);

    let d = fetching("https://example.com/v", "/tmp/out");
    let (d, _) = d.step(FetchEvent::Fetched {
        success: true,
        stdout: "/etc/passwd".to_string(),
        stderr: String::new(),
    });
    let (d, action) = d.step(FetchEvent::Resolved { canonical_path: None, canonical_dir: None });
    match action {
        FetchAction::Fail(Error::Download(m)) => {
            assert_eq!(m, "downloaded file path is outside the expected output directory")
        }
        other => panic!("unexpected: {:?}", other),
    }
    assert_eq!(d.stage(), Stage::Failed);

    let d = fetching("https://example.com/v", "/tmp/out");
    let (d, _) = d.step(FetchEvent::Fetched {
        success: true,
        stdout: String::new(),
        stderr: String::new(),
    });
    let (d, action) = d.step(FetchEvent::Listed { entries: vec![entry("/tmp/out/a.txt", Some(1))] });
    match action {
        FetchAction::Fail(Error::Download(m)) => assert_eq!(m, "no audio file found after download"),
        other => panic!("unexpected: {:?}", other),
    }
    assert_eq!(d.stage(), Stage::Failed);
}

#[test]
fn audio_download_passes_broken_errors_through() {
    let (d, _) = download_audio("https://example.com/v", PathBuf::from("/tmp/out"));
    let (d, _) = d.step(FetchEvent::Probed { ran: true });
    let io = std::io::Error::new(std::io::ErrorKind::PermissionDenied, "read-only");
    let (d, action) = d.step(FetchEvent::Broken(Error::from(io)));
    match action {
        FetchAction::Fail(Error::Io(e)) => assert_eq!(e.kind(), std::io::ErrorKind::PermissionDenied),
        other => panic!("unexpected: {:?}", other),
    }
    assert_eq!(d.stage(), Stage::Failed);
}

#[test]
fn audio_download_out_of_order() {
    let (d, _) = download_audio("https://example.com/v", PathBuf::from("/tmp/out"));
    let (d, action) = d.step(FetchEvent::Checked { exists: true });
    match action {
        FetchAction::Fail(Error::Download(m)) => assert_eq!(m, "download steps out of order"),
        other => panic!("unexpected: {:?}", other),
    }
    assert_eq!(d.stage(), Stage::Failed);
}

#[test]
fn audio_download_drops_metadata_of_a_failed_description() {
    let (d, _) = download_audio("https://example.com/v", PathBuf::from("/tmp/out"));
    let (d, _) = d.step(FetchEvent::Probed { ran: true });
    let (d, _) = d.step(FetchEvent::DirCreated);
    let info = MediaInfo { title: Some("ignored".to_string()), duration_bits: Some(1) };
    let (d, _) = d.step(FetchEvent::Described { success: false, parsed: Some(info) });
    let (d, _) = d.step(FetchEvent::Fetched {
        success: true,
        stdout: "/tmp/out/a.wav".to_string(),
        stderr: String::new(),
    });
    let (d, _) = d.step(FetchEvent::Resolved { canonical_path: None, canonical_dir: None });
    let (_, action) = d.step(FetchEvent::Checked { exists: true });
    match action {
        FetchAction::Finish(result) => {
            assert!(result.title.is_none());
            assert!(result.duration_bits.is_none());
        }
        other => panic!("unexpected: {:?}", other),
    }
}
