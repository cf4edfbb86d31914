//! Audio from a URL: what is checked before and after the downloader runs.
//!
//! The downloader is an outside program that the caller runs. Here are the
//! checks around it: that the URL is a web address, that the file it
//! reports lies inside the directory it was given, and which file to take
//! where it reports none.

use crate::error::path_display;
use crate::error::prefixed;
use crate::error::Error;
use crate::paths::components;
use crate::paths::extension;
use crate::paths::extension_text;
use crate::paths::join;
use crate::paths::joined;
use crate::paths::path_from;
use crate::paths::path_of;
use crate::paths::path_to_str;
use crate::paths::utf8_text;
use crate::types::text_of;
use crate::paths::parts_view;
use crate::paths::path_parts;
use crate::paths::path_text;
use crate::paths::PartKind;
use crate::paths::PartModel;
use crate::paths::PathPart;
use crate::text::starts_with;
use crate::text::texts;
use crate::text::text_eq;
use crate::text::trim;
use crate::text::trimmed;
use std::path::PathBuf;
use vstd::prelude::*;

verus! {

/// Whether `url`, trimmed, begins with `https://` or `http://`.
pub open spec fn is_web_url(url: Seq<char>) -> bool {
    "https://"@.is_prefix_of(trimmed(url)) || "http://"@.is_prefix_of(trimmed(url))
}

/// Every web address begins, once trimmed, with the letters `http`: no
/// text that begins with another scheme, with a shell's `$` or `|`, or
/// with nothing at all is one.
pub proof fn web_urls_begin_with_http(url: Seq<char>)
    requires
        is_web_url(url),
    ensures
        trimmed(url).len() >= 7,
        trimmed(url).subrange(0, 4) == "http"@,
        trimmed(url)[4] == ':' || (trimmed(url)[4] == 's' && trimmed(url)[5] == ':'),
{
    reveal_strlit("https://");
    reveal_strlit("http://");
    reveal_strlit("http");
    let t = trimmed(url);
    if "https://"@.is_prefix_of(t) {
        assert forall|i: int| 0 <= i < 8 implies t[i] == "https://"@[i] by {}
    } else {
        assert forall|i: int| 0 <= i < 7 implies t[i] == "http://"@[i] by {}
    }
}

/// Validates that a string is a web address.
///
/// Anything that does not begin with `http://` or `https://` is rejected,
/// so that no local file and no command can pose as a URL.
pub fn validate_url(url: &str) -> (r: Result<(), Error>)
    ensures
        is_web_url(url@) ==> r is Ok,
        !is_web_url(url@) ==> (r matches Err(Error::Download(m)) && m@
            == "invalid URL (must start with http:// or https://): "@ + trimmed(url@)),
{
    let t = trim(url);
    if starts_with(t, "https://") || starts_with(t, "http://") {
        Ok(())
    } else {
        Err(
            Error::Download(
                prefixed("invalid URL (must start with http:// or https://): ", t),
            ),
        )
    }
}

/// The components that are left of `parts` when every `.` is dropped and
/// every `..` removes the component before it, if there is one.
pub open spec fn normalized(parts: Seq<PartModel>) -> Seq<PartModel>
    decreases parts.len(),
{
    if parts.len() == 0 {
        Seq::empty()
    } else {
        let before = normalized(parts.drop_last());
        match parts.last().kind {
            PartKind::ParentDir => if before.len() > 0 {
                before.drop_last()
            } else {
                before
            },
            PartKind::CurDir => before,
            _ => before.push(parts.last()),
        }
    }
}

/// Resolves `.` and `..` in a list of components.
pub fn normalize_parts(parts: &Vec<PathPart>) -> (out: Vec<PathPart>)
    ensures
        parts_view(out@) == normalized(parts_view(parts@)),
{
    let mut out: Vec<PathPart> = Vec::new();
    let mut i: usize = 0;
    while i < parts.len()
        invariant
            i <= parts@.len(),
            parts_view(out@) == normalized(parts_view(parts@).subrange(0, i as int)),
        decreases parts@.len() - i,
    {
        proof {
            let all = parts_view(parts@);
            assert(all.subrange(0, i + 1).drop_last() =~= all.subrange(0, i as int));
        }
        match parts[i].kind {
            PartKind::ParentDir => {
                out.pop();
            },
            PartKind::CurDir => {},
            _ => {
                let name = parts[i].name.clone();
                let part = PathPart { kind: parts[i].kind, name };
                out.push(part);
            },
        }
        i = i + 1;
    }
    proof {
        assert(parts_view(parts@).subrange(0, i as int) =~= parts_view(parts@));
    }
    out
}

/// Normalizes a path by resolving `.` and `..` without touching the file
/// system: the components that are left.
pub fn normalize_path(path: &PathBuf) -> (out: Vec<PathPart>)
    ensures
        parts_view(out@) == normalized(path_parts(*path)),
{
    let parts = components(path);
    normalize_parts(&parts)
}

/// Whether two components are the same.
fn same_part(a: &PathPart, b: &PathPart) -> (r: bool)
    ensures
        r == (a@ == b@),
{
    let same_kind = a.kind == b.kind;
    let mut same_name = a.name.len() == b.name.len();
    let mut i: usize = 0;
    while same_name && i < a.name.len()
        invariant
            a.name@.len() == b.name@.len() || !same_name,
            i <= a.name@.len(),
            same_name ==> a.name@.subrange(0, i as int) =~= b.name@.subrange(0, i as int),
            !same_name ==> a.name@ != b.name@,
        decreases a.name@.len() - i, same_name as int,
    {
        if a.name[i] != b.name[i] {
            same_name = false;
        } else {
            i = i + 1;
        }
    }
    proof {
        if same_name {
            assert(a.name@.subrange(0, i as int) =~= a.name@);
            assert(b.name@.subrange(0, i as int) =~= b.name@);
        }
    }
    same_kind && same_name
}

/// Whether the components `dir` are the first components of `path`.
pub fn parts_start_with(path: &Vec<PathPart>, dir: &Vec<PathPart>) -> (r: bool)
    ensures
        r == parts_view(dir@).is_prefix_of(parts_view(path@)),
{
    if dir.len() > path.len() {
        return false;
    }
    let mut i: usize = 0;
    while i < dir.len()
        invariant
            dir@.len() <= path@.len(),
            i <= dir@.len(),
            forall|j: int| 0 <= j < i ==> (#[trigger] dir@[j])@ == path@[j]@,
        decreases dir@.len() - i,
    {
        if !same_part(&path[i], &dir[i]) {
            proof {
                assert(parts_view(dir@)[i as int] != parts_view(path@)[i as int]);
            }
            return false;
        }
        i = i + 1;
    }
    true
}

/// The components by which a path is compared: those of its canonical
/// form where the file system gave one, else its normalized components.
pub open spec fn effective_parts(path: PathBuf, canonical: Option<PathBuf>) -> Seq<PartModel> {
    match canonical {
        Some(c) => path_parts(c),
        None => normalized(path_parts(path)),
    }
}

/// Whether `path` lies inside `expected_dir`, comparing whole components.
pub open spec fn lies_within(
    path: PathBuf,
    expected_dir: PathBuf,
    canonical_path: Option<PathBuf>,
    canonical_dir: Option<PathBuf>,
) -> bool {
    effective_parts(expected_dir, canonical_dir).is_prefix_of(
        effective_parts(path, canonical_path),
    )
}

/// The components by which a path is compared.
fn comparison_parts(path: &PathBuf, canonical: &Option<PathBuf>) -> (parts: Vec<PathPart>)
    ensures
        parts_view(parts@) == effective_parts(*path, *canonical),
{
    match canonical {
        Some(c) => components(c),
        None => normalize_path(path),
    }
}

/// Validates that a path is inside the expected directory, which prevents
/// path traversal.
///
/// `canonical_path` and `canonical_dir` are what the file system resolved
/// the two to, where it could; a path that it could not resolve is
/// normalized instead.
pub fn validate_path_in_dir(
    path: &PathBuf,
    expected_dir: &PathBuf,
    canonical_path: &Option<PathBuf>,
    canonical_dir: &Option<PathBuf>,
) -> (r: Result<(), Error>)
    ensures
        lies_within(*path, *expected_dir, *canonical_path, *canonical_dir) ==> r is Ok,
        !lies_within(*path, *expected_dir, *canonical_path, *canonical_dir) ==> (r matches Err(
            Error::Download(m),
        ) && m@ == "downloaded file path is outside the expected output directory"@),
{
    let dir_parts = comparison_parts(expected_dir, canonical_dir);
    let path_parts = comparison_parts(path, canonical_path);
    if parts_start_with(&path_parts, &dir_parts) {
        Ok(())
    } else {
        Err(
            Error::Download(
                String::from_str("downloaded file path is outside the expected output directory"),
            ),
        )
    }
}

/// Whether `ext` is the extension of an audio file that the downloader may leave.
pub open spec fn is_audio_extension(ext: Seq<char>) -> bool {
    ext == "wav"@ || ext == "mp3"@ || ext == "ogg"@ || ext == "m4a"@ || ext == "opus"@ || ext
        == "flac"@
}

/// One entry of the output directory: its path and when it was last
/// modified, in nanoseconds since the epoch, where that could be read.
#[derive(Debug)]
pub struct DirEntryInfo {
    pub path: PathBuf,
    pub modified: Option<i128>,
}

impl DirEntryInfo {
    /// Whether the entry can be the downloaded audio: it has an audio
    /// extension and a modification time.
    pub open spec fn is_candidate(self) -> bool {
        &&& self.modified is Some
        &&& extension_text(self.path) matches Some(ext) && is_audio_extension(ext)
    }
}

/// Whether `k` is the entry to take: the first of the candidates that were
/// modified last.
pub open spec fn is_latest_candidate(entries: Seq<DirEntryInfo>, k: int) -> bool {
    &&& 0 <= k < entries.len()
    &&& entries[k].is_candidate()
    &&& forall|j: int|
        0 <= j < entries.len() && (#[trigger] entries[j]).is_candidate() ==> entries[j].modified->0
            <= entries[k].modified->0
    &&& forall|j: int|
        0 <= j < k && (#[trigger] entries[j]).is_candidate() ==> entries[j].modified->0
            < entries[k].modified->0
}

/// Whether the entry has an audio extension.
fn has_audio_extension(path: &PathBuf) -> (r: bool)
    ensures
        r == (extension_text(*path) matches Some(ext) && is_audio_extension(ext)),
{
    match extension(path) {
        Some(ext) => {
            let e = ext.as_str();
            text_eq(e, "wav") || text_eq(e, "mp3") || text_eq(e, "ogg") || text_eq(e, "m4a")
                || text_eq(e, "opus") || text_eq(e, "flac")
        },
        None => false,
    }
}

/// Finds the most recently modified audio file among the entries of a
/// directory; of several modified at the same time, the first.
pub fn find_audio_file(entries: &Vec<DirEntryInfo>) -> (r: Result<PathBuf, Error>)
    ensures
        (forall|j: int| 0 <= j < entries@.len() ==> !(#[trigger] entries@[j]).is_candidate())
            ==> (r matches Err(Error::Download(m)) && m@
            == "no audio file found after download"@),
        forall|k: int|
            is_latest_candidate(entries@, k) ==> r == Ok::<PathBuf, Error>(entries@[k].path),
{
    let mut best: Option<usize> = None;
    let mut best_time: i128 = 0;
    let mut i: usize = 0;
    while i < entries.len()
        invariant
            i <= entries@.len(),
            best is None ==> forall|j: int|
                0 <= j < i ==> !(#[trigger] entries@[j]).is_candidate(),
            best matches Some(k) ==> k < i && is_latest_candidate(
                entries@.subrange(0, i as int),
                k as int,
            ) && best_time == entries@[k as int].modified->0,
        decreases entries@.len() - i,
    {
        if has_audio_extension(&entries[i].path) {
            if let Some(modified) = entries[i].modified {
                let newer = match best {
                    Some(_) => modified > best_time,
                    None => true,
                };
                if newer {
                    best = Some(i);
                    best_time = modified;
                }
            }
        }
        i = i + 1;
    }
    proof {
        assert(entries@.subrange(0, i as int) =~= entries@);
    }
    match best {
        Some(k) => Ok(entries[k].path.clone()),
        None => Err(Error::Download(String::from_str("no audio file found after download"))),
    }
}

/// Title and length of what a URL leads to, as the downloader describes it.
#[derive(Debug)]
pub struct MediaInfo {
    pub title: Option<String>,
    /// Length in seconds, as the bits of a double-precision number.
    pub duration_bits: Option<u64>,
}

/// Result of downloading audio from a URL.
#[derive(Debug)]
pub struct DownloadResult {
    pub audio_path: PathBuf,
    pub title: Option<String>,
    /// Length in seconds, as the bits of a double-precision number.
    pub duration_bits: Option<u64>,
}

/// How far the download of one URL has come.
#[derive(Debug, Clone, Copy, PartialEq, Eq, Structural)]
pub enum Stage {
    /// The downloader was asked for its version.
    Probing,
    /// The output directory is being created.
    Preparing,
    /// The downloader was asked to describe the URL.
    Describing,
    /// The downloader is fetching the audio.
    Fetching,
    /// The downloader reported no path: the output directory is being listed.
    Listing,
    /// The reported path and the output directory are being resolved.
    Resolving,
    /// The chosen file is being looked for.
    Checking,
    /// The audio is there.
    Done,
    /// The download was given up.
    Failed,
}

/// What the caller found out since the last step.
#[derive(Debug)]
pub enum FetchEvent {
    /// Whether the downloader could be run at all.
    Probed { ran: bool },
    /// The output directory exists now.
    DirCreated,
    /// The description run ended; `parsed` is what its output holds, where
    /// it could be read.
    Described { success: bool, parsed: Option<MediaInfo> },
    /// The download run ended with these outputs.
    Fetched { success: bool, stdout: String, stderr: String },
    /// The entries of the output directory.
    Listed { entries: Vec<DirEntryInfo> },
    /// What the file system resolved the reported path and the output
    /// directory to, where it could.
    Resolved { canonical_path: Option<PathBuf>, canonical_dir: Option<PathBuf> },
    /// Whether the chosen file exists.
    Checked { exists: bool },
    /// Running a program or reaching the file system failed with this error.
    Broken(Error),
}

/// What the caller is to do next.
#[derive(Debug)]
pub enum FetchAction {
    /// Run the downloader with `--version`.
    Probe,
    /// Create the output directory and its parents.
    CreateDir,
    /// Run the downloader with `args` and read the description it prints.
    Describe { args: Vec<String> },
    /// Run the downloader with `args`.
    Fetch { args: Vec<String> },
    /// List the output directory.
    List,
    /// Resolve `path` and the output directory in the file system.
    Resolve { path: PathBuf },
    /// Find out whether `path` exists.
    Check { path: PathBuf },
    /// Finished: the audio is at the path in the result.
    Finish(DownloadResult),
    /// Give up and report the error.
    Fail(Error),
}

/// The mathematical value of an [`AudioDownload`].
pub struct AudioDownloadModel {
    pub stage: Stage,
    pub url: Seq<char>,
    pub output_dir: PathBuf,
    pub template: Seq<char>,
    pub title: Option<Seq<char>>,
    pub duration_bits: Option<u64>,
    pub candidate: Option<PathBuf>,
}

/// The download of the audio behind one URL, step by step.
#[derive(Debug)]
pub struct AudioDownload {
    stage: Stage,
    url: String,
    output_dir: PathBuf,
    template: String,
    title: Option<String>,
    duration_bits: Option<u64>,
    candidate: Option<PathBuf>,
}

/// The arguments of the run that describes `url`.
pub open spec fn describe_args(url: Seq<char>) -> Seq<Seq<char>> {
    seq!["--dump-json"@, "--no-download"@, "--no-exec"@, url]
}

/// The arguments of the run that fetches the audio of `url` as WAV into
/// the file that `template` names and prints where it put it.
pub open spec fn fetch_args(url: Seq<char>, template: Seq<char>) -> Seq<Seq<char>> {
    seq![
        "--extract-audio"@,
        "--audio-format"@,
        "wav"@,
        "--audio-quality"@,
        "0"@,
        "--no-playlist"@,
        "--no-exec"@,
        "--output"@,
        template,
        "--print"@,
        "after_move:filepath"@,
        url,
    ]
}

/// The first `limit` characters of `s`.
pub open spec fn truncated(s: Seq<char>, limit: nat) -> Seq<char> {
    if s.len() <= limit {
        s
    } else {
        s.subrange(0, limit as int)
    }
}

/// At most this many characters of the downloader's complaint are reported.
pub const MAX_COMPLAINT_CHARS: usize = 1000;

/// The error for a download run that failed, from what it wrote to its
/// error stream.
pub fn download_failure(stderr: &str) -> (e: Error)
    ensures
        e matches Error::Download(m) && m@ == "yt-dlp failed: "@ + truncated(
            stderr@,
            MAX_COMPLAINT_CHARS as nat,
        ),
{
    let n: usize = stderr.unicode_len();
    let shown = if n <= MAX_COMPLAINT_CHARS {
        stderr
    } else {
        stderr.substring_char(0, MAX_COMPLAINT_CHARS)
    };
    Error::Download(prefixed("yt-dlp failed: ", shown))
}

/// The arguments of the run that describes the URL.
fn make_describe_args(url: &str) -> (args: Vec<String>)
    ensures
        texts(args@) == describe_args(url@),
{
    let mut args: Vec<String> = Vec::new();
    args.push(String::from_str("--dump-json"));
    args.push(String::from_str("--no-download"));
    args.push(String::from_str("--no-exec"));
    args.push(String::from_str(url));
    args
}

/// The arguments of the run that fetches the audio.
fn make_fetch_args(url: &str, template: &str) -> (args: Vec<String>)
    ensures
        texts(args@) == fetch_args(url@, template@),
{
    let mut args: Vec<String> = Vec::new();
    args.push(String::from_str("--extract-audio"));
    args.push(String::from_str("--audio-format"));
    args.push(String::from_str("wav"));
    args.push(String::from_str("--audio-quality"));
    args.push(String::from_str("0"));
    args.push(String::from_str("--no-playlist"));
    args.push(String::from_str("--no-exec"));
    args.push(String::from_str("--output"));
    args.push(String::from_str(template));
    args.push(String::from_str("--print"));
    args.push(String::from_str("after_move:filepath"));
    args.push(String::from_str(url));
    args
}

/// Whether `action` gives up with a download error that says `message`.
pub open spec fn fails_with(action: FetchAction, message: Seq<char>) -> bool {
    action matches FetchAction::Fail(Error::Download(m)) && m@ == message
}

/// What a step may do, given the download before it and the event: the
/// download after it and the action.
pub open spec fn step_allows(
    before: AudioDownloadModel,
    event: FetchEvent,
    after: AudioDownloadModel,
    action: FetchAction,
) -> bool {
    let unchanged = after == (AudioDownloadModel { stage: after.stage, ..before });
    let failed = after == (AudioDownloadModel { stage: Stage::Failed, ..before });
    match (before.stage, event) {
        (_, FetchEvent::Broken(e)) => failed && action == FetchAction::Fail(e),
        (Stage::Probing, FetchEvent::Probed { ran }) => if ran {
            unchanged && after.stage == Stage::Preparing && action is CreateDir
        } else {
            failed && action == FetchAction::Fail(Error::YtDlpNotFound)
        },
        (Stage::Preparing, FetchEvent::DirCreated) => match utf8_text(
            joined(before.output_dir, "%(id)s.%(ext)s"@),
        ) {
            Some(template) => {
                &&& after == (AudioDownloadModel { stage: Stage::Describing, template, ..before })
                &&& action is Describe
                &&& texts(action->Describe_args@) == describe_args(before.url)
            },
            None => failed && fails_with(
                action,
                "output directory path contains invalid UTF-8"@,
            ),
        },
        (Stage::Describing, FetchEvent::Described { success, parsed }) => {
            &&& after == (AudioDownloadModel {
                stage: Stage::Fetching,
                title: if success && parsed is Some {
                    text_of(parsed->0.title)
                } else {
                    None
                },
                duration_bits: if success && parsed is Some {
                    parsed->0.duration_bits
                } else {
                    None
                },
                ..before
            })
            &&& action is Fetch
            &&& texts(action->Fetch_args@) == fetch_args(before.url, before.template)
        },
        (Stage::Fetching, FetchEvent::Fetched { success, stdout, stderr }) => if !success {
            failed && fails_with(
                action,
                "yt-dlp failed: "@ + truncated(stderr@, MAX_COMPLAINT_CHARS as nat),
            )
        } else if trimmed(stdout@).len() == 0 {
            unchanged && after.stage == Stage::Listing && action is List
        } else {
            &&& after == (AudioDownloadModel {
                stage: Stage::Resolving,
                candidate: Some(path_of(trimmed(stdout@))),
                ..before
            })
            &&& action == FetchAction::Resolve { path: path_of(trimmed(stdout@)) }
        },
        (Stage::Listing, FetchEvent::Listed { entries }) => if exists|k: int|
            is_latest_candidate(entries@, k) {
            let k = choose|k: int| is_latest_candidate(entries@, k);
            &&& after == (AudioDownloadModel {
                stage: Stage::Checking,
                candidate: Some(entries@[k].path),
                ..before
            })
            &&& action == FetchAction::Check { path: entries@[k].path }
        } else {
            failed && fails_with(action, "no audio file found after download"@)
        },
        (Stage::Resolving, FetchEvent::Resolved { canonical_path, canonical_dir }) => {
            if before.candidate is Some && lies_within(
                before.candidate->0,
                before.output_dir,
                canonical_path,
                canonical_dir,
            ) {
                unchanged && after.stage == Stage::Checking && action == FetchAction::Check {
                    path: before.candidate->0,
                }
            } else {
                failed && fails_with(
                    action,
                    "downloaded file path is outside the expected output directory"@,
                )
            }
        },
        (Stage::Checking, FetchEvent::Checked { exists }) => {
            if before.candidate is Some && exists {
                &&& unchanged
                &&& after.stage == Stage::Done
                &&& action is Finish
                &&& action->Finish_0.audio_path == before.candidate->0
                &&& text_of(action->Finish_0.title) == before.title
                &&& action->Finish_0.duration_bits == before.duration_bits
            } else {
                failed && fails_with(
                    action,
                    "downloaded file not found at "@ + (match before.candidate {
                        Some(p) => path_text(p),
                        None => Seq::empty(),
                    }),
                )
            }
        },
        _ => failed && fails_with(action, "download steps out of order"@),
    }
}

impl View for AudioDownload {
    type V = AudioDownloadModel;

    closed spec fn view(&self) -> AudioDownloadModel {
        AudioDownloadModel {
            stage: self.stage,
            url: self.url@,
            output_dir: self.output_dir,
            template: self.template@,
            title: text_of(self.title),
            duration_bits: self.duration_bits,
            candidate: self.candidate,
        }
    }
}

impl AudioDownload {
    /// In every download that is under way the URL is a web address.
    #[verifier::type_invariant]
    closed spec fn url_was_validated(&self) -> bool {
        self.stage != Stage::Failed ==> is_web_url(self.url@)
    }

    /// How far the download has come.
    pub fn stage(&self) -> (stage: Stage)
        ensures
            stage == self@.stage,
    {
        self.stage
    }

    /// Gives the download up with `error`.
    fn fail(self, error: Error) -> (r: (AudioDownload, FetchAction))
        ensures
            r.0@ == (AudioDownloadModel { stage: Stage::Failed, ..self@ }),
            r.1 == FetchAction::Fail(error),
    {
        let failed = AudioDownload {
            stage: Stage::Failed,
            url: self.url,
            output_dir: self.output_dir,
            template: self.template,
            title: self.title,
            duration_bits: self.duration_bits,
            candidate: self.candidate,
        };
        (failed, FetchAction::Fail(error))
    }

    /// Moves on to `stage` with nothing else changed.
    fn advance(self, stage: Stage) -> (r: AudioDownload)
        requires
            stage != Stage::Failed ==> self@.stage != Stage::Failed,
        ensures
            r@ == (AudioDownloadModel { stage, ..self@ }),
    {
        proof {
            use_type_invariant(&self);
        }
        AudioDownload {
            stage,
            url: self.url,
            output_dir: self.output_dir,
            template: self.template,
            title: self.title,
            duration_bits: self.duration_bits,
            candidate: self.candidate,
        }
    }

    /// Advances the download: from what the caller found out to the next
    /// thing to do.
    ///
    /// Whatever the events, nothing but giving up is ever asked for a URL
    /// that is no web address.
    pub fn step(self, event: FetchEvent) -> (r: (AudioDownload, FetchAction))
        ensures
            step_allows(self@, event, r.0@, r.1),
            !(r.1 is Fail) ==> is_web_url(self@.url),
    {
        proof {
            use_type_invariant(&self);
        }
        let stage = self.stage;
        match event {
            FetchEvent::Broken(e) => self.fail(e),
            FetchEvent::Probed { ran } => {
                if stage != Stage::Probing {
                    self.out_of_order()
                } else if ran {
                    (self.advance(Stage::Preparing), FetchAction::CreateDir)
                } else {
                    self.fail(Error::YtDlpNotFound)
                }
            },
            FetchEvent::DirCreated => {
                if stage != Stage::Preparing {
                    self.out_of_order()
                } else {
                    let pattern = join(&self.output_dir, "%(id)s.%(ext)s");
                    match path_to_str(&pattern) {
                        Some(template) => {
                            let args = make_describe_args(self.url.as_str());
                            let next = AudioDownload {
                                stage: Stage::Describing,
                                url: self.url,
                                output_dir: self.output_dir,
                                template,
                                title: self.title,
                                duration_bits: self.duration_bits,
                                candidate: self.candidate,
                            };
                            (next, FetchAction::Describe { args })
                        },
                        None => self.fail(
                            Error::Download(
                                String::from_str("output directory path contains invalid UTF-8"),
                            ),
                        ),
                    }
                }
            },
            FetchEvent::Described { success, parsed } => {
                if stage != Stage::Describing {
                    self.out_of_order()
                } else {
                    let args = make_fetch_args(self.url.as_str(), self.template.as_str());
                    let (title, duration_bits) = match parsed {
                        Some(info) => if success {
                            (info.title, info.duration_bits)
                        } else {
                            (None, None)
                        },
                        None => (None, None),
                    };
                    let next = AudioDownload {
                        stage: Stage::Fetching,
                        url: self.url,
                        output_dir: self.output_dir,
                        template: self.template,
                        title,
                        duration_bits,
                        candidate: self.candidate,
                    };
                    (next, FetchAction::Fetch { args })
                }
            },
            FetchEvent::Fetched { success, stdout, stderr } => {
                if stage != Stage::Fetching {
                    self.out_of_order()
                } else if !success {
                    let e = download_failure(stderr.as_str());
                    self.fail(e)
                } else {
                    let reported = trim(stdout.as_str());
                    if reported.is_empty() {
                        (self.advance(Stage::Listing), FetchAction::List)
                    } else {
                        let path = path_from(reported);
                        let next = AudioDownload {
                            stage: Stage::Resolving,
                            url: self.url,
                            output_dir: self.output_dir,
                            template: self.template,
                            title: self.title,
                            duration_bits: self.duration_bits,
                            candidate: Some(path.clone()),
                        };
                        (next, FetchAction::Resolve { path })
                    }
                }
            },
            FetchEvent::Listed { entries } => {
                if stage != Stage::Listing {
                    self.out_of_order()
                } else {
                    match find_audio_file(&entries) {
                        Ok(path) => {
                            proof {
                                lemma_latest_candidate(entries@);
                            }
                            let next = AudioDownload {
                                stage: Stage::Checking,
                                url: self.url,
                                output_dir: self.output_dir,
                                template: self.template,
                                title: self.title,
                                duration_bits: self.duration_bits,
                                candidate: Some(path.clone()),
                            };
                            (next, FetchAction::Check { path })
                        },
                        Err(e) => {
                            proof {
                                lemma_latest_candidate(entries@);
                            }
                            self.fail(e)
                        },
                    }
                }
            },
            FetchEvent::Resolved { canonical_path, canonical_dir } => {
                if stage != Stage::Resolving {
                    self.out_of_order()
                } else {
                    match &self.candidate {
                        Some(path) => {
                            let path = path.clone();
                            match validate_path_in_dir(
                                &path,
                                &self.output_dir,
                                &canonical_path,
                                &canonical_dir,
                            ) {
                                Ok(_) => (
                                    self.advance(Stage::Checking),
                                    FetchAction::Check { path },
                                ),
                                Err(e) => self.fail(e),
                            }
                        },
                        None => self.fail(
                            Error::Download(
                                String::from_str(
                                    "downloaded file path is outside the expected output directory",
                                ),
                            ),
                        ),
                    }
                }
            },
            FetchEvent::Checked { exists } => {
                if stage != Stage::Checking {
                    self.out_of_order()
                } else {
                    match &self.candidate {
                        Some(path) => {
                            let path = path.clone();
                            if exists {
                                let result = DownloadResult {
                                    audio_path: path,
                                    title: self.title.clone(),
                                    duration_bits: self.duration_bits,
                                };
                                (self.advance(Stage::Done), FetchAction::Finish(result))
                            } else {
                                let shown = path_display(&path);
                                self.fail(
                                    Error::Download(
                                        prefixed("downloaded file not found at ", shown.as_str()),
                                    ),
                                )
                            }
                        },
                        None => {
                            proof {
                                reveal_strlit("");
                            }
                            self.fail(Error::Download(prefixed("downloaded file not found at ", "")))
                        },
                    }
                }
            },
        }
    }

    /// Gives the download up because the event does not belong to the stage.
    fn out_of_order(self) -> (r: (AudioDownload, FetchAction))
        ensures
            r.0@ == (AudioDownloadModel { stage: Stage::Failed, ..self@ }),
            fails_with(r.1, "download steps out of order"@),
    {
        self.fail(Error::Download(String::from_str("download steps out of order")))
    }
}

/// Starts the download of the audio behind `url` into `output_dir`.
///
/// The URL is validated first: for anything but a web address the download
/// fails at once, and no program is ever run for it. Otherwise the caller
/// is asked to probe for the downloader, and goes on with
/// [`AudioDownload::step`] until it is told to finish or to fail.
pub fn download_audio(url: &str, output_dir: PathBuf) -> (r: (AudioDownload, FetchAction))
    ensures
        r.0@.url == url@,
        r.0@.output_dir == output_dir,
        r.0@.title is None && r.0@.duration_bits is None && r.0@.candidate is None,
        is_web_url(url@) ==> r.0@.stage == Stage::Probing && r.1 is Probe,
        !is_web_url(url@) ==> r.0@.stage == Stage::Failed && fails_with(
            r.1,
            "invalid URL (must start with http:// or https://): "@ + trimmed(url@),
        ),
{
    let checked = validate_url(url);
    let stage = match checked {
        Ok(_) => Stage::Probing,
        Err(_) => Stage::Failed,
    };
    let download = AudioDownload {
        stage,
        url: String::from_str(url),
        output_dir,
        template: String::new(),
        title: None,
        duration_bits: None,
        candidate: None,
    };
    match checked {
        Ok(_) => (download, FetchAction::Probe),
        Err(e) => (download, FetchAction::Fail(e)),
    }
}

/// Among the entries of a directory at most one is the latest candidate,
/// and there is one as soon as there is a candidate.
pub proof fn lemma_latest_candidate(entries: Seq<DirEntryInfo>)
    ensures
        forall|a: int, b: int|
            is_latest_candidate(entries, a) && is_latest_candidate(entries, b) ==> a == b,
        (exists|j: int| 0 <= j < entries.len() && (#[trigger] entries[j]).is_candidate()) ==> (
        exists|k: int| is_latest_candidate(entries, k)),
    decreases entries.len(),
{
    if exists|j: int| 0 <= j < entries.len() && (#[trigger] entries[j]).is_candidate() {
        let shorter = entries.drop_last();
        let last = entries.len() - 1;
        lemma_latest_candidate(shorter);
        if exists|j: int| 0 <= j < shorter.len() && (#[trigger] shorter[j]).is_candidate() {
            let k = choose|k: int| is_latest_candidate(shorter, k);
            if entries[last].is_candidate() && entries[last].modified->0 > shorter[k].modified->0 {
                assert forall|j: int|
                    0 <= j < entries.len() && (#[trigger] entries[j]).is_candidate() implies entries[j].modified->0
                    <= entries[last].modified->0 by {
                    if j < last {
                        assert(shorter[j].is_candidate());
                    }
                }
                assert forall|j: int|
                    0 <= j < last && (#[trigger] entries[j]).is_candidate() implies entries[j].modified->0
                    < entries[last].modified->0 by {
                    assert(shorter[j].is_candidate());
                }
                assert(is_latest_candidate(entries, last));
            } else {
                assert forall|j: int|
                    0 <= j < entries.len() && (#[trigger] entries[j]).is_candidate() implies entries[j].modified->0
                    <= entries[k].modified->0 by {
                    if j < last {
                        assert(shorter[j].is_candidate());
                    }
                }
                assert forall|j: int|
                    0 <= j < k && (#[trigger] entries[j]).is_candidate() implies entries[j].modified->0
                    < entries[k].modified->0 by {
                    assert(shorter[j].is_candidate());
                }
                assert(is_latest_candidate(entries, k));
            }
        } else {
            let j = choose|j: int| 0 <= j < entries.len() && (#[trigger] entries[j]).is_candidate();
            assert forall|i: int|
                0 <= i < last implies !(#[trigger] entries[i]).is_candidate() by {
                assert(shorter[i] == entries[i]);
            }
            assert(is_latest_candidate(entries, last));
        }
    }
}

} // verus!
