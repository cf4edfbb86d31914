//! The model cache: where a model's file is, whether it has to be fetched,
//! and the protocol that keeps a download from ever leaving a partial file
//! in the cache.
//!
//! Nothing here touches the disk or the network. The caller checks whether
//! a path exists, performs each [`DownloadAction`], and reports what
//! happened as a [`DownloadEvent`].

use crate::config::Model;
use crate::error::path_display;
use crate::error::prefixed;
use crate::error::Error;
use crate::paths::extension;
use crate::paths::extension_text;
use crate::paths::join;
use crate::paths::joined;
use crate::paths::path_text;
use crate::paths::replace_extension;
use crate::paths::with_extension;
use crate::text::decimal;
use crate::text::lemma_decimal_digits;
use crate::text::lemma_decimal_injective;
use crate::text::push_digits;
use crate::text::text_eq;
use std::path::PathBuf;
use vstd::prelude::*;

verus! {

/// Where named models are fetched from.
pub const HUGGINGFACE_BASE: &'static str = "https://huggingface.co/ggerganov/whisper.cpp/resolve/main";

/// No model file may be larger than this many bytes.
pub const MAX_MODEL_BYTES: u64 = 5_000_000_000;

/// A downloaded file smaller than this many bytes is no model.
pub const MIN_MODEL_BYTES: u64 = 1_000_000;

/// The one path whose existence decides how `model` is obtained: the
/// custom file itself, or the canonical file name under the cache directory.
pub open spec fn model_location(model: Model, cache_dir: PathBuf) -> PathBuf {
    match model {
        Model::Custom(path) => path,
        _ => joined(cache_dir, model.filename_text()),
    }
}

/// The address of a model file on the artifact host.
pub open spec fn url_of(filename: Seq<char>) -> Seq<char> {
    HUGGINGFACE_BASE@ + "/"@ + filename
}

/// The path whose existence decides how `model` is obtained.
pub fn model_path(model: &Model, cache_dir: &PathBuf) -> (path: PathBuf)
    ensures
        path == model_location(*model, *cache_dir),
{
    match model {
        Model::Custom(path) => path.clone(),
        _ => {
            let filename = model.filename();
            join(cache_dir, filename.as_str())
        },
    }
}

/// The address from which the model file `filename` is fetched.
pub fn model_url(filename: &str) -> (url: String)
    ensures
        url@ == url_of(filename@),
{
    let mut url = String::from_str(HUGGINGFACE_BASE);
    url.append("/");
    url.append(filename);
    url
}

/// How a model is made available.
#[derive(Debug)]
pub enum ModelPlan {
    /// The file is there: use it. Nothing is fetched.
    Ready(PathBuf),
    /// A named model that is not cached yet: make sure the cache directory
    /// exists, then download `url` to `dest`.
    Fetch { url: String, dest: PathBuf },
}

/// Decides how `model` is made available, given whether the file at
/// `model_path(model, cache_dir)` exists.
///
/// A file that exists is used as it is, without any download. A custom
/// model that does not exist is an error; a named one is fetched.
pub fn ensure_model(model: &Model, cache_dir: &PathBuf, exists: bool) -> (r: Result<
    ModelPlan,
    Error,
>)
    ensures
        exists ==> r == Ok::<ModelPlan, Error>(
            ModelPlan::Ready(model_location(*model, *cache_dir)),
        ),
        !exists && *model is Custom ==> r == Err::<ModelPlan, Error>(
            Error::ModelNotFound { path: model->Custom_0 },
        ),
        !exists && !(*model is Custom) ==> (r matches Ok(ModelPlan::Fetch { url, dest }) && url@
            == url_of(model.filename_text()) && dest == model_location(*model, *cache_dir)),
{
    let path = model_path(model, cache_dir);
    if exists {
        Ok(ModelPlan::Ready(path))
    } else {
        match model {
            Model::Custom(_) => Err(Error::ModelNotFound { path }),
            _ => {
                let filename = model.filename();
                Ok(ModelPlan::Fetch { url: model_url(filename.as_str()), dest: path })
            },
        }
    }
}

/// The error for a cache directory that could not be created, from the
/// text of the operating system's complaint.
pub fn cache_dir_failure(cache_dir: &PathBuf, complaint: &str) -> (e: Error)
    ensures
        e matches Error::Model(m) && m@ == "failed to create cache dir "@ + path_text(*cache_dir)
            + ": "@ + complaint@,
{
    let shown = path_display(cache_dir);
    let mut m = prefixed("failed to create cache dir ", shown.as_str());
    m.append(": ");
    m.append(complaint);
    Error::Model(m)
}

/// The error for a response with an error status, from the client's text.
pub fn http_status_failure(complaint: &str) -> (e: Error)
    ensures
        e matches Error::ModelDownload(m) && m@ == "HTTP error: "@ + complaint@,
{
    Error::ModelDownload(prefixed("HTTP error: ", complaint))
}

/// The extension that marks the temporary file of the process `pid`.
pub open spec fn temp_extension(pid: u32) -> Seq<char> {
    "bin.part."@ + decimal(pid as nat)
}

/// The temporary file into which the process `pid` downloads the model that
/// is to end up at `dest`: `dest` with its extension replaced by
/// `bin.part.` and the process identifier.
pub fn temp_path(dest: &PathBuf, pid: u32) -> (path: PathBuf)
    ensures
        path == with_extension(*dest, temp_extension(pid)),
{
    let mut ext = String::from_str("bin.part.");
    push_digits(&mut ext, pid as u64);
    proof {
        reveal_strlit("bin.part.");
        lemma_decimal_digits(pid as nat);
    }
    replace_extension(dest, ext.as_str())
}

/// Two processes never download into the same temporary extension, so
/// that concurrent downloads of one model write different files.
pub proof fn temp_extensions_differ(pid: u32, other: u32)
    requires
        pid != other,
    ensures
        temp_extension(pid) != temp_extension(other),
{
    if temp_extension(pid) == temp_extension(other) {
        let prefix = "bin.part."@;
        assert((prefix + decimal(pid as nat)).skip(prefix.len() as int) =~= decimal(pid as nat));
        assert((prefix + decimal(other as nat)).skip(prefix.len() as int) =~= decimal(
            other as nat,
        ));
        lemma_decimal_injective(pid as nat, other as nat);
    }
}

/// Why a download was given up.
#[derive(Debug, Clone, Copy, PartialEq, Eq, Structural)]
pub enum Rejection {
    /// The advertised length is over the limit.
    TooLarge { advertised: u64 },
    /// More bytes arrived than the limit allows.
    Exceeded,
    /// The file is too small to be a model.
    TooSmall { size: u64 },
    /// The file does not have the advertised length.
    SizeMismatch { expected: u64, size: u64 },
    /// The transport or the file system failed; the caller holds the error.
    Broken,
    /// An event arrived that the state does not expect.
    OutOfOrder,
}

/// Where a download stands.
#[derive(Debug, Clone, Copy, PartialEq, Eq, Structural)]
pub enum DownloadState {
    /// The request is out; nothing is on disk.
    Requested,
    /// The temporary file exists and holds `written` bytes.
    Streaming { advertised: u64, written: u64 },
    /// The stream has ended; the size of the temporary file is awaited.
    Written { advertised: u64 },
    /// The temporary file passed the checks and is being renamed.
    Verified,
    /// The model is in the cache.
    Done,
    /// The download was given up.
    Failed,
}

/// What happened since the last step.
#[derive(Debug, Clone, Copy, PartialEq, Eq, Structural)]
pub enum DownloadEvent {
    /// The response arrived, with the content length it advertises, if any.
    Response { content_length: Option<u64> },
    /// A chunk of `len` bytes arrived and is not written yet.
    Chunk { len: usize },
    /// The stream ended.
    EndOfStream,
    /// The temporary file is flushed and closed and has `size` bytes.
    Flushed { size: u64 },
    /// The temporary file was renamed to its final path.
    Renamed,
    /// The transport or the file system failed.
    Broken,
}

/// What the caller is to do next.
///
/// Once a download is done it stays done: whatever is reported then, the
/// answer is to finish.
#[derive(Debug, Clone, Copy, PartialEq, Eq, Structural)]
pub enum DownloadAction {
    /// Create the temporary file and read the stream.
    CreateTemp,
    /// Append the chunk to the temporary file; `progress` bytes have arrived.
    Write { progress: u64 },
    /// Flush and close the temporary file and take its size.
    Flush,
    /// Rename the temporary file to the final path.
    Rename,
    /// The model is cached: nothing is left to clean up.
    Finish,
    /// Remove the temporary file if there is one, and report the failure.
    Abort(Rejection),
}

impl DownloadState {
    /// Whether a temporary file may be on disk in this state.
    pub open spec fn holds_temp_file(self) -> bool {
        self is Streaming || self is Written || self is Verified
    }

    /// What holds of every state that a run can reach: neither the
    /// advertised length nor the bytes written are over the limit.
    pub open spec fn within_limits(self) -> bool {
        match self {
            DownloadState::Streaming { advertised, written } => advertised <= MAX_MODEL_BYTES
                && written <= MAX_MODEL_BYTES,
            DownloadState::Written { advertised } => advertised <= MAX_MODEL_BYTES,
            _ => true,
        }
    }
}

/// The next state and the action, for `state` and `event`.
pub open spec fn step_of(state: DownloadState, event: DownloadEvent) -> (
    DownloadState,
    DownloadAction,
) {
    match (state, event) {
        (DownloadState::Done, _) => (DownloadState::Done, DownloadAction::Finish),
        (DownloadState::Requested, DownloadEvent::Response { content_length }) => {
            let advertised = match content_length {
                Some(n) => n,
                None => 0,
            };
            if advertised > MAX_MODEL_BYTES {
                (DownloadState::Failed, DownloadAction::Abort(Rejection::TooLarge { advertised }))
            } else {
                (DownloadState::Streaming { advertised, written: 0 }, DownloadAction::CreateTemp)
            }
        },
        (DownloadState::Streaming { advertised, written }, DownloadEvent::Chunk { len }) => {
            if written + len > MAX_MODEL_BYTES {
                (DownloadState::Failed, DownloadAction::Abort(Rejection::Exceeded))
            } else {
                (
                    DownloadState::Streaming { advertised, written: (written + len) as u64 },
                    DownloadAction::Write { progress: (written + len) as u64 },
                )
            }
        },
        (DownloadState::Streaming { advertised, written }, DownloadEvent::EndOfStream) => (
            DownloadState::Written { advertised },
            DownloadAction::Flush,
        ),
        (DownloadState::Written { advertised }, DownloadEvent::Flushed { size }) => {
            if size < MIN_MODEL_BYTES {
                (DownloadState::Failed, DownloadAction::Abort(Rejection::TooSmall { size }))
            } else if advertised > 0 && size != advertised {
                (
                    DownloadState::Failed,
                    DownloadAction::Abort(Rejection::SizeMismatch { expected: advertised, size }),
                )
            } else {
                (DownloadState::Verified, DownloadAction::Rename)
            }
        },
        (DownloadState::Verified, DownloadEvent::Renamed) => (
            DownloadState::Done,
            DownloadAction::Finish,
        ),
        (_, DownloadEvent::Broken) => (
            DownloadState::Failed,
            DownloadAction::Abort(Rejection::Broken),
        ),
        _ => (DownloadState::Failed, DownloadAction::Abort(Rejection::OutOfOrder)),
    }
}

/// Advances a download: from the state and what happened to the next
/// state and what to do.
pub fn step(state: DownloadState, event: DownloadEvent) -> (r: (DownloadState, DownloadAction))
    ensures
        r == step_of(state, event),
{
    if let DownloadState::Done = state {
        return (DownloadState::Done, DownloadAction::Finish);
    }
    match event {
        DownloadEvent::Broken => (DownloadState::Failed, DownloadAction::Abort(Rejection::Broken)),
        DownloadEvent::Response { content_length } => match state {
            DownloadState::Requested => {
                let advertised: u64 = match content_length {
                    Some(n) => n,
                    None => 0,
                };
                if advertised > MAX_MODEL_BYTES {
                    (
                        DownloadState::Failed,
                        DownloadAction::Abort(Rejection::TooLarge { advertised }),
                    )
                } else {
                    (
                        DownloadState::Streaming { advertised, written: 0 },
                        DownloadAction::CreateTemp,
                    )
                }
            },
            _ => (DownloadState::Failed, DownloadAction::Abort(Rejection::OutOfOrder)),
        },
        DownloadEvent::Chunk { len } => match state {
            DownloadState::Streaming { advertised, written } => {
                if written > MAX_MODEL_BYTES || len as u64 > MAX_MODEL_BYTES - written {
                    (DownloadState::Failed, DownloadAction::Abort(Rejection::Exceeded))
                } else {
                    let total: u64 = written + len as u64;
                    (
                        DownloadState::Streaming { advertised, written: total },
                        DownloadAction::Write { progress: total },
                    )
                }
            },
            _ => (DownloadState::Failed, DownloadAction::Abort(Rejection::OutOfOrder)),
        },
        DownloadEvent::EndOfStream => match state {
            DownloadState::Streaming { advertised, written } => (
                DownloadState::Written { advertised },
                DownloadAction::Flush,
            ),
            _ => (DownloadState::Failed, DownloadAction::Abort(Rejection::OutOfOrder)),
        },
        DownloadEvent::Flushed { size } => match state {
            DownloadState::Written { advertised } => {
                if size < MIN_MODEL_BYTES {
                    (DownloadState::Failed, DownloadAction::Abort(Rejection::TooSmall { size }))
                } else if advertised > 0 && size != advertised {
                    (
                        DownloadState::Failed,
                        DownloadAction::Abort(
                            Rejection::SizeMismatch { expected: advertised, size },
                        ),
                    )
                } else {
                    (DownloadState::Verified, DownloadAction::Rename)
                }
            },
            _ => (DownloadState::Failed, DownloadAction::Abort(Rejection::OutOfOrder)),
        },
        DownloadEvent::Renamed => match state {
            DownloadState::Verified => (DownloadState::Done, DownloadAction::Finish),
            _ => (DownloadState::Failed, DownloadAction::Abort(Rejection::OutOfOrder)),
        },
    }
}

/// A response that advertises more than the limit is rejected while
/// nothing is on disk: the temporary file is created only for a length
/// within the limit.
pub proof fn oversized_response_is_rejected(content_length: Option<u64>)
    ensures
        ({
            let (next, action) = step_of(
                DownloadState::Requested,
                DownloadEvent::Response { content_length },
            );
            let over = content_length matches Some(n) && n > MAX_MODEL_BYTES;
            &&& !DownloadState::Requested.holds_temp_file()
            &&& over ==> action == DownloadAction::Abort(
                Rejection::TooLarge { advertised: content_length->0 },
            ) && next == DownloadState::Failed
            &&& !over ==> action == DownloadAction::CreateTemp
        }),
{
}

/// Whatever the server sends, the bytes written never pass the limit: each
/// step keeps a state within the limits within them, and a chunk is
/// written only where the total stays within the limit.
pub proof fn written_bytes_stay_within_limit(state: DownloadState, event: DownloadEvent)
    requires
        state.within_limits(),
    ensures
        step_of(state, event).0.within_limits(),
        step_of(state, event).1 matches DownloadAction::Write { progress } ==> progress
            <= MAX_MODEL_BYTES,
{
}

/// The temporary file is renamed into the cache only after its size was
/// found to be at least the minimum and, where a length was advertised,
/// equal to it.
pub proof fn rename_only_after_verification(state: DownloadState, event: DownloadEvent)
    ensures
        step_of(state, event).1 == DownloadAction::Rename ==> (state matches DownloadState::Written {
            advertised,
        } && event matches DownloadEvent::Flushed { size } && size >= MIN_MODEL_BYTES && (
        advertised == 0 || size == advertised)),
        step_of(state, event).0 is Done ==> (state is Verified && event is Renamed) || state is Done,
{
}

/// A file under the minimum size is rejected and not moved into the cache.
pub proof fn undersized_file_is_rejected(advertised: u64, size: u64)
    requires
        size < MIN_MODEL_BYTES,
    ensures
        step_of(DownloadState::Written { advertised }, DownloadEvent::Flushed { size }) == (
            DownloadState::Failed,
            DownloadAction::Abort(Rejection::TooSmall { size }),
        ),
{
}

/// Every rejection ends the download in the failed state, in which no
/// temporary file is kept, and the action that reports it is the one that
/// removes the file; only a completed rename ends it otherwise.
pub proof fn rejection_leaves_no_temp_file(state: DownloadState, event: DownloadEvent)
    ensures
        step_of(state, event).1 is Abort <==> step_of(state, event).0 is Failed,
        step_of(state, event).0 is Failed ==> !step_of(state, event).0.holds_temp_file(),
        step_of(state, event).1 is Finish <==> step_of(state, event).0 is Done,
        !DownloadState::Done.holds_temp_file(),
{
}

impl Rejection {
    /// The text that reports this rejection, where the library words it.
    pub open spec fn message(self) -> Seq<char> {
        match self {
            Rejection::TooLarge { advertised } => "model file too large ("@ + decimal(
                advertised as nat,
            ) + " bytes, max "@ + decimal(MAX_MODEL_BYTES as nat) + ")"@,
            Rejection::Exceeded => "download exceeded max size ("@ + decimal(
                MAX_MODEL_BYTES as nat,
            ) + " bytes)"@,
            Rejection::TooSmall { size } => "downloaded file too small ("@ + decimal(size as nat)
                + " bytes) — likely an error page"@,
            Rejection::SizeMismatch { expected, size } => "file size mismatch (expected "@
                + decimal(expected as nat) + " bytes, got "@ + decimal(size as nat)
                + ") — download may be corrupt"@,
            Rejection::Broken => "transfer failed"@,
            Rejection::OutOfOrder => "download steps out of order"@,
        }
    }

    /// The error that reports this rejection: a failed model download.
    pub fn to_error(&self) -> (e: Error)
        ensures
            e matches Error::ModelDownload(m) && m@ == self.message(),
    {
        let mut m = String::new();
        match self {
            Rejection::TooLarge { advertised } => {
                m.append("model file too large (");
                push_digits(&mut m, *advertised);
                m.append(" bytes, max ");
                push_digits(&mut m, MAX_MODEL_BYTES);
                m.append(")");
            },
            Rejection::Exceeded => {
                m.append("download exceeded max size (");
                push_digits(&mut m, MAX_MODEL_BYTES);
                m.append(" bytes)");
            },
            Rejection::TooSmall { size } => {
                m.append("downloaded file too small (");
                push_digits(&mut m, *size);
                m.append(" bytes) — likely an error page");
            },
            Rejection::SizeMismatch { expected, size } => {
                m.append("file size mismatch (expected ");
                push_digits(&mut m, *expected);
                m.append(" bytes, got ");
                push_digits(&mut m, *size);
                m.append(") — download may be corrupt");
            },
            Rejection::Broken => {
                m.append("transfer failed");
            },
            Rejection::OutOfOrder => {
                m.append("download steps out of order");
            },
        }
        Error::ModelDownload(m)
    }
}

/// The cleanup token of a download: while armed, the temporary file at
/// `path` is removed when the download is left.
#[derive(Debug)]
pub struct PartFileGuard {
    pub path: PathBuf,
    pub armed: bool,
}

impl PartFileGuard {
    /// An armed guard for the temporary file at `path`.
    pub fn new(path: PathBuf) -> (guard: PartFileGuard)
        ensures
            guard.path == path,
            guard.armed,
    {
        PartFileGuard { path, armed: true }
    }

    /// Disarms the guard: the file has been moved into the cache and stays.
    pub fn disarm(&mut self)
        ensures
            !final(self).armed,
            final(self).path == old(self).path,
    {
        self.armed = false;
    }

    /// Whether the file is to be removed when the guard is dropped: the
    /// guard is armed and the file exists.
    pub fn must_remove(&self, exists: bool) -> (r: bool)
        ensures
            r == (self.armed && exists),
    {
        self.armed && exists
    }
}

/// The mathematical value of a [`ModelDownload`].
pub struct ModelDownloadModel {
    pub state: DownloadState,
    /// Where the model is to end up.
    pub dest: PathBuf,
    /// The temporary file of this download.
    pub temp: PathBuf,
    /// Whether the temporary file is removed when the download is left.
    pub armed: bool,
}

/// One download of a model into the cache: the state of the protocol
/// together with the guard of its temporary file.
#[derive(Debug)]
pub struct ModelDownload {
    state: DownloadState,
    dest: PathBuf,
    guard: PartFileGuard,
}

impl View for ModelDownload {
    type V = ModelDownloadModel;

    closed spec fn view(&self) -> ModelDownloadModel {
        ModelDownloadModel {
            state: self.state,
            dest: self.dest,
            temp: self.guard.path,
            armed: self.guard.armed,
        }
    }
}

/// Starts the download of a model to `dest` in the process `pid`, once the
/// request is out: nothing is on disk, and the guard is armed for the
/// temporary file of this process.
pub fn download_model(dest: PathBuf, pid: u32) -> (download: ModelDownload)
    ensures
        download@ == (ModelDownloadModel {
            state: DownloadState::Requested,
            dest,
            temp: with_extension(dest, temp_extension(pid)),
            armed: true,
        }),
{
    let guard = PartFileGuard::new(temp_path(&dest, pid));
    ModelDownload { state: DownloadState::Requested, dest, guard }
}

impl ModelDownload {
    /// In every download the limits hold, and the guard is armed until
    /// the model is in the cache.
    #[verifier::type_invariant]
    closed spec fn guarded(&self) -> bool {
        &&& self.state.within_limits()
        &&& self.guard.armed == !(self.state is Done)
    }

    /// Advances the download as [`step`] does, and disarms the guard once
    /// the temporary file has become the cached model.
    ///
    /// Whatever the events, the bytes written stay within the limit, and
    /// the guard stays armed unless the download is done: a download that
    /// is given up never leaves its temporary file behind.
    pub fn step(self, event: DownloadEvent) -> (r: (ModelDownload, DownloadAction))
        ensures
            (r.0@.state, r.1) == step_of(self@.state, event),
            r.0@.dest == self@.dest,
            r.0@.temp == self@.temp,
            r.0@.armed == !(r.0@.state is Done),
            self@.state.within_limits() && r.0@.state.within_limits(),
            self@.armed == !(self@.state is Done),
    {
        proof {
            use_type_invariant(&self);
        }
        let (state, action) = step(self.state, event);
        let mut guard = self.guard;
        if let DownloadState::Done = state {
            guard.disarm();
        }
        (ModelDownload { state, dest: self.dest, guard }, action)
    }

    /// Where the download stands.
    pub fn state(&self) -> (state: DownloadState)
        ensures
            state == self@.state,
    {
        self.state
    }

    /// The temporary file of this download.
    pub fn temp_path(&self) -> (path: &PathBuf)
        ensures
            *path == self@.temp,
    {
        &self.guard.path
    }

    /// Where the model is to end up.
    pub fn dest(&self) -> (path: &PathBuf)
        ensures
            *path == self@.dest,
    {
        &self.dest
    }

    /// Whether the temporary file is to be removed when the download is
    /// left, given whether it exists: always, unless the download is done.
    pub fn must_remove(&self, exists: bool) -> (r: bool)
        ensures
            r == (exists && !(self@.state is Done)),
    {
        proof {
            use_type_invariant(self);
        }
        self.guard.must_remove(exists)
    }
}

/// Whether `path` is a cached model: its extension is `bin`.
pub open spec fn is_model_file(path: PathBuf) -> bool {
    extension_text(path) == Some("bin"@)
}

/// The cached models among the entries of the cache directory, in the
/// order in which they were listed.
pub fn list_cached_models(entries: &Vec<PathBuf>) -> (models: Vec<PathBuf>)
    ensures
        models@ == entries@.filter(|p: PathBuf| is_model_file(p)),
{
    let mut models: Vec<PathBuf> = Vec::new();
    let mut i: usize = 0;
    while i < entries.len()
        invariant
            i <= entries@.len(),
            models@ == entries@.subrange(0, i as int).filter(|p: PathBuf| is_model_file(p)),
        decreases entries@.len() - i,
    {
        let keep = match extension(&entries[i]) {
            Some(ext) => text_eq(ext.as_str(), "bin"),
            None => false,
        };
        proof {
            reveal(Seq::filter);
            assert(entries@.subrange(0, i + 1).drop_last() =~= entries@.subrange(0, i as int));
        }
        if keep {
            models.push(entries[i].clone());
        }
        i = i + 1;
    }
    proof {
        assert(entries@.subrange(0, i as int) =~= entries@);
    }
    models
}

} // verus!
