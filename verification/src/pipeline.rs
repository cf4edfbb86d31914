//! The two entry points of the pipeline, transcribing a local file and
//! transcribing what a URL leads to, as the order of their stages.
//!
//! Each stage is work of its own that the caller carries out with the rest
//! of this library: downloading the audio, loading it, making the model
//! available, running the engine. Here is what comes after what, what each
//! stage is handed, and that the first failure ends the run.

use crate::config::TranscribeOptions;
use crate::download::DownloadResult;
use crate::error::Error;
use crate::types::text_of;
use crate::types::Transcript;
use crate::types::TranscriptModel;
use std::path::PathBuf;
use vstd::prelude::*;

verus! {

/// How far a run has come.
#[derive(Debug, Clone, Copy, PartialEq, Eq, Structural)]
pub enum PipelineStage {
    /// The audio behind the URL is being downloaded.
    Downloading,
    /// The audio file is being decoded and processed.
    Loading,
    /// The model is being made available.
    Resolving,
    /// The engine is running.
    Transcribing,
    /// The transcript is there.
    Done,
    /// The run was given up.
    Failed,
}

/// How a stage ended.
#[derive(Debug)]
pub enum PipelineEvent {
    /// The download ended with the audio file, or failed.
    Downloaded(Result<DownloadResult, Error>),
    /// The audio is loaded, or could not be.
    Loaded(Result<(), Error>),
    /// The model is available at this path, or is not.
    ModelReady(Result<PathBuf, Error>),
    /// The engine ran and the transcript of its output is this, or it failed.
    Transcribed(Result<Transcript, Error>),
}

/// What the caller is to do next.
#[derive(Debug)]
pub enum PipelineAction {
    /// Download the audio behind `url` into a temporary directory that is
    /// removed when the run ends, however it ends.
    Download { url: String },
    /// Load the audio file at `path`.
    Load { path: PathBuf },
    /// Make the model of the options available, cached under `cache_dir`.
    EnsureModel { cache_dir: PathBuf },
    /// Run the engine with the model at `model_path` over the loaded samples.
    Transcribe { model_path: PathBuf },
    /// Finished: this is the transcript.
    Finish(Transcript),
    /// Give up and report the error.
    Fail(Error),
}

/// The mathematical value of a [`Pipeline`].
pub struct PipelineModel {
    pub stage: PipelineStage,
    pub options: TranscribeOptions,
    /// The URL of a run that began with one.
    pub url: Option<Seq<char>>,
    /// The title that the downloader gave, if any.
    pub title: Option<Seq<char>>,
}

/// One run of the pipeline.
#[derive(Debug)]
pub struct Pipeline {
    stage: PipelineStage,
    options: TranscribeOptions,
    url: Option<String>,
    title: Option<String>,
}

impl View for Pipeline {
    type V = PipelineModel;

    closed spec fn view(&self) -> PipelineModel {
        PipelineModel {
            stage: self.stage,
            options: self.options,
            url: text_of(self.url),
            title: text_of(self.title),
        }
    }
}

/// The transcript that a run hands out: as the engine's stage gave it for
/// a file, with the URL and the title attached for a URL.
pub open spec fn finished(run: PipelineModel, transcript: TranscriptModel) -> TranscriptModel {
    match run.url {
        Some(url) => TranscriptModel {
            source_url: Some(url),
            source_title: run.title,
            ..transcript
        },
        None => transcript,
    }
}

/// Whether `action` makes the model available under a cache directory
/// that the options resolve to: the configured one, or the default under
/// some platform directory.
pub open spec fn resolves_cache(action: PipelineAction, options: TranscribeOptions) -> bool {
    &&& action is EnsureModel
    &&& match options.cache_dir {
        Some(dir) => action->cache_dir == dir,
        None => exists|platform: Option<PathBuf>|
            action->cache_dir == crate::config::default_cache_dir(platform),
    }
}

/// Whether `action` gives up because an event came out of order.
pub open spec fn is_out_of_order(action: PipelineAction) -> bool {
    action matches PipelineAction::Fail(Error::Transcription(m)) && m@
        == "pipeline stages out of order"@
}

/// What a step may do, given the run before it and the event: the run
/// after it and the action.
pub open spec fn pipeline_step_allows(
    before: PipelineModel,
    event: PipelineEvent,
    after: PipelineModel,
    action: PipelineAction,
) -> bool {
    let moved = after == (PipelineModel { stage: after.stage, ..before });
    let failed = after == (PipelineModel { stage: PipelineStage::Failed, ..before });
    match (before.stage, event) {
        (PipelineStage::Downloading, PipelineEvent::Downloaded(Ok(result))) => {
            &&& after == (PipelineModel {
                stage: PipelineStage::Loading,
                title: text_of(result.title),
                ..before
            })
            &&& action == PipelineAction::Load { path: result.audio_path }
        },
        (PipelineStage::Downloading, PipelineEvent::Downloaded(Err(e))) => failed && action
            == PipelineAction::Fail(e),
        (PipelineStage::Loading, PipelineEvent::Loaded(Ok(_))) => {
            &&& moved
            &&& after.stage == PipelineStage::Resolving
            &&& resolves_cache(action, before.options)
        },
        (PipelineStage::Loading, PipelineEvent::Loaded(Err(e))) => failed && action
            == PipelineAction::Fail(e),
        (PipelineStage::Resolving, PipelineEvent::ModelReady(Ok(model_path))) => {
            &&& moved
            &&& after.stage == PipelineStage::Transcribing
            &&& action == PipelineAction::Transcribe { model_path }
        },
        (PipelineStage::Resolving, PipelineEvent::ModelReady(Err(e))) => failed && action
            == PipelineAction::Fail(e),
        (PipelineStage::Transcribing, PipelineEvent::Transcribed(Ok(transcript))) => {
            &&& moved
            &&& after.stage == PipelineStage::Done
            &&& action is Finish
            &&& action->Finish_0@ == finished(before, transcript@)
        },
        (PipelineStage::Transcribing, PipelineEvent::Transcribed(Err(e))) => failed && action
            == PipelineAction::Fail(e),
        _ => failed && is_out_of_order(action),
    }
}

/// Transcribes a local audio or video file with the default options.
pub fn transcribe_file(path: PathBuf) -> (r: (Pipeline, PipelineAction))
    ensures
        r.0@ == (PipelineModel {
            stage: PipelineStage::Loading,
            options: TranscribeOptions::initial(),
            url: None,
            title: None,
        }),
        r.1 == (PipelineAction::Load { path }),
{
    transcribe_file_with_options(path, TranscribeOptions::new())
}

/// Transcribes a local audio or video file: the run begins with loading it.
pub fn transcribe_file_with_options(path: PathBuf, options: TranscribeOptions) -> (r: (
    Pipeline,
    PipelineAction,
))
    ensures
        r.0@ == (PipelineModel { stage: PipelineStage::Loading, options, url: None, title: None }),
        r.1 == (PipelineAction::Load { path }),
{
    let run = Pipeline { stage: PipelineStage::Loading, options, url: None, title: None };
    (run, PipelineAction::Load { path })
}

/// Transcribes what a URL leads to, with the default options.
pub fn transcribe(url: &str) -> (r: (Pipeline, PipelineAction))
    ensures
        r.0@ == (PipelineModel {
            stage: PipelineStage::Downloading,
            options: TranscribeOptions::initial(),
            url: Some(url@),
            title: None,
        }),
        r.1 matches PipelineAction::Download { url: u } && u@ == url@,
{
    transcribe_with_options(url, TranscribeOptions::new())
}

/// Transcribes what a URL leads to: the run begins with downloading the
/// audio, and the transcript carries the URL and the title.
pub fn transcribe_with_options(url: &str, options: TranscribeOptions) -> (r: (
    Pipeline,
    PipelineAction,
))
    ensures
        r.0@ == (PipelineModel {
            stage: PipelineStage::Downloading,
            options,
            url: Some(url@),
            title: None,
        }),
        r.1 matches PipelineAction::Download { url: u } && u@ == url@,
{
    let run = Pipeline {
        stage: PipelineStage::Downloading,
        options,
        url: Some(String::from_str(url)),
        title: None,
    };
    (run, PipelineAction::Download { url: String::from_str(url) })
}

impl Pipeline {
    /// How far the run has come.
    pub fn stage(&self) -> (stage: PipelineStage)
        ensures
            stage == self@.stage,
    {
        self.stage
    }

    /// The options of the run.
    pub fn options(&self) -> (options: &TranscribeOptions)
        ensures
            *options == self@.options,
    {
        &self.options
    }

    /// Gives the run up with `error`.
    fn fail(self, error: Error) -> (r: (Pipeline, PipelineAction))
        ensures
            r.0@ == (PipelineModel { stage: PipelineStage::Failed, ..self@ }),
            r.1 == PipelineAction::Fail(error),
    {
        let failed = Pipeline {
            stage: PipelineStage::Failed,
            options: self.options,
            url: self.url,
            title: self.title,
        };
        (failed, PipelineAction::Fail(error))
    }

    /// Moves on to `stage` with nothing else changed.
    fn advance(self, stage: PipelineStage) -> (r: Pipeline)
        ensures
            r@ == (PipelineModel { stage, ..self@ }),
    {
        Pipeline { stage, options: self.options, url: self.url, title: self.title }
    }

    /// Gives the run up because the event does not belong to the stage.
    fn out_of_order(self) -> (r: (Pipeline, PipelineAction))
        ensures
            r.0@ == (PipelineModel { stage: PipelineStage::Failed, ..self@ }),
            is_out_of_order(r.1),
    {
        self.fail(Error::Transcription(String::from_str("pipeline stages out of order")))
    }

    /// Advances the run: from how a stage ended to the next stage.
    ///
    /// The stages follow each other in a fixed order: download, for a URL;
    /// load; model; engine. A stage that failed ends the run with its error.
    pub fn step(self, event: PipelineEvent) -> (r: (Pipeline, PipelineAction))
        ensures
            pipeline_step_allows(self@, event, r.0@, r.1),
    {
        let stage = self.stage;
        match event {
            PipelineEvent::Downloaded(outcome) => {
                if stage != PipelineStage::Downloading {
                    self.out_of_order()
                } else {
                    match outcome {
                        Ok(result) => {
                            let run = Pipeline {
                                stage: PipelineStage::Loading,
                                options: self.options,
                                url: self.url,
                                title: result.title,
                            };
                            (run, PipelineAction::Load { path: result.audio_path })
                        },
                        Err(e) => self.fail(e),
                    }
                }
            },
            PipelineEvent::Loaded(outcome) => {
                if stage != PipelineStage::Loading {
                    self.out_of_order()
                } else {
                    match outcome {
                        Ok(_) => {
                            let cache_dir = self.options.resolve_cache_dir();
                            (
                                self.advance(PipelineStage::Resolving),
                                PipelineAction::EnsureModel { cache_dir },
                            )
                        },
                        Err(e) => self.fail(e),
                    }
                }
            },
            PipelineEvent::ModelReady(outcome) => {
                if stage != PipelineStage::Resolving {
                    self.out_of_order()
                } else {
                    match outcome {
                        Ok(model_path) => (
                            self.advance(PipelineStage::Transcribing),
                            PipelineAction::Transcribe { model_path },
                        ),
                        Err(e) => self.fail(e),
                    }
                }
            },
            PipelineEvent::Transcribed(outcome) => {
                if stage != PipelineStage::Transcribing {
                    self.out_of_order()
                } else {
                    match outcome {
                        Ok(transcript) => {
                            let result = match &self.url {
                                Some(url) => transcript.with_source(
                                    url.as_str(),
                                    self.title.clone(),
                                ),
                                None => transcript,
                            };
                            (self.advance(PipelineStage::Done), PipelineAction::Finish(result))
                        },
                        Err(e) => self.fail(e),
                    }
                }
            },
        }
    }
}

} // verus!
