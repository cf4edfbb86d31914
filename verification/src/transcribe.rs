//! From the options to the engine's configuration, and from the engine's raw
//! output to a transcript.
//!
//! The engine itself is the caller's: it is started with an [`EngineSetup`],
//! run with a [`DecodeConfig`] over the whole sample buffer, and what it
//! emitted comes back as an [`EngineOutput`].

use crate::config::Language;
use crate::config::TranscribeOptions;
use crate::error::prefixed;
use crate::error::Error;
use crate::paths::path_to_str;
use crate::paths::utf8_text;
use crate::text::decimal;
use crate::text::push_digits;
use crate::text::trim;
use crate::text::trimmed;
use crate::types::Segment;
use crate::types::SegmentModel;
use crate::types::Transcript;
use crate::types::TranscriptModel;
use crate::types::Word;
use crate::types::WordModel;
use std::path::PathBuf;
use vstd::prelude::*;

verus! {

/// Candidates kept per step in greedy decoding.
pub const GREEDY_BEST_OF: i32 = 5;

/// Beam-search patience that leaves the choice to the engine.
pub const DEFAULT_PATIENCE: i32 = -1;

/// The decoding strategy.
#[derive(Debug, Clone, Copy, PartialEq, Eq, Structural)]
pub enum Strategy {
    Greedy { best_of: i32 },
    BeamSearch { beam_size: i32, patience: i32 },
}

/// How the engine learns the language.
#[derive(Debug, Clone)]
pub enum LanguageChoice {
    /// The engine detects the language.
    Detect,
    /// The engine is told the language by its short code.
    Force(String),
}

/// What the engine is started with.
#[derive(Debug, Clone)]
pub struct EngineSetup {
    pub model_path: String,
    pub use_gpu: bool,
    pub gpu_device: i32,
}

/// What one inference call is configured with.
#[derive(Debug, Clone)]
pub struct DecodeConfig {
    pub strategy: Strategy,
    pub language: LanguageChoice,
    pub translate: bool,
    pub token_timestamps: bool,
    /// Sampling temperature, as the bits of a single-precision number.
    pub temperature_bits: u32,
    pub diarize: bool,
    /// Number of threads; `None` keeps the engine's default.
    pub n_threads: Option<i32>,
    pub vad: bool,
}

/// One token as the engine emitted it. Times are in centiseconds.
#[derive(Debug, Clone)]
pub struct RawToken {
    pub text: String,
    pub t0: i64,
    pub t1: i64,
    /// Emission probability, as the bits of a single-precision number.
    pub probability_bits: u32,
}

/// One segment as the engine emitted it. Times are in centiseconds.
#[derive(Debug)]
pub struct RawSegment {
    pub start: i64,
    pub end: i64,
    /// The text, or the engine's complaint where it could not be read.
    pub text: Result<String, String>,
    pub speaker_turn: bool,
    /// Probability of no speech, as the bits of a single-precision number.
    pub no_speech_probability_bits: u32,
    /// The tokens in order; `None` for one that could not be read.
    pub tokens: Vec<Option<RawToken>>,
}

/// Everything one inference call emitted.
#[derive(Debug)]
pub struct EngineOutput {
    /// The segments by index; `None` for one that the engine counted but did
    /// not hand out.
    pub segments: Vec<Option<RawSegment>>,
    /// The short code of the detected or forced language, where the engine
    /// knows one.
    pub language: Option<String>,
}

/// The 32-bit signed number with the same bits as `v`.
pub open spec fn reinterpret(v: u32) -> i32 {
    if v <= 0x7FFF_FFFF {
        v as i32
    } else {
        (v - 0x1_0000_0000) as i32
    }
}

/// Hands an unsigned option to the engine, which takes signed numbers, bit for bit.
pub fn to_engine_int(v: u32) -> (r: i32)
    ensures
        r == reinterpret(v),
{
    if v <= 0x7FFF_FFFF {
        v as i32
    } else {
        let low: u32 = v - 0x8000_0000;
        i32::MIN + (low as i32)
    }
}

impl EngineSetup {
    /// Whether `setup` is what `options` ask for, for a model at a path whose text is `path`.
    pub open spec fn matches_options(
        self,
        path: Seq<char>,
        options: TranscribeOptions,
    ) -> bool {
        &&& self.model_path@ == path
        &&& self.use_gpu == options.gpu
        &&& self.gpu_device == reinterpret(options.gpu_device)
    }
}

/// What the engine is started with: the model file and the GPU choice.
///
/// Fails exactly when the path is not valid UTF-8, which the engine cannot take.
pub fn engine_setup(model_path: &PathBuf, options: &TranscribeOptions) -> (r: Result<
    EngineSetup,
    Error,
>)
    ensures
        utf8_text(*model_path) matches Some(path) ==> (r matches Ok(setup)
            && setup.matches_options(path, *options)),
        utf8_text(*model_path) is None ==> (r matches Err(Error::Model(m)) && m@
            == "model path contains invalid UTF-8"@),
{
    match path_to_str(model_path) {
        Some(path) => Ok(
            EngineSetup {
                model_path: path,
                use_gpu: options.gpu,
                gpu_device: to_engine_int(options.gpu_device),
            },
        ),
        None => Err(Error::Model(String::from_str("model path contains invalid UTF-8"))),
    }
}

impl DecodeConfig {
    /// Whether this is the configuration that `options` ask for.
    pub open spec fn matches_options(self, options: TranscribeOptions) -> bool {
        &&& self.strategy == match options.beam_size {
            Some(beam_size) => Strategy::BeamSearch {
                beam_size: reinterpret(beam_size),
                patience: DEFAULT_PATIENCE,
            },
            None => Strategy::Greedy { best_of: GREEDY_BEST_OF },
        }
        &&& match options.language {
            Language::Auto => self.language is Detect,
            Language::Code { code, .. } => self.language matches LanguageChoice::Force(c) && c@
                == code@,
        }
        &&& self.translate == options.translate
        &&& self.token_timestamps == options.word_timestamps
        &&& self.temperature_bits == options.temperature_bits
        &&& self.diarize == options.diarize
        &&& self.n_threads == match options.n_threads {
            Some(n) => Some(reinterpret(n)),
            None => None,
        }
        &&& self.vad == options.vad
    }
}

/// The configuration of the inference call.
///
/// Beam search with the configured width where one is set, else greedy
/// decoding with a fixed pool; detection or the forced language; the rest is
/// passed through.
pub fn decode_config(options: &TranscribeOptions) -> (config: DecodeConfig)
    ensures
        config.matches_options(*options),
{
    let strategy = match options.beam_size {
        Some(beam_size) => Strategy::BeamSearch {
            beam_size: to_engine_int(beam_size),
            patience: DEFAULT_PATIENCE,
        },
        None => Strategy::Greedy { best_of: GREEDY_BEST_OF },
    };
    let language = match &options.language {
        Language::Auto => LanguageChoice::Detect,
        Language::Code { code, .. } => LanguageChoice::Force(code.clone()),
    };
    let n_threads = match options.n_threads {
        Some(n) => Some(to_engine_int(n)),
        None => None,
    };
    DecodeConfig {
        strategy,
        language,
        translate: options.translate,
        token_timestamps: options.word_timestamps,
        temperature_bits: options.temperature_bits,
        diarize: options.diarize,
        n_threads,
        vad: options.vad,
    }
}

/// Whether a token is one of the engine's markers rather than a spoken
/// word: its trimmed text is empty or begins with `[` or `<`.
pub open spec fn is_control_token(text: Seq<char>) -> bool {
    let t = trimmed(text);
    t.len() == 0 || t[0] == '[' || t[0] == '<'
}

/// Whether a token is one of the engine's markers rather than a spoken word.
pub fn is_special_token(text: &str) -> (r: bool)
    ensures
        r == is_control_token(text@),
{
    let t = trim(text);
    if t.is_empty() {
        true
    } else {
        let first = t.get_char(0);
        first == '[' || first == '<'
    }
}

/// The word that a spoken token becomes.
pub open spec fn word_of(token: RawToken) -> WordModel {
    WordModel {
        text: token.text@,
        start_cs: token.t0,
        end_cs: token.t1,
        probability_bits: token.probability_bits,
    }
}

/// The words among `tokens`, in order: every token that could be read and
/// is no marker.
pub open spec fn spoken_words(tokens: Seq<Option<RawToken>>) -> Seq<WordModel>
    decreases tokens.len(),
{
    if tokens.len() == 0 {
        Seq::empty()
    } else {
        let earlier = spoken_words(tokens.drop_last());
        let last = tokens.last();
        if last is Some && !is_control_token(last->0.text@) {
            earlier.push(word_of(last->0))
        } else {
            earlier
        }
    }
}

/// Extracts the words of a segment from its tokens.
pub fn extract_words(tokens: &Vec<Option<RawToken>>) -> (words: Vec<Word>)
    ensures
        words@.map_values(|w: Word| w@) == spoken_words(tokens@),
{
    let mut words: Vec<Word> = Vec::new();
    let mut t: usize = 0;
    while t < tokens.len()
        invariant
            t <= tokens@.len(),
            words@.map_values(|w: Word| w@) == spoken_words(tokens@.subrange(0, t as int)),
        decreases tokens@.len() - t,
    {
        proof {
            assert(tokens@.subrange(0, t + 1).drop_last() =~= tokens@.subrange(0, t as int));
        }
        match &tokens[t] {
            Some(token) => {
                if !is_special_token(token.text.as_str()) {
                    let word = Word {
                        text: token.text.clone(),
                        start_cs: token.t0,
                        end_cs: token.t1,
                        probability_bits: token.probability_bits,
                    };
                    words.push(word);
                }
            },
            None => {},
        }
        t = t + 1;
    }
    proof {
        assert(tokens@.subrange(0, t as int) =~= tokens@);
    }
    words
}

/// Whether the engine handed the segment out with a readable text.
pub open spec fn usable(segment: Option<RawSegment>) -> bool {
    segment matches Some(s) && s.text is Ok
}

/// The segment that a usable raw segment becomes.
pub open spec fn segment_of(raw: RawSegment, word_timestamps: bool) -> SegmentModel {
    SegmentModel {
        start_cs: raw.start,
        end_cs: raw.end,
        text: raw.text->Ok_0@,
        speaker_turn: raw.speaker_turn,
        no_speech_probability_bits: raw.no_speech_probability_bits,
        words: if word_timestamps {
            Some(spoken_words(raw.tokens@))
        } else {
            None
        },
    }
}

/// The segments that usable raw segments become.
pub open spec fn segments_of(raw: Seq<Option<RawSegment>>, word_timestamps: bool) -> Seq<
    SegmentModel,
> {
    Seq::new(raw.len(), |i: int| segment_of(raw[i]->0, word_timestamps))
}

/// Segments keep the times and so the order that the engine gave them:
/// each one that began no later than it ended still does, and one that
/// began no later than another still does.
pub proof fn segments_keep_order(
    raw: Seq<Option<RawSegment>>,
    word_timestamps: bool,
    i: int,
    j: int,
)
    requires
        0 <= i <= j < raw.len(),
        usable(raw[i]),
        usable(raw[j]),
    ensures
        segments_of(raw, word_timestamps)[i].start_cs == raw[i]->0.start,
        segments_of(raw, word_timestamps)[i].end_cs == raw[i]->0.end,
        raw[i]->0.start <= raw[i]->0.end ==> segments_of(raw, word_timestamps)[i].start_cs
            <= segments_of(raw, word_timestamps)[i].end_cs,
        raw[i]->0.start <= raw[j]->0.start ==> segments_of(raw, word_timestamps)[i].start_cs
            <= segments_of(raw, word_timestamps)[j].start_cs,
{
}

/// Whether `i` is the first index at which `raw` holds no usable segment.
pub open spec fn is_first_unusable(raw: Seq<Option<RawSegment>>, i: int) -> bool {
    &&& 0 <= i < raw.len()
    &&& !usable(raw[i])
    &&& forall|j: int| 0 <= j < i ==> usable(#[trigger] raw[j])
}

/// What is reported of the unusable segment at index `i`.
pub open spec fn unusable_message(raw: Seq<Option<RawSegment>>, i: int) -> Seq<char> {
    match raw[i] {
        None => "segment "@ + decimal(i as nat) + " not found"@,
        Some(s) => "segment text error: "@ + s.text->Err_0@,
    }
}

/// The transcript of `n_samples` samples for which the engine emitted `output`.
pub open spec fn transcript_of(
    n_samples: usize,
    output: EngineOutput,
    options: TranscribeOptions,
) -> TranscriptModel {
    TranscriptModel {
        segments: segments_of(output.segments@, options.word_timestamps),
        language: match output.language {
            Some(code) => code@,
            None => "unknown"@,
        },
        duration_samples: n_samples as u64,
        model: options.model.name_text(),
        source_url: None,
        source_title: None,
    }
}

/// Turns one raw segment into a segment of the transcript.
fn convert_segment(index: usize, raw: &Option<RawSegment>, word_timestamps: bool) -> (r: Result<
    Segment,
    Error,
>)
    ensures
        usable(*raw) ==> (r matches Ok(s) && s@ == segment_of(raw->0, word_timestamps)),
        *raw is None ==> (r matches Err(Error::Transcription(m)) && m@ == "segment "@ + decimal(
            index as nat,
        ) + " not found"@),
        (*raw matches Some(s) && s.text is Err) ==> (r matches Err(Error::Transcription(m)) && m@
            == "segment text error: "@ + raw->0.text->Err_0@),
{
    match raw {
        None => {
            let mut m = String::from_str("segment ");
            push_digits(&mut m, index as u64);
            m.append(" not found");
            Err(Error::Transcription(m))
        },
        Some(segment) => match &segment.text {
            Err(complaint) => Err(
                Error::Transcription(prefixed("segment text error: ", complaint.as_str())),
            ),
            Ok(text) => {
                let words = if word_timestamps {
                    Some(extract_words(&segment.tokens))
                } else {
                    None
                };
                Ok(
                    Segment {
                        start_cs: segment.start,
                        end_cs: segment.end,
                        text: text.clone(),
                        speaker_turn: segment.speaker_turn,
                        no_speech_probability_bits: segment.no_speech_probability_bits,
                        words,
                    },
                )
            },
        },
    }
}

/// Builds the transcript of `n_samples` samples from what the engine emitted.
///
/// Every segment is taken over in order with the times that the engine
/// gave it, in centiseconds, and with its words where word timestamps are
/// on. The length of the audio is the number of samples that were handed
/// to the engine, not what the engine reports; the language is the engine's,
/// the model name comes from the options, and the source is left unset.
///
/// Fails at the first segment that the engine did not hand out or whose
/// text it could not give, and only then.
pub fn transcribe_samples(
    n_samples: usize,
    output: &EngineOutput,
    options: &TranscribeOptions,
) -> (r: Result<Transcript, Error>)
    ensures
        (forall|i: int| 0 <= i < output.segments@.len() ==> usable(#[trigger] output.segments@[i]))
            ==> (r matches Ok(t) && t@ == transcript_of(n_samples, *output, *options)),
        forall|i: int|
            is_first_unusable(output.segments@, i) ==> (r matches Err(Error::Transcription(m))
                && m@ == unusable_message(output.segments@, i)),
{
    let mut segments: Vec<Segment> = Vec::new();
    let mut i: usize = 0;
    while i < output.segments.len()
        invariant
            i <= output.segments@.len(),
            forall|j: int| 0 <= j < i ==> usable(#[trigger] output.segments@[j]),
            segments@.map_values(|s: Segment| s@) =~= segments_of(
                output.segments@.subrange(0, i as int),
                options.word_timestamps,
            ),
        decreases output.segments@.len() - i,
    {
        let ghost before = segments@.map_values(|s: Segment| s@);
        match convert_segment(i, &output.segments[i], options.word_timestamps) {
            Ok(segment) => {
                segments.push(segment);
                proof {
                    assert(segments@.map_values(|s: Segment| s@) =~= before.push(segment@));
                }
            },
            Err(e) => {
                return Err(e);
            },
        }
        i = i + 1;
    }
    let language = match &output.language {
        Some(code) => code.clone(),
        None => String::from_str("unknown"),
    };
    proof {
        assert(output.segments@.subrange(0, i as int) =~= output.segments@);
    }
    Ok(
        Transcript {
            segments,
            language,
            duration_samples: n_samples as u64,
            model: String::from_str(options.model.name()),
            source_url: None,
            source_title: None,
        },
    )
}

} // verus!
