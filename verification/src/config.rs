//! Configuration of a transcription run: language, model and options.

use crate::error::Error;
use crate::paths::file_name;
use crate::paths::file_name_text;
use crate::paths::join;
use crate::paths::joined;
use crate::paths::path_from;
use crate::paths::path_of;
use crate::text::lowercase;
use crate::text::text_eq;
use crate::text::to_lowercase;
use std::path::PathBuf;
use vstd::prelude::*;

verus! {

/// A validated language for transcription.
///
/// Either automatic detection, or a language of the engine's table: its
/// short code and the identifier the engine knows it by.
#[derive(Debug, Clone)]
pub enum Language {
    /// Auto-detect the language from the audio.
    Auto,
    /// A language of the engine's table.
    Code {
        /// Short code as the engine expects it, such as "en".
        code: String,
        /// The engine's identifier of the language.
        id: i32,
    },
}

/// What the engine's language table holds for a name: the identifier, and
/// the short code that belongs to it where the table gives one.
#[derive(Debug, Clone)]
pub struct LanguageEntry {
    pub id: i32,
    pub code: Option<String>,
}

/// One row of the engine's language table: the short code and the full
/// name of a language, each where the table has it.
#[derive(Debug, Clone)]
pub struct LanguageRow {
    pub code: Option<String>,
    pub name: Option<String>,
}

/// The short code and the full name of every row that has both, in order.
pub open spec fn named_languages(rows: Seq<LanguageRow>) -> Seq<(Seq<char>, Seq<char>)>
    decreases rows.len(),
{
    if rows.len() == 0 {
        Seq::empty()
    } else {
        let earlier = named_languages(rows.drop_last());
        let last = rows.last();
        if last.code is Some && last.name is Some {
            earlier.push((last.code->0@, last.name->0@))
        } else {
            earlier
        }
    }
}

/// The texts of a list of pairs of strings.
pub open spec fn pair_texts(pairs: Seq<(String, String)>) -> Seq<(Seq<char>, Seq<char>)> {
    pairs.map_values(|p: (String, String)| (p.0@, p.1@))
}

impl Language {
    /// Lists the supported languages as pairs of short code and full name,
    /// from the rows of the engine's table in the order of their identifiers.
    pub fn supported(rows: &Vec<LanguageRow>) -> (list: Vec<(String, String)>)
        ensures
            pair_texts(list@) == named_languages(rows@),
    {
        let mut list: Vec<(String, String)> = Vec::new();
        let mut i: usize = 0;
        while i < rows.len()
            invariant
                i <= rows@.len(),
                pair_texts(list@) == named_languages(rows@.subrange(0, i as int)),
            decreases rows@.len() - i,
        {
            proof {
                assert(rows@.subrange(0, i + 1).drop_last() =~= rows@.subrange(0, i as int));
            }
            match (&rows[i].code, &rows[i].name) {
                (Some(code), Some(name)) => {
                    list.push((code.clone(), name.clone()));
                },
                _ => {},
            }
            i = i + 1;
        }
        proof {
            assert(rows@.subrange(0, i as int) =~= rows@);
        }
        list
    }

    /// The name under which `lang` is looked up in the engine's table:
    /// its lowercase form.
    pub fn lookup_key(lang: &str) -> (key: String)
        ensures
            key@ == lowercase(lang@),
    {
        to_lowercase(lang)
    }

    /// Creates a language from a code or full name in any letter case.
    ///
    /// "auto" selects detection whatever `found` holds. Any other name is
    /// valid exactly when the engine's table has an entry for its lowercase
    /// form, handed in as `found`; the language then carries the entry's
    /// short code, or the lowercase name where the entry has none.
    pub fn new(lang: &str, found: Option<LanguageEntry>) -> (r: Result<Language, Error>)
        ensures
            lowercase(lang@) == "auto"@ ==> r == Ok::<Language, Error>(Language::Auto),
            lowercase(lang@) != "auto"@ && found is None ==> (r matches Err(
                Error::UnsupportedLanguage(name),
            ) && name@ == lang@),
            lowercase(lang@) != "auto"@ && found is Some ==> (r matches Ok(
                Language::Code { code, id },
            ) && id == found->0.id && code@ == (match found->0.code {
                Some(c) => c@,
                None => lowercase(lang@),
            })),
    {
        let lower = to_lowercase(lang);
        if text_eq(lower.as_str(), "auto") {
            return Ok(Language::Auto);
        }
        match found {
            Some(entry) => {
                let code = match entry.code {
                    Some(code) => code,
                    None => lower,
                };
                Ok(Language::Code { code, id: entry.id })
            },
            None => Err(Error::UnsupportedLanguage(String::from_str(lang))),
        }
    }

    /// The short language code, or `None` for automatic detection.
    pub fn code(&self) -> (r: Option<&str>)
        ensures
            self is Auto ==> r is None,
            self matches Language::Code { code, .. } ==> r matches Some(c) && c@ == code@,
    {
        match self {
            Language::Auto => None,
            Language::Code { code, .. } => Some(code.as_str()),
        }
    }

    /// Whether this is automatic detection.
    pub fn is_auto(&self) -> (r: bool)
        ensures
            r == (self is Auto),
    {
        match self {
            Language::Auto => true,
            Language::Code { .. } => false,
        }
    }

    /// The text of this language: "auto", or the short code.
    pub open spec fn text(&self) -> Seq<char> {
        match self {
            Language::Auto => "auto"@,
            Language::Code { code, .. } => code@,
        }
    }

    /// "auto", or the short code.
    pub fn to_string(&self) -> (r: String)
        ensures
            r@ == self.text(),
    {
        match self {
            Language::Auto => String::from_str("auto"),
            Language::Code { code, .. } => code.clone(),
        }
    }
}

impl Default for Language {
    fn default() -> (r: Language)
        ensures
            r == Language::Auto,
    {
        Language::Auto
    }
}

/// The models that can be named, and a custom model file.
#[derive(Debug, Clone)]
pub enum Model {
    Tiny,
    TinyEn,
    Base,
    BaseEn,
    Small,
    SmallEn,
    Medium,
    MediumEn,
    LargeV2,
    LargeV3,
    LargeV3Turbo,
    /// A model file that the user provides.
    Custom(PathBuf),
}

impl Model {
    /// The human-readable name of the model.
    pub open spec fn name_text(&self) -> Seq<char> {
        match self {
            Model::Tiny => "tiny"@,
            Model::TinyEn => "tiny.en"@,
            Model::Base => "base"@,
            Model::BaseEn => "base.en"@,
            Model::Small => "small"@,
            Model::SmallEn => "small.en"@,
            Model::Medium => "medium"@,
            Model::MediumEn => "medium.en"@,
            Model::LargeV2 => "large-v2"@,
            Model::LargeV3 => "large-v3"@,
            Model::LargeV3Turbo => "large-v3-turbo"@,
            Model::Custom(_) => "custom"@,
        }
    }

    /// The canonical file name of the model: for a named model the name it
    /// has on the artifact host and in the cache, for a custom model the last
    /// component of its path.
    pub open spec fn filename_text(&self) -> Seq<char> {
        match self {
            Model::Custom(path) => match file_name_text(*path) {
                Some(name) => name,
                None => "custom-model"@,
            },
            _ => "ggml-"@ + self.name_text() + ".bin"@,
        }
    }

    /// The named model that `s` spells, if any.
    pub open spec fn parse(s: Seq<char>) -> Option<Model> {
        if s == "tiny"@ {
            Some(Model::Tiny)
        } else if s == "tiny.en"@ {
            Some(Model::TinyEn)
        } else if s == "base"@ {
            Some(Model::Base)
        } else if s == "base.en"@ {
            Some(Model::BaseEn)
        } else if s == "small"@ {
            Some(Model::Small)
        } else if s == "small.en"@ {
            Some(Model::SmallEn)
        } else if s == "medium"@ {
            Some(Model::Medium)
        } else if s == "medium.en"@ {
            Some(Model::MediumEn)
        } else if s == "large-v2"@ {
            Some(Model::LargeV2)
        } else if s == "large-v3"@ {
            Some(Model::LargeV3)
        } else if s == "large-v3-turbo"@ {
            Some(Model::LargeV3Turbo)
        } else {
            None
        }
    }

    /// The file name of the model as the artifact host and the cache use it.
    pub fn filename(&self) -> (r: String)
        ensures
            r@ == self.filename_text(),
    {
        match self {
            Model::Custom(path) => match file_name(path) {
                Some(name) => name,
                None => String::from_str("custom-model"),
            },
            _ => {
                let mut r = String::from_str("ggml-");
                r.append(self.name());
                r.append(".bin");
                r
            },
        }
    }

    /// The human-readable name.
    pub fn name(&self) -> (r: &str)
        ensures
            r@ == self.name_text(),
    {
        match self {
            Model::Tiny => "tiny",
            Model::TinyEn => "tiny.en",
            Model::Base => "base",
            Model::BaseEn => "base.en",
            Model::Small => "small",
            Model::SmallEn => "small.en",
            Model::Medium => "medium",
            Model::MediumEn => "medium.en",
            Model::LargeV2 => "large-v2",
            Model::LargeV3 => "large-v3",
            Model::LargeV3Turbo => "large-v3-turbo",
            Model::Custom(_) => "custom",
        }
    }

    /// Parses the name of a model, such as a command-line argument.
    pub fn from_str(s: &str) -> (r: Option<Model>)
        ensures
            r == Model::parse(s@),
    {
        if text_eq(s, "tiny") {
            Some(Model::Tiny)
        } else if text_eq(s, "tiny.en") {
            Some(Model::TinyEn)
        } else if text_eq(s, "base") {
            Some(Model::Base)
        } else if text_eq(s, "base.en") {
            Some(Model::BaseEn)
        } else if text_eq(s, "small") {
            Some(Model::Small)
        } else if text_eq(s, "small.en") {
            Some(Model::SmallEn)
        } else if text_eq(s, "medium") {
            Some(Model::Medium)
        } else if text_eq(s, "medium.en") {
            Some(Model::MediumEn)
        } else if text_eq(s, "large-v2") {
            Some(Model::LargeV2)
        } else if text_eq(s, "large-v3") {
            Some(Model::LargeV3)
        } else if text_eq(s, "large-v3-turbo") {
            Some(Model::LargeV3Turbo)
        } else {
            None
        }
    }
}

/// The named models and their names correspond one to one: parsing the
/// name of a named model gives that model back, and a model that parsing
/// gives has the parsed text as its name.
pub proof fn names_and_models_correspond(model: Model, s: Seq<char>)
    ensures
        !(model is Custom) ==> Model::parse(model.name_text()) == Some(model),
        Model::parse(s) matches Some(m) ==> m.name_text() == s && !(m is Custom),
        Model::parse("custom"@) is None,
{
    reveal_strlit("tiny");
    reveal_strlit("tiny.en");
    reveal_strlit("base");
    reveal_strlit("base.en");
    reveal_strlit("small");
    reveal_strlit("small.en");
    reveal_strlit("medium");
    reveal_strlit("medium.en");
    reveal_strlit("large-v2");
    reveal_strlit("large-v3");
    reveal_strlit("large-v3-turbo");
    reveal_strlit("custom");
    assert("tiny"@.len() == 4 && "tiny.en"@.len() == 7 && "base"@.len() == 4 && "base.en"@.len()
        == 7 && "small"@.len() == 5 && "small.en"@.len() == 8 && "medium"@.len() == 6
        && "medium.en"@.len() == 9 && "large-v2"@.len() == 8 && "large-v3"@.len() == 8
        && "large-v3-turbo"@.len() == 14 && "custom"@.len() == 6);
    assert("tiny"@[0] == 't' && "base"@[0] == 'b');
    assert("tiny.en"@[0] == 't' && "base.en"@[0] == 'b');
    assert("large-v2"@[7] == '2' && "large-v3"@[7] == '3');
    assert("medium"@[0] == 'm' && "custom"@[0] == 'c');
}

/// The bit pattern of the single-precision number -40.
pub const DEFAULT_SILENCE_THRESHOLD_DB_BITS: u32 = 0xC220_0000;

/// Padding kept around detected speech, in milliseconds.
pub const DEFAULT_SILENCE_PAD_MS: u32 = 50;

/// Audio processing options.
///
/// By default every step is off and the decoded samples go to the engine as
/// they are. Where several steps are on they run in a fixed order: offset
/// removal, then peak normalisation, then silence trimming.
#[derive(Debug, Clone, Copy)]
pub struct AudioProcessing {
    /// Remove the DC offset by subtracting the sample mean.
    pub dc_offset_removal: bool,
    /// Scale the samples so that the peak is 1.
    pub normalize: bool,
    /// Trim leading and trailing silence.
    pub trim_silence: bool,
    /// RMS threshold for silence in dB, as the bits of a single-precision
    /// number. Only used when `trim_silence` is on.
    pub silence_threshold_db_bits: u32,
    /// Padding in milliseconds kept around detected speech. Only used when
    /// `trim_silence` is on.
    pub silence_pad_ms: u32,
}

impl Default for AudioProcessing {
    fn default() -> (r: AudioProcessing)
        ensures
            r == AudioProcessing::initial(),
    {
        AudioProcessing {
            dc_offset_removal: false,
            normalize: false,
            trim_silence: false,
            silence_threshold_db_bits: DEFAULT_SILENCE_THRESHOLD_DB_BITS,
            silence_pad_ms: DEFAULT_SILENCE_PAD_MS,
        }
    }
}

impl AudioProcessing {
    /// Every step off, threshold -40 dB, padding 50 ms.
    pub open spec fn initial() -> AudioProcessing {
        AudioProcessing {
            dc_offset_removal: false,
            normalize: false,
            trim_silence: false,
            silence_threshold_db_bits: DEFAULT_SILENCE_THRESHOLD_DB_BITS,
            silence_pad_ms: DEFAULT_SILENCE_PAD_MS,
        }
    }

    /// The default options: every step off.
    pub fn new() -> (r: AudioProcessing)
        ensures
            r == AudioProcessing::initial(),
    {
        AudioProcessing {
            dc_offset_removal: false,
            normalize: false,
            trim_silence: false,
            silence_threshold_db_bits: DEFAULT_SILENCE_THRESHOLD_DB_BITS,
            silence_pad_ms: DEFAULT_SILENCE_PAD_MS,
        }
    }

    /// Turns the removal of the DC offset on or off.
    pub fn dc_offset_removal(self, enabled: bool) -> (r: AudioProcessing)
        ensures
            r == (AudioProcessing { dc_offset_removal: enabled, ..self }),
    {
        let mut r = self;
        r.dc_offset_removal = enabled;
        r
    }

    /// Turns peak normalisation on or off.
    pub fn normalize(self, enabled: bool) -> (r: AudioProcessing)
        ensures
            r == (AudioProcessing { normalize: enabled, ..self }),
    {
        let mut r = self;
        r.normalize = enabled;
        r
    }

    /// Turns silence trimming on or off.
    pub fn trim_silence(self, enabled: bool) -> (r: AudioProcessing)
        ensures
            r == (AudioProcessing { trim_silence: enabled, ..self }),
    {
        let mut r = self;
        r.trim_silence = enabled;
        r
    }

    /// Sets the silence threshold in dB, given as the bits of a
    /// single-precision number.
    pub fn silence_threshold_db(self, db_bits: u32) -> (r: AudioProcessing)
        ensures
            r == (AudioProcessing { silence_threshold_db_bits: db_bits, ..self }),
    {
        let mut r = self;
        r.silence_threshold_db_bits = db_bits;
        r
    }

    /// Sets the padding kept around detected speech, in milliseconds.
    pub fn silence_pad_ms(self, ms: u32) -> (r: AudioProcessing)
        ensures
            r == (AudioProcessing { silence_pad_ms: ms, ..self }),
    {
        let mut r = self;
        r.silence_pad_ms = ms;
        r
    }

    /// Every step on, with the default threshold and padding.
    pub fn all() -> (r: AudioProcessing)
        ensures
            r == (AudioProcessing {
                dc_offset_removal: true,
                normalize: true,
                trim_silence: true,
                ..AudioProcessing::initial()
            }),
    {
        AudioProcessing {
            dc_offset_removal: true,
            normalize: true,
            trim_silence: true,
            silence_threshold_db_bits: DEFAULT_SILENCE_THRESHOLD_DB_BITS,
            silence_pad_ms: DEFAULT_SILENCE_PAD_MS,
        }
    }
}

/// Options of a transcription run.
#[derive(Debug, Clone)]
pub struct TranscribeOptions {
    pub model: Model,
    pub language: Language,
    /// Translate to English.
    pub translate: bool,
    /// Capture word-level timestamps.
    pub word_timestamps: bool,
    pub diarize: bool,
    /// Number of threads; `None` leaves the choice to the engine.
    pub n_threads: Option<u32>,
    pub gpu: bool,
    pub gpu_device: u32,
    /// Voice-activity detection.
    pub vad: bool,
    /// Sampling temperature, as the bits of a single-precision number.
    pub temperature_bits: u32,
    /// Beam width; `None` means greedy decoding.
    pub beam_size: Option<u32>,
    /// Where models are cached; `None` means the platform's cache directory.
    pub cache_dir: Option<PathBuf>,
    pub audio_processing: AudioProcessing,
}

impl Default for TranscribeOptions {
    fn default() -> (r: TranscribeOptions)
        ensures
            r == TranscribeOptions::initial(),
    {
        TranscribeOptions {
            model: Model::LargeV3,
            language: Language::Auto,
            translate: false,
            word_timestamps: false,
            diarize: false,
            n_threads: None,
            gpu: true,
            gpu_device: 0,
            vad: true,
            temperature_bits: 0,
            beam_size: None,
            cache_dir: None,
            audio_processing: AudioProcessing::new(),
        }
    }
}

impl TranscribeOptions {
    /// The defaults: the large-v3 model, automatic language detection, GPU
    /// and voice-activity detection on, temperature zero, greedy decoding,
    /// no audio processing.
    pub open spec fn initial() -> TranscribeOptions {
        TranscribeOptions {
            model: Model::LargeV3,
            language: Language::Auto,
            translate: false,
            word_timestamps: false,
            diarize: false,
            n_threads: None,
            gpu: true,
            gpu_device: 0,
            vad: true,
            temperature_bits: 0,
            beam_size: None,
            cache_dir: None,
            audio_processing: AudioProcessing::initial(),
        }
    }

    /// The default options.
    pub fn new() -> (r: TranscribeOptions)
        ensures
            r == TranscribeOptions::initial(),
    {
        TranscribeOptions {
            model: Model::LargeV3,
            language: Language::Auto,
            translate: false,
            word_timestamps: false,
            diarize: false,
            n_threads: None,
            gpu: true,
            gpu_device: 0,
            vad: true,
            temperature_bits: 0,
            beam_size: None,
            cache_dir: None,
            audio_processing: AudioProcessing::new(),
        }
    }

    /// Sets the model.
    pub fn model(self, model: Model) -> (r: TranscribeOptions)
        ensures
            r == (TranscribeOptions { model, ..self }),
    {
        let mut r = self;
        r.model = model;
        r
    }

    /// Sets the language from a code or full name, validated against what
    /// the engine's table holds under `Language::lookup_key(lang)`.
    ///
    /// An unsupported language is an error; the options are never left
    /// with a language that was not validated.
    pub fn language(self, lang: &str, found: Option<LanguageEntry>) -> (r: Result<
        TranscribeOptions,
        Error,
    >)
        ensures
            lowercase(lang@) == "auto"@ ==> r == Ok::<TranscribeOptions, Error>(
                TranscribeOptions { language: Language::Auto, ..self },
            ),
            lowercase(lang@) != "auto"@ && found is None ==> (r matches Err(
                Error::UnsupportedLanguage(name),
            ) && name@ == lang@),
            lowercase(lang@) != "auto"@ && found is Some ==> (r matches Ok(options)
                && options == (TranscribeOptions { language: options.language, ..self })
                && options.language is Code && options.language->id == found->0.id
                && options.language->code@ == (match found->0.code {
                Some(c) => c@,
                None => lowercase(lang@),
            })),
    {
        match Language::new(lang, found) {
            Ok(language) => {
                let mut r = self;
                r.language = language;
                Ok(r)
            },
            Err(e) => Err(e),
        }
    }

    /// Turns translation to English on or off.
    pub fn translate(self, translate: bool) -> (r: TranscribeOptions)
        ensures
            r == (TranscribeOptions { translate, ..self }),
    {
        let mut r = self;
        r.translate = translate;
        r
    }

    /// Turns word-level timestamps on or off.
    pub fn word_timestamps(self, enabled: bool) -> (r: TranscribeOptions)
        ensures
            r == (TranscribeOptions { word_timestamps: enabled, ..self }),
    {
        let mut r = self;
        r.word_timestamps = enabled;
        r
    }

    /// Turns speaker-turn detection on or off.
    pub fn diarize(self, enabled: bool) -> (r: TranscribeOptions)
        ensures
            r == (TranscribeOptions { diarize: enabled, ..self }),
    {
        let mut r = self;
        r.diarize = enabled;
        r
    }

    /// Sets the number of threads.
    pub fn n_threads(self, n: u32) -> (r: TranscribeOptions)
        ensures
            r == (TranscribeOptions { n_threads: Some(n), ..self }),
    {
        let mut r = self;
        r.n_threads = Some(n);
        r
    }

    /// Turns the GPU on or off.
    pub fn gpu(self, enabled: bool) -> (r: TranscribeOptions)
        ensures
            r == (TranscribeOptions { gpu: enabled, ..self }),
    {
        let mut r = self;
        r.gpu = enabled;
        r
    }

    /// Sets the GPU device.
    pub fn gpu_device(self, device: u32) -> (r: TranscribeOptions)
        ensures
            r == (TranscribeOptions { gpu_device: device, ..self }),
    {
        let mut r = self;
        r.gpu_device = device;
        r
    }

    /// Turns voice-activity detection on or off.
    pub fn vad(self, enabled: bool) -> (r: TranscribeOptions)
        ensures
            r == (TranscribeOptions { vad: enabled, ..self }),
    {
        let mut r = self;
        r.vad = enabled;
        r
    }

    /// Sets the sampling temperature, given as the bits of a
    /// single-precision number.
    pub fn temperature(self, temp_bits: u32) -> (r: TranscribeOptions)
        ensures
            r == (TranscribeOptions { temperature_bits: temp_bits, ..self }),
    {
        let mut r = self;
        r.temperature_bits = temp_bits;
        r
    }

    /// Selects beam search with the given width.
    pub fn beam_size(self, size: u32) -> (r: TranscribeOptions)
        ensures
            r == (TranscribeOptions { beam_size: Some(size), ..self }),
    {
        let mut r = self;
        r.beam_size = Some(size);
        r
    }

    /// Sets the directory in which models are cached.
    pub fn cache_dir(self, dir: PathBuf) -> (r: TranscribeOptions)
        ensures
            r == (TranscribeOptions { cache_dir: Some(dir), ..self }),
    {
        let mut r = self;
        r.cache_dir = Some(dir);
        r
    }

    /// Sets the audio processing options.
    pub fn audio_processing(self, ap: AudioProcessing) -> (r: TranscribeOptions)
        ensures
            r == (TranscribeOptions { audio_processing: ap, ..self }),
    {
        let mut r = self;
        r.audio_processing = ap;
        r
    }

    /// Resolves the cache directory: the configured one, else
    /// `transkribo/models` under the platform's cache directory, or under
    /// `.cache` where the platform names none.
    pub fn resolve_cache_dir(&self) -> (dir: PathBuf)
        ensures
            self.cache_dir is Some ==> dir == self.cache_dir->0,
            self.cache_dir is None ==> exists|platform: Option<PathBuf>|
                dir == default_cache_dir(platform),
    {
        match &self.cache_dir {
            Some(dir) => dir.clone(),
            None => cache_dir_under(dirs::cache_dir()),
        }
    }
}

/// `dirs::cache_dir`: the user's cache directory, which depends on the
/// platform and on the user's settings; there may be none.
pub assume_specification[ dirs::cache_dir ]() -> (dir: Option<PathBuf>)
;

/// The directory for models under the platform's cache directory, or
/// under `.cache` where there is none.
pub open spec fn default_cache_dir(platform: Option<PathBuf>) -> PathBuf {
    joined(
        joined(
            match platform {
                Some(dir) => dir,
                None => path_of(".cache"@),
            },
            "transkribo"@,
        ),
        "models"@,
    )
}

/// The directory for models under the platform's cache directory.
pub fn cache_dir_under(platform: Option<PathBuf>) -> (dir: PathBuf)
    ensures
        dir == default_cache_dir(platform),
{
    let base = match platform {
        Some(dir) => dir,
        None => path_from(".cache"),
    };
    let app_dir = join(&base, "transkribo");
    join(&app_dir, "models")
}

} // verus!
