//! The transcript data model and its renderings as text, SRT and WebVTT.
//!
//! Points in time are held as the engine gives them: signed, in
//! centiseconds, so that nothing of the engine's value is lost. The length
//! of the audio is held as its number of samples. Only where a time is
//! shown, in SRT and WebVTT, it becomes whole milliseconds, and a time
//! before zero is shown as zero. Probabilities are carried as the bit
//! patterns of IEEE-754 single-precision numbers: nothing here computes
//! with them.

use crate::text::decimal;
use crate::text::decimal_len;
use crate::text::lemma_zero_padded_len;
use crate::text::push_decimal;
use crate::text::push_digits;
use crate::text::trim;
use crate::text::trimmed;
use crate::text::zero_padded;
use vstd::prelude::*;

verus! {

/// A single word with timing and confidence.
#[derive(Debug, Clone)]
pub struct Word {
    pub text: String,
    /// Start, in centiseconds.
    pub start_cs: i64,
    /// End, in centiseconds.
    pub end_cs: i64,
    /// Emission probability, as the bits of a single-precision number.
    pub probability_bits: u32,
}

/// A transcript segment: a sentence or phrase.
#[derive(Debug, Clone)]
pub struct Segment {
    /// Start, in centiseconds.
    pub start_cs: i64,
    /// End, in centiseconds.
    pub end_cs: i64,
    pub text: String,
    /// Whether a speaker turn follows this segment.
    pub speaker_turn: bool,
    /// Probability that the segment holds no speech, as the bits of a
    /// single-precision number.
    pub no_speech_probability_bits: u32,
    /// The words of the segment, where word timestamps were asked for.
    pub words: Option<Vec<Word>>,
}

/// Complete transcription result.
#[derive(Debug, Clone)]
pub struct Transcript {
    pub segments: Vec<Segment>,
    pub language: String,
    /// Length of the transcribed audio, in samples at the fixed rate.
    pub duration_samples: u64,
    pub model: String,
    pub source_url: Option<String>,
    pub source_title: Option<String>,
}

/// The mathematical value of a [`Word`].
pub struct WordModel {
    pub text: Seq<char>,
    pub start_cs: i64,
    pub end_cs: i64,
    pub probability_bits: u32,
}

/// The mathematical value of a [`Segment`].
pub struct SegmentModel {
    pub start_cs: i64,
    pub end_cs: i64,
    pub text: Seq<char>,
    pub speaker_turn: bool,
    pub no_speech_probability_bits: u32,
    pub words: Option<Seq<WordModel>>,
}

/// The mathematical value of a [`Transcript`].
pub struct TranscriptModel {
    pub segments: Seq<SegmentModel>,
    pub language: Seq<char>,
    pub duration_samples: u64,
    pub model: Seq<char>,
    pub source_url: Option<Seq<char>>,
    pub source_title: Option<Seq<char>>,
}

/// The text that an optional string holds.
pub open spec fn text_of(s: Option<String>) -> Option<Seq<char>> {
    match s {
        Some(s) => Some(s@),
        None => None,
    }
}

impl View for Word {
    type V = WordModel;

    open spec fn view(&self) -> WordModel {
        WordModel {
            text: self.text@,
            start_cs: self.start_cs,
            end_cs: self.end_cs,
            probability_bits: self.probability_bits,
        }
    }
}

impl View for Segment {
    type V = SegmentModel;

    open spec fn view(&self) -> SegmentModel {
        SegmentModel {
            start_cs: self.start_cs,
            end_cs: self.end_cs,
            text: self.text@,
            speaker_turn: self.speaker_turn,
            no_speech_probability_bits: self.no_speech_probability_bits,
            words: match self.words {
                Some(words) => Some(words@.map_values(|w: Word| w@)),
                None => None,
            },
        }
    }
}

impl View for Transcript {
    type V = TranscriptModel;

    open spec fn view(&self) -> TranscriptModel {
        TranscriptModel {
            segments: self.segments@.map_values(|s: Segment| s@),
            language: self.language@,
            duration_samples: self.duration_samples,
            model: self.model@,
            source_url: text_of(self.source_url),
            source_title: text_of(self.source_title),
        }
    }
}

/// The whole milliseconds as which a time in centiseconds is shown: a time
/// before zero is shown as zero, a time beyond the largest number of
/// milliseconds as that number.
pub open spec fn shown_millis(cs: i64) -> u64 {
    if cs <= 0 {
        0
    } else if cs * 10 > u64::MAX {
        u64::MAX
    } else {
        (cs * 10) as u64
    }
}

/// The whole milliseconds as which a time in centiseconds is shown.
pub fn millis_to_show(cs: i64) -> (ms: u64)
    ensures
        ms == shown_millis(cs),
{
    if cs <= 0 {
        0
    } else {
        let c: u64 = cs as u64;
        if c > u64::MAX / 10 {
            u64::MAX
        } else {
            c * 10
        }
    }
}

/// Showing times keeps their order: a time that is not later is not shown
/// as later.
pub proof fn shown_times_keep_order(earlier: i64, later: i64)
    requires
        earlier <= later,
    ensures
        shown_millis(earlier) <= shown_millis(later),
{
}

/// A point in time as `HH:MM:SS`, the separator `sep`, and `mmm`.
///
/// Hours, minutes and seconds have at least two digits, milliseconds three.
pub open spec fn timestamp(total_ms: nat, sep: char) -> Seq<char> {
    zero_padded(total_ms / 3_600_000, 2) + seq![':'] + zero_padded(
        (total_ms % 3_600_000) / 60_000,
        2,
    ) + seq![':'] + zero_padded((total_ms % 60_000) / 1_000, 2) + seq![sep] + zero_padded(
        total_ms % 1_000,
        3,
    )
}

/// Appends `timestamp(total_ms, sep)` to `out`.
fn push_timestamp(out: &mut String, total_ms: u64, sep: char)
    ensures
        final(out)@ == old(out)@ + timestamp(total_ms as nat, sep),
{
    let h: u64 = total_ms / 3_600_000;
    let m: u64 = (total_ms % 3_600_000) / 60_000;
    let s: u64 = (total_ms % 60_000) / 1_000;
    let ms: u64 = total_ms % 1_000;
    push_decimal(out, h, 2);
    out.push(':');
    push_decimal(out, m, 2);
    out.push(':');
    push_decimal(out, s, 2);
    out.push(sep);
    push_decimal(out, ms, 3);
}

/// Formats a time in milliseconds as an SRT timestamp: `HH:MM:SS,mmm`.
pub fn format_srt_time(total_ms: u64) -> (r: String)
    ensures
        r@ == timestamp(total_ms as nat, ','),
{
    let mut r = String::new();
    push_timestamp(&mut r, total_ms, ',');
    r
}

/// Formats a time in milliseconds as a WebVTT timestamp: `HH:MM:SS.mmm`.
pub fn format_vtt_time(total_ms: u64) -> (r: String)
    ensures
        r@ == timestamp(total_ms as nat, '.'),
{
    let mut r = String::new();
    push_timestamp(&mut r, total_ms, '.');
    r
}

/// The trimmed texts of `segments`, joined by single spaces.
pub open spec fn plain_text(segments: Seq<SegmentModel>) -> Seq<char>
    decreases segments.len(),
{
    if segments.len() == 0 {
        Seq::empty()
    } else if segments.len() == 1 {
        trimmed(segments[0].text)
    } else {
        plain_text(segments.drop_last()) + seq![' '] + trimmed(segments.last().text)
    }
}

/// The time line of a cue: start, arrow, end, newline.
pub open spec fn cue_times(segment: SegmentModel, sep: char) -> Seq<char> {
    timestamp(shown_millis(segment.start_cs) as nat, sep) + " --> "@ + timestamp(
        shown_millis(segment.end_cs) as nat,
        sep,
    )
        + "\n"@
}

/// One SRT entry: the number, the time line, the trimmed text and a blank line.
pub open spec fn srt_entry(number: nat, segment: SegmentModel) -> Seq<char> {
    decimal(number) + "\n"@ + cue_times(segment, ',') + trimmed(segment.text) + "\n\n"@
}

/// The SRT entries of `segments`, numbered from one.
pub open spec fn srt_entries(segments: Seq<SegmentModel>) -> Seq<char>
    decreases segments.len(),
{
    if segments.len() == 0 {
        Seq::empty()
    } else {
        srt_entries(segments.drop_last()) + srt_entry(segments.len(), segments.last())
    }
}

/// One WebVTT cue: the time line, the trimmed text and a blank line.
pub open spec fn vtt_cue(segment: SegmentModel) -> Seq<char> {
    cue_times(segment, '.') + trimmed(segment.text) + "\n\n"@
}

/// The WebVTT cues of `segments`.
pub open spec fn vtt_cues(segments: Seq<SegmentModel>) -> Seq<char>
    decreases segments.len(),
{
    if segments.len() == 0 {
        Seq::empty()
    } else {
        vtt_cues(segments.drop_last()) + vtt_cue(segments.last())
    }
}

/// Appends `cue_times(segment, sep)` to `out`.
fn push_cue_times(out: &mut String, segment: &Segment, sep: char)
    ensures
        final(out)@ == old(out)@ + cue_times(segment@, sep),
{
    push_timestamp(out, millis_to_show(segment.start_cs), sep);
    out.append(" --> ");
    push_timestamp(out, millis_to_show(segment.end_cs), sep);
    out.append("\n");
}

/// A timestamp has at least twelve characters, and the separator stands
/// before the last three, which are the milliseconds: SRT and WebVTT
/// timestamps differ in that one character alone.
pub proof fn separator_stands_before_milliseconds(total_ms: nat, sep: char)
    ensures
        timestamp(total_ms, sep).len() >= 12,
        timestamp(total_ms, sep)[timestamp(total_ms, sep).len() - 4] == sep,
        timestamp(total_ms, sep).subrange(0, timestamp(total_ms, sep).len() - 4) == timestamp(
            total_ms,
            ',',
        ).subrange(0, timestamp(total_ms, ',').len() - 4),
        timestamp(total_ms, sep).skip(timestamp(total_ms, sep).len() - 3) == zero_padded(
            total_ms % 1_000,
            3,
        ),
{
    lemma_zero_padded_len(total_ms % 1_000, 3);
    reveal_with_fuel(decimal_len, 4);
}

impl Transcript {
    /// Records where the audio came from: the URL, and the title where the
    /// downloader gave one. Everything else stays as it is.
    pub fn with_source(self, url: &str, title: Option<String>) -> (r: Transcript)
        ensures
            r@ == (TranscriptModel {
                source_url: Some(url@),
                source_title: text_of(title),
                ..self@
            }),
    {
        let mut r = self;
        r.source_url = Some(String::from_str(url));
        r.source_title = title;
        r
    }

    /// Full text: every segment's text trimmed, joined by single spaces.
    pub fn text(&self) -> (r: String)
        ensures
            r@ == plain_text(self@.segments),
    {
        let mut out = String::new();
        let mut i: usize = 0;
        while i < self.segments.len()
            invariant
                i <= self.segments@.len(),
                out@ == plain_text(self@.segments.subrange(0, i as int)),
            decreases self.segments@.len() - i,
        {
            let ghost before = self@.segments.subrange(0, i as int);
            let ghost after = self@.segments.subrange(0, i + 1);
            if i > 0 {
                out.push(' ');
            }
            out.append(trim(self.segments[i].text.as_str()));
            proof {
                assert(after.drop_last() =~= before);
            }
            i = i + 1;
        }
        proof {
            assert(self@.segments.subrange(0, i as int) =~= self@.segments);
        }
        out
    }

    /// Formats as SRT subtitles: numbered entries, no header.
    pub fn to_srt(&self) -> (r: String)
        ensures
            r@ == srt_entries(self@.segments),
    {
        let mut out = String::new();
        let mut i: usize = 0;
        while i < self.segments.len()
            invariant
                i <= self.segments@.len(),
                out@ == srt_entries(self@.segments.subrange(0, i as int)),
            decreases self.segments@.len() - i,
        {
            let ghost before = self@.segments.subrange(0, i as int);
            let ghost after = self@.segments.subrange(0, i + 1);
            let ghost start = out@;
            let number: u64 = i as u64 + 1;
            push_digits(&mut out, number);
            out.append("\n");
            push_cue_times(&mut out, &self.segments[i], ',');
            out.append(trim(self.segments[i].text.as_str()));
            out.append("\n\n");
            proof {
                assert(after.drop_last() =~= before);
                assert(out@ =~= start + srt_entry((i + 1) as nat, self.segments@[i as int]@));
            }
            i = i + 1;
        }
        proof {
            assert(self@.segments.subrange(0, i as int) =~= self@.segments);
        }
        out
    }

    /// Formats as WebVTT subtitles: the header, a blank line, then the cues.
    pub fn to_vtt(&self) -> (r: String)
        ensures
            r@ == "WEBVTT\n\n"@ + vtt_cues(self@.segments),
    {
        let mut out = String::from_str("WEBVTT\n\n");
        let mut i: usize = 0;
        while i < self.segments.len()
            invariant
                i <= self.segments@.len(),
                out@ == "WEBVTT\n\n"@ + vtt_cues(self@.segments.subrange(0, i as int)),
            decreases self.segments@.len() - i,
        {
            let ghost before = self@.segments.subrange(0, i as int);
            let ghost after = self@.segments.subrange(0, i + 1);
            push_cue_times(&mut out, &self.segments[i], '.');
            out.append(trim(self.segments[i].text.as_str()));
            out.append("\n\n");
            proof {
                assert(after.drop_last() =~= before);
            }
            i = i + 1;
        }
        proof {
            assert(self@.segments.subrange(0, i as int) =~= self@.segments);
        }
        out
    }
}

} // verus!
