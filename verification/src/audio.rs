//! Audio loading: what surrounds the decoder, and the bookkeeping of the
//! sample processor.
//!
//! The decoder is an outside program that turns any media file into raw
//! 16-bit PCM. Arithmetic on sample values themselves — means, peaks,
//! energies — is the caller's; here is what can be settled on whole
//! numbers: the order of the processing steps, the windows that silence
//! detection looks at, and which part of the buffer is kept.

use crate::config::AudioProcessing;
use crate::error::prefixed;
use crate::error::Error;
use crate::text::decimal;
use crate::text::push_digits;
use crate::text::texts;
use std::path::PathBuf;
use vstd::prelude::*;

verus! {

/// Samples per second of the audio that the engine takes.
pub const SAMPLE_RATE: u64 = 16_000;

/// The longest audio that is accepted, in seconds: eight hours.
pub const MAX_AUDIO_SECONDS: u64 = 28_800;

/// The longest audio that is accepted, in samples.
pub const MAX_AUDIO_SAMPLES: u64 = 460_800_000;

/// Samples in one window of silence detection: ten milliseconds.
pub const WINDOW_SIZE: usize = 160;

/// The constants fit together: a window is ten milliseconds of audio, the
/// longest audio is eight hours of it, and a second of padding is as many
/// samples as the rate says.
pub proof fn constants_agree()
    ensures
        WINDOW_SIZE == SAMPLE_RATE / 100,
        MAX_AUDIO_SECONDS == 8 * 3600,
        MAX_AUDIO_SAMPLES == MAX_AUDIO_SECONDS * SAMPLE_RATE,
        pad_samples(1000) == SAMPLE_RATE,
{
}

/// Refuses an audio file that does not exist.
pub fn check_audio_exists(path: &PathBuf, exists: bool) -> (r: Result<(), Error>)
    ensures
        exists ==> r is Ok,
        !exists ==> r == Err::<(), Error>(Error::AudioNotFound { path: *path }),
{
    if exists {
        Ok(())
    } else {
        Err(Error::AudioNotFound { path: path.clone() })
    }
}

/// The decoder's arguments that stand before the input file.
pub open spec fn input_args() -> Seq<Seq<char>> {
    seq!["-nostdin"@, "-threads"@, "0"@, "-i"@]
}

/// The decoder's arguments that stand after the input file: raw signed
/// 16-bit little-endian PCM, one channel, at the fixed rate, to standard output.
pub open spec fn output_args() -> Seq<Seq<char>> {
    seq![
        "-f"@,
        "s16le"@,
        "-ac"@,
        "1"@,
        "-acodec"@,
        "pcm_s16le"@,
        "-ar"@,
        decimal(SAMPLE_RATE as nat),
        "-"@,
    ]
}

/// The decoder's arguments that stand before the input file.
pub fn decoder_input_args() -> (args: Vec<String>)
    ensures
        texts(args@) == input_args(),
{
    let mut args: Vec<String> = Vec::new();
    args.push(String::from_str("-nostdin"));
    args.push(String::from_str("-threads"));
    args.push(String::from_str("0"));
    args.push(String::from_str("-i"));
    args
}

/// The decoder's arguments that stand after the input file.
pub fn decoder_output_args() -> (args: Vec<String>)
    ensures
        texts(args@) == output_args(),
{
    let mut rate = String::new();
    push_digits(&mut rate, SAMPLE_RATE);
    let mut args: Vec<String> = Vec::new();
    args.push(String::from_str("-f"));
    args.push(String::from_str("s16le"));
    args.push(String::from_str("-ac"));
    args.push(String::from_str("1"));
    args.push(String::from_str("-acodec"));
    args.push(String::from_str("pcm_s16le"));
    args.push(String::from_str("-ar"));
    args.push(rate);
    args.push(String::from_str("-"));
    args
}

/// The error for a decoder that could not be started: a hint where the
/// program is not installed, else the system's complaint.
pub fn launch_failure(not_found: bool, complaint: &str) -> (e: Error)
    ensures
        e matches Error::AudioDecode(m) && m@ == (if not_found {
            "ffmpeg not found — install with: apt install ffmpeg"@
        } else {
            "failed to run ffmpeg: "@ + complaint@
        }),
{
    if not_found {
        Error::AudioDecode(String::from_str("ffmpeg not found — install with: apt install ffmpeg"))
    } else {
        Error::AudioDecode(prefixed("failed to run ffmpeg: ", complaint))
    }
}

/// The sample that two bytes hold, low byte first, in two's complement.
pub open spec fn sample_of(low: u8, high: u8) -> i16 {
    if high < 128 {
        (low + 256 * high) as i16
    } else {
        (low + 256 * high - 65536) as i16
    }
}

/// The samples that raw PCM holds: one for each full pair of bytes.
pub open spec fn pcm_samples(bytes: Seq<u8>) -> Seq<i16> {
    Seq::new(bytes.len() / 2, |i: int| sample_of(bytes[2 * i], bytes[2 * i + 1]))
}

/// Reads raw signed 16-bit little-endian PCM. A trailing odd byte is dropped.
///
/// Every sample lies between -32768 and 32767, so that divided by 32768 it
/// lies between -1 and 1.
pub fn decode_pcm(bytes: &Vec<u8>) -> (samples: Vec<i16>)
    ensures
        samples@ == pcm_samples(bytes@),
{
    let mut samples: Vec<i16> = Vec::new();
    let n: usize = bytes.len() / 2;
    let mut i: usize = 0;
    while i < n
        invariant
            n == bytes@.len() / 2,
            bytes@.len() <= usize::MAX,
            i <= n,
            samples@.len() == i,
            forall|j: int| 0 <= j < i ==> samples@[j] == sample_of(bytes@[2 * j], bytes@[2 * j + 1]),
        decreases n - i,
    {
        let low: u8 = bytes[2 * i];
        let high: u8 = bytes[2 * i + 1];
        let wide: i32 = low as i32 + 256 * (high as i32);
        let sample: i16 = if high < 128 {
            wide as i16
        } else {
            (wide - 65536) as i16
        };
        samples.push(sample);
        i = i + 1;
    }
    samples
}

/// What the decoder's run yields: its samples, or why there are none.
///
/// A failed run and a run without output are decode failures.
pub fn decode_output(success: bool, stdout: &Vec<u8>, stderr: &str) -> (r: Result<
    Vec<i16>,
    Error,
>)
    ensures
        !success ==> (r matches Err(Error::AudioDecode(m)) && m@ == "ffmpeg failed: "@ + stderr@),
        success && stdout@.len() == 0 ==> (r matches Err(Error::AudioDecode(m)) && m@
            == "ffmpeg produced no output"@),
        success && stdout@.len() > 0 ==> (r matches Ok(samples) && samples@ == pcm_samples(
            stdout@,
        )),
{
    if !success {
        Err(Error::AudioDecode(prefixed("ffmpeg failed: ", stderr)))
    } else if stdout.len() == 0 {
        Err(Error::AudioDecode(String::from_str("ffmpeg produced no output")))
    } else {
        Ok(decode_pcm(stdout))
    }
}

/// `n_samples` at the fixed rate in whole seconds, rounded to the nearest,
/// a half to the even one.
pub open spec fn rounded_seconds(n_samples: nat) -> nat {
    let whole = n_samples / (SAMPLE_RATE as nat);
    let rest = n_samples % (SAMPLE_RATE as nat);
    if rest * 2 > SAMPLE_RATE || (rest * 2 == SAMPLE_RATE && whole % 2 == 1) {
        whole + 1
    } else {
        whole
    }
}

/// Refuses audio that is longer than eight hours.
pub fn check_duration(n_samples: usize) -> (r: Result<(), Error>)
    ensures
        n_samples <= MAX_AUDIO_SAMPLES ==> r is Ok,
        n_samples > MAX_AUDIO_SAMPLES ==> (r matches Err(Error::AudioDecode(m)) && m@
            == too_long_message(n_samples as nat)),
{
    let n: u64 = n_samples as u64;
    if n <= MAX_AUDIO_SAMPLES {
        Ok(())
    } else {
        let whole: u64 = n / SAMPLE_RATE;
        let rest: u64 = n % SAMPLE_RATE;
        let seconds: u64 = if rest * 2 > SAMPLE_RATE || (rest * 2 == SAMPLE_RATE && whole % 2
            == 1) {
            whole + 1
        } else {
            whole
        };
        let mut m = String::from_str("audio too long (");
        push_digits(&mut m, seconds);
        m.append("s) — maximum supported duration is ");
        push_digits(&mut m, MAX_AUDIO_SECONDS);
        m.append("s");
        Err(Error::AudioDecode(m))
    }
}

/// One step of the sample processor.
#[derive(Debug, Clone, Copy, PartialEq, Eq, Structural)]
pub enum ProcessingStep {
    /// Subtract the mean from every sample.
    RemoveDcOffset,
    /// Scale every sample so that the peak is 1.
    NormalizePeak,
    /// Cut leading and trailing silence, with the threshold in dB (as the
    /// bits of a single-precision number) and the padding in milliseconds.
    TrimSilence { threshold_db_bits: u32, pad_ms: u32 },
}

/// The steps that `processing` asks for, in the order in which they run:
/// offset removal, then normalisation, then trimming, whose threshold is
/// meant for normalised amplitudes.
pub open spec fn steps_of(processing: AudioProcessing) -> Seq<ProcessingStep> {
    (if processing.dc_offset_removal {
        seq![ProcessingStep::RemoveDcOffset]
    } else {
        Seq::empty()
    }) + (if processing.normalize {
        seq![ProcessingStep::NormalizePeak]
    } else {
        Seq::empty()
    }) + (if processing.trim_silence {
        seq![
            ProcessingStep::TrimSilence {
                threshold_db_bits: processing.silence_threshold_db_bits,
                pad_ms: processing.silence_pad_ms,
            },
        ]
    } else {
        Seq::empty()
    })
}

/// The processing steps to run on the decoded samples, in order.
pub fn processing_steps(processing: &AudioProcessing) -> (steps: Vec<ProcessingStep>)
    ensures
        steps@ == steps_of(*processing),
{
    let mut steps: Vec<ProcessingStep> = Vec::new();
    if processing.dc_offset_removal {
        steps.push(ProcessingStep::RemoveDcOffset);
    }
    if processing.normalize {
        steps.push(ProcessingStep::NormalizePeak);
    }
    if processing.trim_silence {
        steps.push(
            ProcessingStep::TrimSilence {
                threshold_db_bits: processing.silence_threshold_db_bits,
                pad_ms: processing.silence_pad_ms,
            },
        );
    }
    steps
}

/// The number of windows that a buffer of `n` samples is cut into: full
/// windows, and one shorter window for what is left at the end.
pub open spec fn windows_in(n: int) -> int {
    (n + WINDOW_SIZE - 1) / (WINDOW_SIZE as int)
}

/// Where window `k` of a buffer of `n` samples begins.
pub open spec fn window_start(k: int, n: int) -> int {
    if k * WINDOW_SIZE < n {
        k * WINDOW_SIZE
    } else {
        n
    }
}

/// Where window `k` of a buffer of `n` samples ends.
pub open spec fn window_end(k: int, n: int) -> int {
    if (k + 1) * WINDOW_SIZE < n {
        (k + 1) * WINDOW_SIZE
    } else {
        n
    }
}

/// The number of windows that a buffer of `n_samples` samples is cut into.
pub fn window_count(n_samples: usize) -> (count: usize)
    ensures
        count == windows_in(n_samples as int),
{
    let full: usize = n_samples / WINDOW_SIZE;
    if n_samples % WINDOW_SIZE == 0 {
        full
    } else {
        full + 1
    }
}

/// The samples of window `k` of a buffer of `n_samples` samples: from
/// `start` up to, not including, `end`. A window beyond the last one is empty.
pub fn window_range(k: usize, n_samples: usize) -> (range: (usize, usize))
    ensures
        range.0 == window_start(k as int, n_samples as int),
        range.1 == window_end(k as int, n_samples as int),
        range.0 <= range.1 <= n_samples,
        k < windows_in(n_samples as int) ==> range.0 < range.1,
{
    if k > n_samples / WINDOW_SIZE {
        (n_samples, n_samples)
    } else {
        let start: usize = k * WINDOW_SIZE;
        let end: usize = if n_samples - start > WINDOW_SIZE {
            start + WINDOW_SIZE
        } else {
            n_samples
        };
        (start, end)
    }
}

/// The index of the first window that is active, if any.
pub open spec fn first_true(flags: Seq<bool>) -> Option<int>
    decreases flags.len(),
{
    if flags.len() == 0 {
        None
    } else {
        match first_true(flags.drop_last()) {
            Some(k) => Some(k),
            None => if flags.last() {
                Some(flags.len() - 1)
            } else {
                None
            },
        }
    }
}

/// The index of the last window that is active, if any.
pub open spec fn last_true(flags: Seq<bool>) -> Option<int>
    decreases flags.len(),
{
    if flags.len() == 0 {
        None
    } else if flags.last() {
        Some(flags.len() - 1)
    } else {
        last_true(flags.drop_last())
    }
}

/// What `first_true` finds: the least index that holds `true`.
pub proof fn lemma_first_true(flags: Seq<bool>)
    ensures
        match first_true(flags) {
            Some(k) => 0 <= k < flags.len() && flags[k] && forall|j: int|
                0 <= j < k ==> !flags[j],
            None => forall|j: int| 0 <= j < flags.len() ==> !flags[j],
        },
    decreases flags.len(),
{
    if flags.len() > 0 {
        lemma_first_true(flags.drop_last());
        assert forall|j: int| 0 <= j < flags.len() - 1 implies flags[j] == flags.drop_last()[j] by {}
    }
}

/// What `last_true` finds: the greatest index that holds `true`.
pub proof fn lemma_last_true(flags: Seq<bool>)
    ensures
        match last_true(flags) {
            Some(k) => 0 <= k < flags.len() && flags[k] && forall|j: int|
                k < j < flags.len() ==> !flags[j],
            None => forall|j: int| 0 <= j < flags.len() ==> !flags[j],
        },
    decreases flags.len(),
{
    if flags.len() > 0 {
        lemma_last_true(flags.drop_last());
        assert forall|j: int| 0 <= j < flags.len() - 1 implies flags[j] == flags.drop_last()[j] by {}
    }
}

/// Scans forward for the first active window.
pub fn find_first_active(active: &Vec<bool>) -> (r: Option<usize>)
    ensures
        r is Some == first_true(active@) is Some,
        r matches Some(k) ==> k == first_true(active@)->0,
{
    let mut k: usize = 0;
    while k < active.len()
        invariant
            k <= active@.len(),
            first_true(active@.subrange(0, k as int)) is None,
        decreases active@.len() - k,
    {
        proof {
            assert(active@.subrange(0, k + 1).drop_last() =~= active@.subrange(0, k as int));
            lemma_first_true(active@);
            lemma_first_true(active@.subrange(0, k as int));
        }
        if active[k] {
            proof {
                let whole = first_true(active@);
                if whole->0 < k {
                    assert(active@.subrange(0, k as int)[whole->0] == active@[whole->0]);
                }
            }
            return Some(k);
        }
        k = k + 1;
    }
    proof {
        assert(active@.subrange(0, k as int) =~= active@);
    }
    None
}

/// Scans backward for the last active window.
pub fn find_last_active(active: &Vec<bool>) -> (r: Option<usize>)
    ensures
        r is Some == last_true(active@) is Some,
        r matches Some(k) ==> k == last_true(active@)->0,
{
    let mut k: usize = active.len();
    proof {
        assert(active@.subrange(0, k as int) =~= active@);
    }
    while k > 0
        invariant
            k <= active@.len(),
            last_true(active@) == last_true(active@.subrange(0, k as int)),
        decreases k,
    {
        proof {
            assert(active@.subrange(0, k as int).drop_last() =~= active@.subrange(0, k - 1));
        }
        k = k - 1;
        if active[k] {
            return Some(k);
        }
    }
    None
}

/// The padding of `pad_ms` milliseconds in samples.
pub open spec fn pad_samples(pad_ms: u32) -> int {
    SAMPLE_RATE * pad_ms / 1000
}

/// The part of a buffer of `n` samples that trimming keeps, as the sample
/// at which it begins and the sample before which it ends.
///
/// It reaches from the first active window to the last, widened by the
/// padding on both sides and cut off at the ends of the buffer. Where no
/// window is active, or where `flags` are not the flags of this buffer,
/// everything is kept.
pub open spec fn kept_range(n: int, flags: Seq<bool>, pad_ms: u32) -> (int, int) {
    if flags.len() != windows_in(n) {
        (0, n)
    } else {
        match (first_true(flags), last_true(flags)) {
            (Some(a), Some(b)) => {
                let start = window_start(a, n);
                let end = window_end(b, n);
                if start >= end {
                    (0, n)
                } else {
                    let pad = pad_samples(pad_ms);
                    (
                        if start >= pad {
                            start - pad
                        } else {
                            0
                        },
                        if end + pad <= n {
                            end + pad
                        } else {
                            n
                        },
                    )
                }
            },
            _ => (0, n),
        }
    }
}

/// The part of a buffer of `n_samples` samples that trimming keeps.
pub fn trim_range(n_samples: usize, active: &Vec<bool>, pad_ms: u32) -> (range: (usize, usize))
    ensures
        (range.0 as int, range.1 as int) == kept_range(n_samples as int, active@, pad_ms),
        range.0 <= range.1 <= n_samples,
{
    if active.len() != window_count(n_samples) {
        return (0, n_samples);
    }
    match (find_first_active(active), find_last_active(active)) {
        (Some(a), Some(b)) => {
            let (start, _) = window_range(a, n_samples);
            let (_, end) = window_range(b, n_samples);
            if start >= end {
                (0, n_samples)
            } else {
                let pad: u64 = SAMPLE_RATE * (pad_ms as u64) / 1000;
                let from: usize = if start as u64 >= pad {
                    (start as u64 - pad) as usize
                } else {
                    0
                };
                let room: usize = n_samples - end;
                let to: usize = if pad <= room as u64 {
                    end + (pad as usize)
                } else {
                    n_samples
                };
                (from, to)
            }
        },
        _ => (0, n_samples),
    }
}

/// Trims leading and trailing silence from `samples`, given for each
/// window whether it is active, and the padding to keep, in milliseconds.
///
/// The result is the kept part of the buffer, sample for sample.
pub fn trim_silence<T: Copy>(samples: &Vec<T>, active: &Vec<bool>, pad_ms: u32) -> (out: Vec<T>)
    ensures
        out@ == samples@.subrange(
            kept_range(samples@.len() as int, active@, pad_ms).0,
            kept_range(samples@.len() as int, active@, pad_ms).1,
        ),
{
    let (from, to) = trim_range(samples.len(), active, pad_ms);
    let mut out: Vec<T> = Vec::new();
    let mut i: usize = from;
    while i < to
        invariant
            from <= i <= to <= samples@.len(),
            out@ == samples@.subrange(from as int, i as int),
        decreases to - i,
    {
        out.push(samples[i]);
        i = i + 1;
    }
    out
}

/// Trimming a buffer without an active window keeps all of it.
pub proof fn silent_buffer_is_kept(n: int, flags: Seq<bool>, pad_ms: u32)
    requires
        0 <= n,
        forall|k: int| 0 <= k < flags.len() ==> !flags[k],
    ensures
        kept_range(n, flags, pad_ms) == (0int, n),
{
    lemma_first_true(flags);
}

/// Trimming a buffer in which every window is active keeps all of it.
pub proof fn active_buffer_is_kept(n: int, flags: Seq<bool>, pad_ms: u32)
    requires
        0 <= n,
        forall|k: int| 0 <= k < flags.len() ==> flags[k],
    ensures
        kept_range(n, flags, pad_ms) == (0int, n),
{
    lemma_first_true(flags);
    if flags.len() == windows_in(n) && flags.len() > 0 {
        assert(flags[0]);
    }
}

/// What trimming keeps is a part of the buffer that holds every active
/// window: trimming never cuts into detected signal.
pub proof fn kept_range_covers_activity(n: int, flags: Seq<bool>, pad_ms: u32, k: int)
    requires
        0 <= n,
        flags.len() == windows_in(n),
        0 <= k < flags.len(),
        flags[k],
    ensures
        0 <= kept_range(n, flags, pad_ms).0 <= window_start(k, n),
        window_end(k, n) <= kept_range(n, flags, pad_ms).1,
        kept_range(n, flags, pad_ms).1 <= n,
{
    lemma_first_true(flags);
    lemma_last_true(flags);
    let a = first_true(flags)->0;
    let b = last_true(flags)->0;
    assert(a * WINDOW_SIZE <= k * WINDOW_SIZE) by (nonlinear_arith)
        requires
            a <= k,
    ;
    assert((k + 1) * WINDOW_SIZE <= (b + 1) * WINDOW_SIZE) by (nonlinear_arith)
        requires
            k <= b,
    ;
}

/// How far the loading of one file has come.
#[derive(Debug, Clone, Copy, PartialEq, Eq, Structural)]
pub enum LoadStage {
    /// The file is being looked for.
    Looking,
    /// The decoder is running.
    Decoding,
    /// The decoded samples are being taken over.
    Converting,
    /// A processing step is being applied.
    Processing,
    /// The samples are ready.
    Done,
    /// Loading was given up.
    Failed,
}

/// What the caller found out since the last step.
#[derive(Debug)]
pub enum LoadEvent {
    /// Whether the file exists.
    Looked { exists: bool },
    /// The decoder could not be started; `not_found` where the program is
    /// not installed, else `complaint` is the system's.
    LaunchFailed { not_found: bool, complaint: String },
    /// The decoder ran and left these outputs.
    Decoded { success: bool, stdout: Vec<u8>, stderr: String },
    /// The samples were taken over.
    Converted,
    /// The processing step was applied.
    Applied,
}

/// What the caller is to do next.
#[derive(Debug)]
pub enum LoadAction {
    /// Find out whether the file exists.
    Look,
    /// Run the decoder with `input_args`, the file, and `output_args`.
    Decode { input_args: Vec<String>, output_args: Vec<String> },
    /// Take the samples over, each divided by 32768.
    Convert { samples: Vec<i16> },
    /// Apply the step to the buffer.
    Apply(ProcessingStep),
    /// Finished: the buffer is ready for the engine.
    Finish,
    /// Give up and report the error.
    Fail(Error),
}

/// The mathematical value of an [`AudioLoad`].
pub struct AudioLoadModel {
    pub stage: LoadStage,
    pub path: PathBuf,
    /// The processing steps of this load, in order.
    pub steps: Seq<ProcessingStep>,
    /// How many of them have been handed out.
    pub next: nat,
}

/// The loading of one audio file, step by step.
#[derive(Debug)]
pub struct AudioLoad {
    stage: LoadStage,
    path: PathBuf,
    steps: Vec<ProcessingStep>,
    next: usize,
}

impl View for AudioLoad {
    type V = AudioLoadModel;

    closed spec fn view(&self) -> AudioLoadModel {
        AudioLoadModel {
            stage: self.stage,
            path: self.path,
            steps: self.steps@,
            next: self.next as nat,
        }
    }
}

/// Whether `action` gives up with a decode error that says `message`.
pub open spec fn fails_decoding(action: LoadAction, message: Seq<char>) -> bool {
    action matches LoadAction::Fail(Error::AudioDecode(m)) && m@ == message
}

/// What is reported of audio that is too long.
pub open spec fn too_long_message(n_samples: nat) -> Seq<char> {
    "audio too long ("@ + decimal(rounded_seconds(n_samples))
        + "s) — maximum supported duration is "@ + decimal(MAX_AUDIO_SECONDS as nat) + "s"@
}

/// What a step may do, given the load before it and the event: the load
/// after it and the action.
pub open spec fn load_step_allows(
    before: AudioLoadModel,
    event: LoadEvent,
    after: AudioLoadModel,
    action: LoadAction,
) -> bool {
    let moved = after == (AudioLoadModel { stage: after.stage, ..before });
    let failed = after == (AudioLoadModel { stage: LoadStage::Failed, ..before });
    match (before.stage, event) {
        (LoadStage::Looking, LoadEvent::Looked { exists }) => if exists {
            &&& moved
            &&& after.stage == LoadStage::Decoding
            &&& action is Decode
            &&& texts(action->input_args@) == input_args()
            &&& texts(action->output_args@) == output_args()
        } else {
            failed && action == LoadAction::Fail(Error::AudioNotFound { path: before.path })
        },
        (LoadStage::Decoding, LoadEvent::LaunchFailed { not_found, complaint }) => failed
            && fails_decoding(
            action,
            if not_found {
                "ffmpeg not found — install with: apt install ffmpeg"@
            } else {
                "failed to run ffmpeg: "@ + complaint@
            },
        ),
        (LoadStage::Decoding, LoadEvent::Decoded { success, stdout, stderr }) => if !success {
            failed && fails_decoding(action, "ffmpeg failed: "@ + stderr@)
        } else if stdout@.len() == 0 {
            failed && fails_decoding(action, "ffmpeg produced no output"@)
        } else if pcm_samples(stdout@).len() > MAX_AUDIO_SAMPLES {
            failed && fails_decoding(action, too_long_message(pcm_samples(stdout@).len()))
        } else {
            &&& moved
            &&& after.stage == LoadStage::Converting
            &&& action is Convert
            &&& action->samples@ == pcm_samples(stdout@)
        },
        (LoadStage::Converting, LoadEvent::Converted) | (
            LoadStage::Processing,
            LoadEvent::Applied,
        ) => if before.next < before.steps.len() {
            &&& after == (AudioLoadModel {
                stage: LoadStage::Processing,
                next: before.next + 1,
                ..before
            })
            &&& action == LoadAction::Apply(before.steps[before.next as int])
        } else {
            moved && after.stage == LoadStage::Done && action is Finish
        },
        _ => failed && fails_decoding(action, "loading steps out of order"@),
    }
}

/// Starts loading the audio file at `path` with the processing that
/// `processing` asks for.
///
/// The caller is asked to look for the file, and goes on with
/// [`AudioLoad::step`] until it is told to finish or to fail. In between it
/// is told to run the decoder, to take the samples over, and to apply the
/// processing steps one by one in their fixed order.
pub fn load_audio(path: PathBuf, processing: &AudioProcessing) -> (r: (AudioLoad, LoadAction))
    ensures
        r.0@ == (AudioLoadModel {
            stage: LoadStage::Looking,
            path,
            steps: steps_of(*processing),
            next: 0,
        }),
        r.1 is Look,
{
    let load = AudioLoad {
        stage: LoadStage::Looking,
        path,
        steps: processing_steps(processing),
        next: 0,
    };
    (load, LoadAction::Look)
}

impl AudioLoad {
    /// No more steps have been handed out than there are.
    #[verifier::type_invariant]
    closed spec fn in_bounds(&self) -> bool {
        self.next <= self.steps@.len()
    }

    /// How far the loading has come.
    pub fn stage(&self) -> (stage: LoadStage)
        ensures
            stage == self@.stage,
    {
        self.stage
    }

    /// Gives the loading up with `error`.
    fn fail(self, error: Error) -> (r: (AudioLoad, LoadAction))
        ensures
            r.0@ == (AudioLoadModel { stage: LoadStage::Failed, ..self@ }),
            r.1 == LoadAction::Fail(error),
    {
        proof {
            use_type_invariant(&self);
        }
        let failed = AudioLoad {
            stage: LoadStage::Failed,
            path: self.path,
            steps: self.steps,
            next: self.next,
        };
        (failed, LoadAction::Fail(error))
    }

    /// Moves on to `stage` with nothing else changed.
    fn advance(self, stage: LoadStage) -> (r: AudioLoad)
        ensures
            r@ == (AudioLoadModel { stage, ..self@ }),
    {
        proof {
            use_type_invariant(&self);
        }
        AudioLoad { stage, path: self.path, steps: self.steps, next: self.next }
    }

    /// Hands out the next processing step, or finishes where none is left.
    fn next_step(self) -> (r: (AudioLoad, LoadAction))
        ensures
            self@.next < self@.steps.len() ==> r.0@ == (AudioLoadModel {
                stage: LoadStage::Processing,
                next: self@.next + 1,
                ..self@
            }) && r.1 == LoadAction::Apply(self@.steps[self@.next as int]),
            self@.next >= self@.steps.len() ==> r.0@ == (AudioLoadModel {
                stage: LoadStage::Done,
                ..self@
            }) && r.1 is Finish,
    {
        if self.next < self.steps.len() {
            let step = self.steps[self.next];
            let load = AudioLoad {
                stage: LoadStage::Processing,
                path: self.path,
                steps: self.steps,
                next: self.next + 1,
            };
            (load, LoadAction::Apply(step))
        } else {
            (self.advance(LoadStage::Done), LoadAction::Finish)
        }
    }

    /// Advances the loading: from what the caller found out to the next
    /// thing to do.
    pub fn step(self, event: LoadEvent) -> (r: (AudioLoad, LoadAction))
        ensures
            load_step_allows(self@, event, r.0@, r.1),
    {
        let stage = self.stage;
        match event {
            LoadEvent::Looked { exists } => {
                if stage != LoadStage::Looking {
                    self.out_of_order()
                } else {
                    match check_audio_exists(&self.path, exists) {
                        Ok(_) => {
                            let action = LoadAction::Decode {
                                input_args: decoder_input_args(),
                                output_args: decoder_output_args(),
                            };
                            (self.advance(LoadStage::Decoding), action)
                        },
                        Err(e) => self.fail(e),
                    }
                }
            },
            LoadEvent::LaunchFailed { not_found, complaint } => {
                if stage != LoadStage::Decoding {
                    self.out_of_order()
                } else {
                    let e = launch_failure(not_found, complaint.as_str());
                    self.fail(e)
                }
            },
            LoadEvent::Decoded { success, stdout, stderr } => {
                if stage != LoadStage::Decoding {
                    self.out_of_order()
                } else {
                    match decode_output(success, &stdout, stderr.as_str()) {
                        Err(e) => self.fail(e),
                        Ok(samples) => match check_duration(samples.len()) {
                            Err(e) => self.fail(e),
                            Ok(_) => (
                                self.advance(LoadStage::Converting),
                                LoadAction::Convert { samples },
                            ),
                        },
                    }
                }
            },
            LoadEvent::Converted => {
                if stage != LoadStage::Converting {
                    self.out_of_order()
                } else {
                    self.next_step()
                }
            },
            LoadEvent::Applied => {
                if stage != LoadStage::Processing {
                    self.out_of_order()
                } else {
                    self.next_step()
                }
            },
        }
    }

    /// Gives the loading up because the event does not belong to the stage.
    fn out_of_order(self) -> (r: (AudioLoad, LoadAction))
        ensures
            r.0@ == (AudioLoadModel { stage: LoadStage::Failed, ..self@ }),
            fails_decoding(r.1, "loading steps out of order"@),
    {
        self.fail(Error::AudioDecode(String::from_str("loading steps out of order")))
    }
}

} // verus!
