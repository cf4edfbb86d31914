use transcriber::types::format_srt_time;
use transcriber::types::format_vtt_time;
use transcriber::Segment;
use transcriber::Transcript;
use transcriber::Word;

/// Seconds as whole milliseconds, the fraction cut off.
fn ms(seconds: f64) -> u64 {
    (seconds * 1000.0) as u64
}

/// Seconds as centiseconds.
fn cs(seconds: f64) -> i64 {
    (seconds * 100.0).round() as i64
}

/// Seconds as samples at 16 kHz.
fn samples(seconds: f64) -> u64 {
    (seconds * 16_000.0).round() as u64
}

fn sample_transcript() -> Transcript {
    Transcript {
        segments: vec![
            Segment {
                start_cs: cs(0.0),
                end_cs: cs(2.5),
                text: " Hello world.".into(),
                speaker_turn: false,
                no_speech_probability_bits: 0.1f32.to_bits(),
                words: Some(vec![
                    Word {
                        text: " Hello".into(),
                        start_cs: cs(0.0),
                        end_cs: cs(1.0),
                        probability_bits: 0.95f32.to_bits(),
                    },
                    Word {
                        text: " world.".into(),
                        start_cs: cs(1.0),
                        end_cs: cs(2.5),
                        probability_bits: 0.90f32.to_bits(),
                    },
                ]),
            },
            Segment {
                start_cs: cs(3.0),
                end_cs: cs(5.5),
                text: " How are you?".into(),
                speaker_turn: true,
                no_speech_probability_bits: 0.05f32.to_bits(),
                words: None,
            },
        ],
        language: "en".into(),
        duration_samples: samples(5.5),
        model: "large-v3".into(),
        source_url: Some("https://example.com/video".into()),
        source_title: Some("Test Video".into()),
    }
}

fn empty_transcript() -> Transcript {
    Transcript {
        segments: vec![],
        language: "en".into(),
        duration_samples: samples(0.0),
        model: "tiny".into(),
        source_url: None,
        source_title: None,
    }
}

#[test]
fn test_text_output() {
    let t = sample_transcript();
    assert_eq!(t.text(), "Hello world. How are you?");
}

#[test]
fn test_text_empty_transcript() {
    let t = empty_transcript();
    assert_eq!(t.text(), "");
}

#[test]
fn test_text_single_segment() {
    let t = Transcript {
        segments: vec![Segment {
            start_cs: cs(0.0),
            end_cs: cs(1.0),
            text: " Just one segment.".into(),
            speaker_turn: false,
            no_speech_probability_bits: 0.0f32.to_bits(),
            words: None,
        }],
        language: "en".into(),
        duration_samples: samples(1.0),
        model: "tiny".into(),
        source_url: None,
        source_title: None,
    };
    assert_eq!(t.text(), "Just one segment.");
}

#[test]
fn test_srt_format() {
    let t = sample_transcript();
    let srt = t.to_srt();

    assert!(srt.starts_with("1\n"));
    assert!(srt.contains("00:00:00,000 --> 00:00:02,500"));
    assert!(srt.contains("Hello world."));
    assert!(srt.contains("2\n"));
    assert!(srt.contains("00:00:03,000 --> 00:00:05,500"));
    assert!(srt.contains("How are you?"));
}

#[test]
fn test_srt_empty() {
    let t = empty_transcript();
    assert_eq!(t.to_srt(), "");
}

#[test]
fn test_vtt_format() {
    let t = sample_transcript();
    let vtt = t.to_vtt();

    assert!(vtt.starts_with("WEBVTT\n\n"));
    assert!(vtt.contains("00:00:00.000 --> 00:00:02.500"));
    assert!(vtt.contains("Hello world."));
    assert!(vtt.contains("00:00:03.000 --> 00:00:05.500"));
    assert!(vtt.contains("How are you?"));
}

#[test]
fn test_vtt_header() {
    let t = empty_transcript();
    assert_eq!(t.to_vtt(), "WEBVTT\n\n");
}

#[test]
fn test_srt_time_formatting() {
    assert_eq!(format_srt_time(ms(0.0)), "00:00:00,000");
    assert_eq!(format_srt_time(ms(1.5)), "00:00:01,500");
    assert_eq!(format_srt_time(ms(61.123)), "00:01:01,123");
    assert_eq!(format_srt_time(ms(3661.999)), "01:01:01,999");
}

#[test]
fn test_vtt_time_formatting() {
    assert_eq!(format_vtt_time(ms(0.0)), "00:00:00.000");
    assert_eq!(format_vtt_time(ms(1.5)), "00:00:01.500");
    assert_eq!(format_vtt_time(ms(61.123)), "00:01:01.123");
    assert_eq!(format_vtt_time(ms(3661.999)), "01:01:01.999");
}

#[test]
fn test_srt_vs_vtt_separator() {
    // SRT uses comma, VTT uses period
    assert!(format_srt_time(ms(1.5)).contains(','));
    assert!(format_vtt_time(ms(1.5)).contains('.'));
    assert!(!format_srt_time(ms(1.5)).contains('.'));
}

#[test]
fn test_segment_numbering_srt() {
    let t = Transcript {
        segments: (0..5)
            .map(|i| Segment {
                start_cs: cs(i as f64),
                end_cs: cs((i + 1) as f64),
                text: format!(" Segment {i}"),
                speaker_turn: false,
                no_speech_probability_bits: 0.0f32.to_bits(),
                words: None,
            })
            .collect(),
        language: "en".into(),
        duration_samples: samples(5.0),
        model: "tiny".into(),
        source_url: None,
        source_title: None,
    };
    let srt = t.to_srt();
    for i in 1..=5 {
        assert!(srt.contains(&format!("{i}\n")));
    }
}

#[test]
fn srt_rendering_is_exact() {
    let t = sample_transcript();
    assert_eq!(
        t.to_srt(),
        "1\n00:00:00,000 --> 00:00:02,500\nHello world.\n\n2\n00:00:03,000 --> 00:00:05,500\nHow are you?\n\n"
    );
}

#[test]
fn vtt_rendering_is_exact() {
    let t = sample_transcript();
    let vtt = t.to_vtt();
    assert_eq!(
        vtt,
        "WEBVTT\n\n00:00:00.000 --> 00:00:02.500\nHello world.\n\n00:00:03.000 --> 00:00:05.500\nHow are you?\n\n"
    );
    assert!(!vtt.contains(','));
}

#[test]
fn time_formatting_of_whole_milliseconds() {
    assert_eq!(format_srt_time(0), "00:00:00,000");
    assert_eq!(format_srt_time(999), "00:00:00,999");
    assert_eq!(format_srt_time(1_000), "00:00:01,000");
    assert_eq!(format_srt_time(59_999), "00:00:59,999");
    assert_eq!(format_srt_time(60_000), "00:01:00,000");
    assert_eq!(format_srt_time(3_599_999), "00:59:59,999");
    assert_eq!(format_srt_time(3_600_000), "01:00:00,000");
    assert_eq!(format_vtt_time(3_661_999), "01:01:01.999");
    assert_eq!(format_vtt_time(7), "00:00:00.007");
    assert_eq!(format_vtt_time(70), "00:00:00.070");
}

#[test]
fn time_formatting_of_long_durations() {
    // Hours take as many digits as they need.
    assert_eq!(format_srt_time(99 * 3_600_000), "99:00:00,000");
    assert_eq!(format_srt_time(100 * 3_600_000 + 1), "100:00:00,001");
    assert_eq!(format_vtt_time(u64::MAX), "5124095576030:25:51.615");
}

#[test]
fn srt_and_vtt_times_differ_in_the_separator_only() {
    for total in [0u64, 1, 999, 1_000, 61_123, 3_661_999, 86_400_000, u64::MAX] {
        let srt = format_srt_time(total);
        let vtt = format_vtt_time(total);
        assert_eq!(srt.replace(',', "."), vtt);
        assert_eq!(srt.len(), vtt.len());
        assert_eq!(srt.as_bytes()[srt.len() - 4], b',');
        assert_eq!(vtt.as_bytes()[vtt.len() - 4], b'.');
    }
}

#[test]
fn text_trims_every_segment() {
    let mut t = sample_transcript();
    t.segments[0].text = "\t Hello \n".into();
    t.segments[1].text = "\u{a0}world\u{3000}".into();
    assert_eq!(t.text(), "Hello world");
    // A segment of whitespace alone leaves an empty text between the spaces.
    t.segments[0].text = "   ".into();
    assert_eq!(t.text(), " world");
    assert_eq!(t.to_srt(), "1\n00:00:00,000 --> 00:00:02,500\n\n\n2\n00:00:03,000 --> 00:00:05,500\nworld\n\n");
}

#[test]
fn with_source_sets_url_and_title_only() {
    let mut t = sample_transcript();
    t.source_url = None;
    t.source_title = None;
    let t = t.with_source("https://example.com/a", Some("A title".to_string()));
    assert_eq!(t.source_url.as_deref(), Some("https://example.com/a"));
    assert_eq!(t.source_title.as_deref(), Some("A title"));
    assert_eq!(t.segments.len(), 2);
    assert_eq!(t.language, "en");
    assert_eq!(t.duration_samples, 88_000);
    assert_eq!(t.model, "large-v3");
    let t = t.with_source("http://example.com/b", None);
    assert_eq!(t.source_url.as_deref(), Some("http://example.com/b"));
    assert!(t.source_title.is_none());
}

#[test]
fn times_before_zero_are_shown_as_zero() {
    use_times(-1, -1, "00:00:00,000 --> 00:00:00,000");
    use_times(i64::MIN, 0, "00:00:00,000 --> 00:00:00,000");
    use_times(-250, 250, "00:00:00,000 --> 00:00:02,500");
    use_times(1, 201, "00:00:00,010 --> 00:00:02,010");
    use_times(366_199, 2_880_000, "01:01:01,990 --> 08:00:00,000");
    use_times(
        1_844_674_407_370_955_161,
        i64::MAX,
        "5124095576030:25:51.610 --> 5124095576030:25:51.615".replace('.', ",").as_str(),
    );
}

/// Checks the time line of a single segment with these times in SRT and in WebVTT.
fn use_times(start_cs: i64, end_cs: i64, line: &str) {
    let mut t = empty_transcript();
    t.segments.push(Segment {
        start_cs,
        end_cs,
        text: "x".into(),
        speaker_turn: false,
        no_speech_probability_bits: 0,
        words: None,
    });
    assert_eq!(t.to_srt(), format!("1\n{line}\nx\n\n"));
    assert_eq!(t.to_vtt(), format!("WEBVTT\n\n{}\nx\n\n", line.replace(',', ".")));
    // What is shown does not change what is held.
    assert_eq!((t.segments[0].start_cs, t.segments[0].end_cs), (start_cs, end_cs));
}
