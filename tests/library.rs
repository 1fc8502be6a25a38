use essence::audio::{check_format, downmix, frame_count, AudioClip, AudioFormat, SampleFormat, SAMPLE_SCALE};
use essence::error::{Error, ErrorKind};
use essence::prompt::build_prompt;
use essence::settings::{decode_settings, summary_sampling, SamplingSettings};
use essence::stream::{batch_text, SinkAction, SinkPhase, StreamEvent, StreamSink};
use essence::transcript::assemble;

fn strings(items: &[&str]) -> Vec<String> {
    items.iter().map(|s| s.to_string()).collect()
}

fn clip(samples: Vec<i16>, channels: u16) -> AudioClip {
    AudioClip { samples, channels, sample_rate: 16000 }
}

fn pcm16(channels: u16) -> AudioFormat {
    AudioFormat { channels, sample_rate: 16000, bits_per_sample: 16, sample_format: SampleFormat::Int }
}

#[test]
fn error_new_keeps_message() {
    let e = Error::new("boom");
    assert_eq!(e.message, "boom");
    assert_eq!(e.kind, ErrorKind::Other);
    assert_eq!(e.message(), "boom");
}

#[test]
fn error_wrap_names_step_and_cause() {
    let e = Error::wrap(ErrorKind::Load, "Failed to load model", "no such file");
    assert_eq!(e.kind, ErrorKind::Load);
    assert_eq!(e.message, "Failed to load model: no such file");
    let k = Error::with_kind(ErrorKind::Inference, "bad run");
    assert_eq!(k.kind, ErrorKind::Inference);
    assert_eq!(k.message, "bad run");
}

#[test]
fn format_accepts_16_bit_integer_pcm() {
    assert!(check_format(&pcm16(1)).is_ok());
    assert!(check_format(&pcm16(2)).is_ok());
}

#[test]
fn format_rejects_other_depths_and_encodings() {
    let mut f = pcm16(1);
    f.bits_per_sample = 24;
    assert_eq!(check_format(&f).unwrap_err().kind, ErrorKind::Format);
    let mut g = pcm16(1);
    g.bits_per_sample = 32;
    g.sample_format = SampleFormat::Float;
    assert_eq!(check_format(&g).unwrap_err().kind, ErrorKind::Format);
    assert_eq!(check_format(&pcm16(0)).unwrap_err().kind, ErrorKind::Format);
}

#[test]
fn frame_count_divides_by_channels() {
    assert_eq!(frame_count(6, 2).unwrap(), 3);
    assert_eq!(frame_count(6, 3).unwrap(), 2);
    assert_eq!(frame_count(0, 2).unwrap(), 0);
    assert_eq!(frame_count(5, 2).unwrap_err().kind, ErrorKind::Conversion);
    assert_eq!(frame_count(4, 0).unwrap_err().kind, ErrorKind::Conversion);
}

#[test]
fn mono_downmix_keeps_every_sample() {
    let samples = vec![0i16, 1, -1, 16384, -32768, 32767];
    let out = downmix(&clip(samples.clone(), 1)).unwrap();
    assert_eq!(out.len(), samples.len());
    for (o, s) in out.iter().zip(samples.iter()) {
        assert_eq!(*o, *s as i32);
        let normalized = *o as f32 / SAMPLE_SCALE as f32;
        let expected = *s as f32 / 32768.0;
        assert!((normalized - expected).abs() < 1e-7);
    }
    assert_eq!(out[4] as f32 / SAMPLE_SCALE as f32, -1.0);
    assert_eq!(out[3] as f32 / SAMPLE_SCALE as f32, 0.5);
}

#[test]
fn stereo_downmix_sums_each_frame() {
    let out = downmix(&clip(vec![100, 300, -2, 4, 32767, 32767], 2)).unwrap();
    assert_eq!(out, vec![400, 2, 65534]);
    let averaged: Vec<f32> = out.iter().map(|v| *v as f32 / (SAMPLE_SCALE as f32 * 2.0)).collect();
    assert!((averaged[0] - 200.0 / 32768.0).abs() < 1e-7);
}

#[test]
fn multichannel_downmix_length_is_frames() {
    let samples: Vec<i16> = (0..12).map(|i| i as i16).collect();
    let out = downmix(&clip(samples, 3)).unwrap();
    assert_eq!(out, vec![3, 12, 21, 30]);
    let out4 = downmix(&clip(vec![-32768; 8], 4)).unwrap();
    assert_eq!(out4, vec![-131072, -131072]);
}

#[test]
fn downmix_rejects_partial_frames() {
    let e = downmix(&clip(vec![1, 2, 3], 2)).unwrap_err();
    assert_eq!(e.kind, ErrorKind::Conversion);
    let e3 = downmix(&clip(vec![1, 2, 3, 4], 3)).unwrap_err();
    assert_eq!(e3.kind, ErrorKind::Conversion);
    let e0 = downmix(&clip(vec![1, 2], 0)).unwrap_err();
    assert_eq!(e0.kind, ErrorKind::Conversion);
}

#[test]
fn downmix_of_empty_clip_is_empty() {
    assert_eq!(downmix(&clip(vec![], 2)).unwrap(), Vec::<i32>::new());
}

#[test]
fn assemble_empty_is_empty() {
    assert_eq!(assemble(&vec![]), "");
}

#[test]
fn assemble_joins_with_newlines() {
    assert_eq!(assemble(&strings(&["a", "b"])), "a\nb");
    assert_eq!(assemble(&strings(&["only"])), "only");
    assert_eq!(assemble(&strings(&[" Hello.", " World.", ""])), " Hello.\n World.\n");
}

#[test]
fn prompt_holds_transcript_verbatim() {
    let transcript = "Alice: ship on Friday.\nBob: {not escaped} \"quoted\"";
    let p = build_prompt(transcript);
    assert!(p.contains(transcript));
    assert!(p.starts_with("\nYou are an AI assistant that summarizes meeting transcriptions."));
    assert!(p.contains("5. Keep the summary concise but comprehensive\n"));
    assert!(p.ends_with(&format!("transcript:\n            {}\n            ", transcript)));
    let empty = build_prompt("");
    assert_eq!(p.len(), empty.len() + transcript.len());
}

#[test]
fn batch_text_concatenates_in_order() {
    assert_eq!(batch_text(&strings(&["a", "b", "c"])), "abc");
    assert_eq!(batch_text(&vec![]), "");
}

fn written(action: SinkAction) -> String {
    match action {
        SinkAction::WriteAndFlush(t) => t,
        _ => panic!("expected a write"),
    }
}

#[test]
fn stream_batches_are_written_in_order_with_a_flush_each() {
    let mut sink = StreamSink::new();
    let mut out = String::new();
    let mut flushes = Vec::new();
    out.push_str(&written(sink.step(StreamEvent::Batch(strings(&["a", "b"])))));
    flushes.push(out.clone());
    out.push_str(&written(sink.step(StreamEvent::Batch(strings(&["c"])))));
    flushes.push(out.clone());
    assert!(matches!(sink.step(StreamEvent::End), SinkAction::Finish));
    assert_eq!(out, "abc");
    assert_eq!(flushes, vec!["ab".to_string(), "abc".to_string()]);
    assert_eq!(sink.phase(), SinkPhase::Finished);
    assert!(matches!(sink.step(StreamEvent::Batch(strings(&["d"]))), SinkAction::Stopped));
}

#[test]
fn stream_failure_keeps_flushed_prefix() {
    let mut sink = StreamSink::new();
    let mut out = written(sink.step(StreamEvent::Batch(strings(&["Sum", "mary"]))));
    match sink.step(StreamEvent::ReadFailed("connection reset".to_string())) {
        SinkAction::Abort(e) => {
            assert_eq!(e.kind, ErrorKind::Generation);
            assert_eq!(e.message, "Failed to get response: connection reset");
        }
        _ => panic!("expected an abort"),
    }
    assert_eq!(sink.phase(), SinkPhase::Failed);
    match sink.step(StreamEvent::Batch(strings(&["more"]))) {
        SinkAction::WriteAndFlush(t) => out.push_str(&t),
        SinkAction::Stopped => {}
        _ => panic!("unexpected action"),
    }
    assert!(matches!(sink.step(StreamEvent::End), SinkAction::Stopped));
    assert_eq!(out, "Summary");
}

#[test]
fn stream_write_failure_is_an_io_error() {
    let mut sink = StreamSink::new();
    let _ = written(sink.step(StreamEvent::Batch(strings(&["x"]))));
    match sink.step(StreamEvent::WriteFailed("broken pipe".to_string())) {
        SinkAction::Abort(e) => {
            assert_eq!(e.kind, ErrorKind::Io);
            assert_eq!(e.message, "Failed to write to stdout: broken pipe");
        }
        _ => panic!("expected an abort"),
    }
    assert_eq!(sink.phase(), SinkPhase::Failed);
}

#[test]
fn stream_without_batches_finishes_empty() {
    let mut sink = StreamSink::new();
    assert_eq!(sink.phase(), SinkPhase::Streaming);
    assert!(matches!(sink.step(StreamEvent::End), SinkAction::Finish));
}

#[test]
fn decoding_is_greedy_and_quiet() {
    let s = decode_settings("de");
    assert_eq!(s.best_of, 1);
    assert_eq!(s.language, "de");
    assert!(!s.print_special && !s.print_progress && !s.print_realtime && !s.print_timestamps);
}

#[test]
fn summary_sampling_is_low_variance() {
    let s = summary_sampling();
    assert_eq!(s, SamplingSettings { temperature_percent: 20, top_k: 25, top_p_percent: 25 });
    assert_eq!(s.temperature_percent as f32 / 100.0, 0.2);
    assert_eq!(s.top_p_percent as f32 / 100.0, 0.25);
}

#[test]
fn stream_flush_failure_is_an_io_error() {
    let mut sink = StreamSink::new();
    let out = written(sink.step(StreamEvent::Batch(strings(&["y", "z"]))));
    match sink.step(StreamEvent::FlushFailed("device full".to_string())) {
        SinkAction::Abort(e) => {
            assert_eq!(e.kind, ErrorKind::Io);
            assert_eq!(e.message, "Failed to flush stdout: device full");
        }
        _ => panic!("expected an abort"),
    }
    assert_eq!(sink.phase(), SinkPhase::Failed);
    assert!(matches!(sink.step(StreamEvent::Batch(strings(&["w"]))), SinkAction::Stopped));
    assert_eq!(out, "yz");
}
