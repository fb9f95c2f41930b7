use std::io::Cursor;

use listen::capture::{should_auto_stop, CaptureSession, StopReason};
use listen::config::{Args, Config};
use listen::error::ListenError;
use listen::output::{persist_outcome, render_console_output, render_json, require_existing_file};
use listen::sample::samples_from_wav_bytes;
use listen::silence::is_silent;
use listen::transcribe::{
    assemble_transcription, build_request, finalize_result, model_candidates, pick_model_path,
};

fn wav_bytes(rate: u32, samples: &[i16]) -> Vec<u8> {
    let spec = hound::WavSpec {
        channels: 1,
        sample_rate: rate,
        bits_per_sample: 16,
        sample_format: hound::SampleFormat::Int,
    };
    let mut bytes: Vec<u8> = Vec::new();
    {
        let mut writer = hound::WavWriter::new(Cursor::new(&mut bytes), spec).unwrap();
        for &s in samples {
            writer.write_sample(s).unwrap();
        }
        writer.finalize().unwrap();
    }
    bytes
}

fn plain_args() -> Args {
    Args {
        file: None,
        language: "es".to_string(),
        model: "base".to_string(),
        signal_mode: false,
        vad_ms: None,
        codevoice: false,
        fast_mode: false,
        verbose: false,
        quiet: false,
        json: false,
        output: None,
        status_file: None,
    }
}

#[test]
fn conforming_wav_passes_through_unaltered() {
    let samples = [0i16, 100, -100, 32767, -32768, 7];
    let bytes = wav_bytes(16000, &samples);
    let buf = samples_from_wav_bytes(&bytes, "input.wav").unwrap();
    assert_eq!(buf.samples, samples.to_vec());
}

#[test]
fn empty_wav_yields_empty_buffer() {
    let bytes = wav_bytes(16000, &[]);
    let buf = samples_from_wav_bytes(&bytes, "input.wav").unwrap();
    assert_eq!(buf.samples.len(), 0);
}

#[test]
fn wrong_sample_rate_is_audio_error() {
    let bytes = wav_bytes(44100, &[1, 2, 3]);
    let err = samples_from_wav_bytes(&bytes, "song.wav").unwrap_err();
    match &err {
        ListenError::Audio(m) => {
            assert!(m.contains("16kHz"));
            assert!(m.contains("got 44100Hz"));
            assert!(m.contains("ffmpeg"));
            assert!(m.contains("song.wav"));
        }
        other => panic!("expected Audio error, got {:?}", other),
    }
}

#[test]
fn non_wav_bytes_are_audio_error() {
    let bytes = b"certainly not a wav container".to_vec();
    let err = samples_from_wav_bytes(&bytes, "notes.mp3").unwrap_err();
    match &err {
        ListenError::Audio(m) => {
            assert!(m.contains("Convert to WAV"));
            assert!(m.contains("notes.mp3"));
        }
        other => panic!("expected Audio error, got {:?}", other),
    }
}

#[test]
fn all_zero_window_is_silent_at_any_positive_threshold() {
    let zeros = vec![0i16; 1600];
    assert!(is_silent(&zeros, 655));
    assert!(is_silent(&zeros, 1));
}

#[test]
fn constant_window_above_threshold_is_not_silent() {
    let loud = vec![700i16; 1600];
    assert!(!is_silent(&loud, 655));
    let loud_neg = vec![-700i16; 1600];
    assert!(!is_silent(&loud_neg, 655));
}

#[test]
fn mean_at_threshold_counts_as_silent() {
    let edge = vec![655i16; 1600];
    assert!(is_silent(&edge, 655));
}

#[test]
fn session_buffer_grows_monotonically_and_snapshots_exactly() {
    let mut sess = CaptureSession::new();
    let mut expected: Vec<i16> = Vec::new();
    let mut last_len = 0usize;
    for round in 0..5i16 {
        let chunk = vec![round; 1600];
        sess.append_chunk(&chunk);
        expected.extend_from_slice(&chunk);
        assert!(sess.buffer.len() >= last_len);
        last_len = sess.buffer.len();
    }
    assert!(sess.note_key(b'x') == false);
    assert!(sess.note_key(b' '));
    let (buf, reason) = sess.finish();
    assert!(matches!(reason, StopReason::UserSignal));
    assert_eq!(buf.samples, expected);
    assert_eq!(buf.samples.len(), 5 * 1600);
}

#[test]
fn interrupt_stop_reason_is_recorded() {
    let mut sess = CaptureSession::new();
    sess.append_chunk(&[1, 2, 3]);
    sess.note_interrupt();
    let (buf, reason) = sess.finish();
    assert!(matches!(reason, StopReason::ExternalInterrupt));
    assert_eq!(buf.samples, vec![1, 2, 3]);
}

#[test]
fn three_seconds_of_silence_auto_stops_before_the_end() {
    // 3 s of silence at 16 kHz, silence-duration 2.0 s, threshold 0.02
    // (raw 655): the poll must fire once 2 s have accumulated.
    let mut sess = CaptureSession::new();
    let chunk = vec![0i16; 1600];
    let mut stopped_at: Option<usize> = None;
    for _ in 0..30 {
        sess.append_chunk(&chunk);
        if sess.poll_silence(655, 32000) {
            stopped_at = Some(sess.buffer.len());
            break;
        }
    }
    let at = stopped_at.expect("auto-stop should have fired");
    assert_eq!(at, 32000);
    assert!(at < 48000);
    let (buf, reason) = sess.finish();
    assert!(matches!(reason, StopReason::Silence));
    assert_eq!(buf.samples.len(), 32000);
}

#[test]
fn short_recording_never_auto_stops() {
    let mut sess = CaptureSession::new();
    sess.append_chunk(&vec![0i16; 16000]);
    assert!(!sess.poll_silence(655, 32000));
    assert!(sess.stop.is_none());
}

#[test]
fn loud_subwindow_in_tail_blocks_auto_stop() {
    let mut samples = vec![0i16; 32000];
    for i in 8000..9600 {
        samples[i] = 700;
    }
    assert!(!should_auto_stop(&samples, 655, 32000));
    let quiet = vec![0i16; 32000];
    assert!(should_auto_stop(&quiet, 655, 32000));
}

#[test]
fn quiet_hum_below_threshold_still_auto_stops() {
    let hum = vec![300i16; 32000];
    assert!(should_auto_stop(&hum, 655, 32000));
    let hum_above = vec![656i16; 32000];
    assert!(!should_auto_stop(&hum_above, 655, 32000));
}

#[test]
fn multibyte_text_survives_trimming() {
    let segments = vec![" caf\u{e9}".as_bytes().to_vec(), " \u{f1}and\u{fa} ".as_bytes().to_vec()];
    let out = assemble_transcription(&segments);
    assert_eq!(String::from_utf8(out).unwrap(), "caf\u{e9} \u{f1}and\u{fa}");
}

#[test]
fn segments_join_in_order_and_trim_ends_only() {
    let segments = vec![b" hola".to_vec(), b" mundo ".to_vec()];
    assert_eq!(assemble_transcription(&segments), b"hola mundo".to_vec());

    let ordered = vec![b"a".to_vec(), b"b".to_vec(), b"c".to_vec()];
    assert_eq!(assemble_transcription(&ordered), b"abc".to_vec());

    // interior whitespace is preserved, only the ends are trimmed
    let spaced = vec![b" a ".to_vec(), b" b ".to_vec()];
    assert_eq!(assemble_transcription(&spaced), b"a  b".to_vec());

    let blank = vec![b"  ".to_vec(), b"\t\n".to_vec()];
    assert_eq!(assemble_transcription(&blank), Vec::<u8>::new());

    let none: Vec<Vec<u8>> = Vec::new();
    assert_eq!(assemble_transcription(&none), Vec::<u8>::new());
}

#[test]
fn finalize_result_carries_language_and_model() {
    let segments = vec![b" hola mundo ".to_vec()];
    let r = finalize_result(&segments, "es", "base");
    assert_eq!(r.text, b"hola mundo".to_vec());
    assert_eq!(r.language, "es");
    assert_eq!(r.model, "base");
}

#[test]
fn request_keeps_samples_and_hints() {
    let buf = listen::sample::SampleBuffer::from_samples(vec![3i16, -3, 9]);
    let req = build_request(buf, "en", "tiny");
    assert_eq!(req.samples.samples, vec![3i16, -3, 9]);
    assert_eq!(req.language, "en");
    assert_eq!(req.model, "tiny");
}

#[test]
fn missing_file_is_file_error_without_model_load() {
    let err = require_existing_file("/no/such/audio.wav", false).unwrap_err();
    match &err {
        ListenError::File(m) => {
            assert!(m.contains("not found"));
            assert!(m.contains("/no/such/audio.wav"));
        }
        other => panic!("expected File error, got {:?}", other),
    }
    assert!(require_existing_file("/tmp/x.wav", true).is_ok());
}

#[test]
fn json_output_is_exactly_the_three_keys_pretty_printed() {
    let text = b"hola mundo".to_vec();
    let out = render_console_output(&text, "es", "base", true, false);
    let expected =
        "{\n  \"transcription\": \"hola mundo\",\n  \"language\": \"es\",\n  \"model\": \"base\"\n}";
    assert_eq!(String::from_utf8(out).unwrap(), expected);
}

#[test]
fn json_escaping_round_trips_through_a_json_parser() {
    let text = b"a \"quoted\" line\nwith\\slash and \x01 control".to_vec();
    let out = render_json(&text, "es", "base");
    let value: serde_json::Value = serde_json::from_slice(&out).unwrap();
    assert_eq!(
        value.get("transcription").unwrap().as_str().unwrap(),
        String::from_utf8(text).unwrap()
    );
    assert_eq!(value.get("language").unwrap().as_str().unwrap(), "es");
    assert_eq!(value.get("model").unwrap().as_str().unwrap(), "base");
    assert_eq!(value.as_object().unwrap().len(), 3);
}

#[test]
fn plain_output_modes() {
    let text = b"hola".to_vec();
    let with_ui = render_console_output(&text, "es", "base", false, true);
    assert_eq!(with_ui, b"\nhola".to_vec());
    let quiet = render_console_output(&text, "es", "base", false, false);
    assert_eq!(quiet, b"hola".to_vec());
}

#[test]
fn failed_write_surfaces_as_file_error() {
    let err = persist_outcome(false, "Permission denied (os error 13)").unwrap_err();
    match &err {
        ListenError::File(m) => assert!(m.contains("Permission denied")),
        other => panic!("expected File error, got {:?}", other),
    }
    assert!(persist_outcome(true, "").is_ok());
}

#[test]
fn config_defaults_and_passthrough() {
    let args = plain_args();
    let c = Config::from_args(&args).unwrap();
    assert_eq!(c.language, "es");
    assert_eq!(c.model, "base");
    assert!(!c.vad_enabled);
    assert_eq!(c.vad_duration_ms, 2000);
    assert_eq!(c.vad_threshold, 655);
    assert_eq!(c.sample_rate, 16000);
    assert_eq!(c.channels, 1);
    assert_eq!(c.output_file, None);
}

#[test]
fn explicit_silence_duration_enables_vad() {
    let mut args = plain_args();
    args.vad_ms = Some(1500);
    let c = Config::from_args(&args).unwrap();
    assert!(c.vad_enabled);
    assert_eq!(c.vad_duration_ms, 1500);
    assert_eq!(c.silence_samples(), Some(24000));
}

#[test]
fn zero_silence_duration_is_config_error() {
    let mut args = plain_args();
    args.vad_ms = Some(0);
    let err = Config::from_args(&args).unwrap_err();
    match &err {
        ListenError::Config(m) => assert_eq!(m, "VAD duration must be positive"),
        other => panic!("expected Config error, got {:?}", other),
    }
}

#[test]
fn model_search_order_is_cache_share_local() {
    let c = model_candidates("/home/u", "base");
    assert_eq!(
        c,
        vec![
            "/home/u/.cache/whisper/ggml-base.bin".to_string(),
            "/usr/share/whisper/ggml-base.bin".to_string(),
            "./models/ggml-base.bin".to_string(),
        ]
    );
}

#[test]
fn first_existing_model_wins() {
    let c = model_candidates("/home/u", "base");
    let picked = pick_model_path(&c, &vec![false, true, true], "base").unwrap();
    assert_eq!(picked, "/usr/share/whisper/ggml-base.bin");
    let first = pick_model_path(&c, &vec![true, true, false], "base").unwrap();
    assert_eq!(first, "/home/u/.cache/whisper/ggml-base.bin");
}

#[test]
fn missing_model_gives_download_guidance() {
    let c = model_candidates("/home/u", "small");
    let err = pick_model_path(&c, &vec![false, false, false], "small").unwrap_err();
    match &err {
        ListenError::Config(m) => {
            assert!(m.contains("'small' not found"));
            assert!(m.contains("wget"));
            assert!(m.contains("ggml-small.bin"));
        }
        other => panic!("expected Config error, got {:?}", other),
    }
}

#[test]
fn error_messages_carry_their_category() {
    assert_eq!(
        ListenError::Audio("a".to_string()).message(),
        "Audio error: a"
    );
    assert_eq!(
        ListenError::Transcription("t".to_string()).message(),
        "Transcription error: t"
    );
    assert_eq!(ListenError::File("f".to_string()).message(), "File error: f");
    assert_eq!(
        ListenError::Config("c".to_string()).message(),
        "Configuration error: c"
    );
    assert_eq!(
        ListenError::Signal("s".to_string()).message(),
        "Signal error: s"
    );
}
