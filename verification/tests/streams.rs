use std::sync::Arc;

use airs_asr::audio::{AudioFrame, Platform};
use airs_asr::backend::{transcription, AsrBackend, Closing, OneShot, Sent, Step};
use airs_asr::backend_kind::AsrBackendKind;
use airs_asr::error::AsrError;
use airs_asr::outbox::{NextResult, Outbox, Poll};
use airs_asr::processor::{create_backend, Backend, EnabledBackends, Processor};
use airs_asr::whisper::WhisperStream;
use airs_asr::zipformer::{DecodeEvent, DecodeStep, ZipformerStream};

struct Numbers;

impl Platform for Numbers {
    type Sample = i32;
    type Offline = &'static str;
    type Online = &'static str;
    type OnlineStream = u32;
    type Waker = u32;

    fn sum(samples: &[i32]) -> i32 {
        samples.iter().sum()
    }

    fn divide(sum: i32, channels: u16) -> i32 {
        sum / channels as i32
    }
}

const BOTH: EnabledBackends = EnabledBackends { whisper: true, zipformer: true };

fn frame(samples: &[i32], channels: u16, sample_rate: u32) -> AudioFrame<i32> {
    AudioFrame { samples: samples.to_vec(), channels, sample_rate }
}

fn told(error: AsrError) -> String {
    error.message()
}

fn text(answer: NextResult) -> String {
    match answer {
        Poll::Ready(Some(Ok(text))) => text,
        _ => panic!("expected a text"),
    }
}

fn whisper_stream() -> WhisperStream<Numbers> {
    WhisperStream::new(Arc::new("offline"))
}

fn zipformer_stream() -> ZipformerStream<Numbers> {
    ZipformerStream::new(Arc::new("online"), 7)
}

fn ready_whisper() -> Processor<Numbers> {
    match Processor::<Numbers>::new().init(BOTH) {
        Ok(Backend::Whisper(engine)) => Processor::init_whisper(engine, Some("offline"))
            .unwrap_or_else(|_| panic!("expected a processor")),
        _ => panic!("expected a Whisper backend"),
    }
}

fn ready_zipformer() -> Processor<Numbers> {
    match Processor::<Numbers>::new().set_backend(AsrBackendKind::Zipformer).init(BOTH) {
        Ok(Backend::Zipformer(engine)) => Processor::init_zipformer(engine, Some("online"))
            .unwrap_or_else(|_| panic!("expected a processor")),
        _ => panic!("expected a Zipformer backend"),
    }
}

#[test]
fn engine_uses_default_settings() {
    let engine = Processor::<Numbers>::new();

    assert!(matches!(&engine.backend_kind, AsrBackendKind::Whisper));
    assert!(engine.backend.is_none());
    assert!(!engine.is_ready());
}

#[test]
fn engine_supports_chainable_settings() {
    let engine = Processor::<Numbers>::new().set_backend(AsrBackendKind::Whisper);

    assert!(matches!(&engine.backend_kind, AsrBackendKind::Whisper));
    assert!(engine.backend.is_none());
    assert!(!engine.is_ready());
}

#[test]
fn engine_requires_init_before_sink_use() {
    let mut engine = Processor::<Numbers>::new();

    let dummy = AudioFrame {
        samples: vec![],
        channels: 1,
        sample_rate: 16000,
    };
    let ready = engine.poll_ready();
    assert!(matches!(ready, Err(AsrError::InvalidInput(_))));
    let sent = engine.start_send(&dummy);
    assert!(matches!(sent, Err(AsrError::InvalidInput(_))));
    let flushed = engine.poll_flush();
    assert!(matches!(flushed, Err(AsrError::InvalidInput(_))));
    let closed = engine.poll_close();
    assert!(matches!(closed, Err(AsrError::InvalidInput(_))));
    match engine.process(dummy) {
        Err(error) => assert_eq!(
            told(error),
            "ASR backend is not initialized. Call init() first."
        ),
        Ok(_) => panic!("uninitialized engine should fail"),
    }
    assert!(!engine.is_ready());
}

#[test]
fn engine_requires_init_before_stream_use() {
    let mut engine = Processor::<Numbers>::new();

    let answer = engine.poll_next(1);
    assert!(matches!(
        answer,
        Step::Done(Poll::Ready(Some(Err(AsrError::InvalidInput(_)))))
    ));
    assert!(!engine.is_ready());
}

#[test]
fn choosing_a_backend_drops_the_loaded_one() {
    let engine = ready_whisper();
    assert!(engine.is_ready());
    let engine = engine.set_backend(AsrBackendKind::Zipformer);
    assert!(!engine.is_ready());
    assert!(engine.backend.is_none());
    assert_eq!(engine.backend_kind, AsrBackendKind::Zipformer);
}

#[test]
fn backends_that_were_not_built_in_are_refused() {
    let none = EnabledBackends { whisper: false, zipformer: false };
    match create_backend::<Numbers>(AsrBackendKind::Whisper, none) {
        Err(error) => assert_eq!(told(error), "whisper ASR backend feature is not enabled"),
        Ok(_) => panic!("expected an error"),
    }
    match Processor::<Numbers>::new().set_backend(AsrBackendKind::Zipformer).init(none) {
        Err(error) => assert_eq!(told(error), "zipformer ASR backend feature is not enabled"),
        Ok(_) => panic!("expected an error"),
    }
}

#[test]
fn loading_again_keeps_the_recording() {
    let mut engine = ready_whisper();
    assert!(matches!(
        engine.start_send(&frame(&[1, 2], 1, 8000)),
        Ok(Step::Done(Sent::Collected))
    ));
    let engine = match engine.init(BOTH) {
        Ok(Backend::Whisper(engine)) => Processor::<Numbers>::init_whisper(engine, Some("newer")),
        _ => panic!("expected a Whisper backend"),
    };
    let mut engine = engine.unwrap_or_else(|_| panic!("expected a processor"));
    match engine.poll_close() {
        Ok(Step::Done(Closing::Recognize(job))) => {
            assert_eq!(*job.recognizer, "offline");
            assert_eq!(job.wave.samples, vec![1, 2]);
        }
        _ => panic!("expected a recording"),
    }
    match engine.process(frame(&[5], 1, 8000)) {
        Ok(OneShot::Offline(job)) => assert_eq!(*job.recognizer, "newer"),
        _ => panic!("expected a job"),
    }
}

#[test]
fn recordings_are_recognized_whole() {
    let mut stream = whisper_stream();
    assert!(stream.start_send(&frame(&[2, 4, 6, 8], 2, 44100)).is_ok());
    assert!(stream.start_send(&frame(&[10, 20], 2, 44100)).is_ok());
    assert!(matches!(stream.poll_next(3), Poll::Pending));
    let wave = stream.poll_close().unwrap_or_else(|| panic!("expected a recording"));
    assert_eq!(wave.sample_rate, 44100);
    assert_eq!(wave.samples, vec![3, 7, 15]);
    assert_eq!(stream.recognized(Some("hello".to_string())), Some(3));
    assert_eq!(text(stream.poll_next(4)), "hello");
    assert!(matches!(stream.poll_next(5), Poll::Ready(None)));
    assert!(matches!(stream.poll_next(6), Poll::Ready(None)));
}

#[test]
fn closing_twice_recognizes_once() {
    let mut stream = whisper_stream();
    let wave = stream.poll_close().unwrap_or_else(|| panic!("expected a recording"));
    assert_eq!(wave.sample_rate, 16000);
    assert_eq!(wave.samples, Vec::<i32>::new());
    assert!(stream.poll_close().is_none());
    assert_eq!(stream.recognized(None), None);
    match stream.poll_next(1) {
        Poll::Ready(Some(Err(error))) => assert_eq!(
            told(error),
            "ASR transcription failed: no recognition result"
        ),
        _ => panic!("expected an error"),
    }
}

fn refusal(stream: &mut WhisperStream<Numbers>, item: &AudioFrame<i32>) -> String {
    match stream.start_send(item) {
        Err(error) => told(error),
        Ok(_) => panic!("expected an error"),
    }
}

#[test]
fn frames_of_another_form_are_refused() {
    let mut stream = whisper_stream();
    assert!(stream.start_send(&frame(&[1, 2], 2, 8000)).is_ok());
    assert_eq!(
        refusal(&mut stream, &frame(&[1], 1, 8000)),
        "audio channel count changed during ASR stream"
    );
    assert_eq!(
        refusal(&mut stream, &frame(&[1, 2], 2, 16000)),
        "audio sample rate changed during ASR stream"
    );
    assert_eq!(
        refusal(&mut stream, &frame(&[1, 2, 3], 2, 8000)),
        "audio samples are not aligned to channels"
    );
    assert_eq!(stream.samples, vec![1]);
    assert!(stream.poll_close().is_some());
    assert_eq!(
        refusal(&mut stream, &frame(&[1, 2], 2, 8000)),
        "cannot send audio after ASR stream is closed"
    );
}

#[test]
fn a_refused_first_frame_still_sets_the_form() {
    let mut stream = whisper_stream();
    assert_eq!(
        refusal(&mut stream, &frame(&[1], 0, 8000)),
        "audio channel count is missing"
    );
    assert_eq!(
        refusal(&mut stream, &frame(&[1, 2], 2, 8000)),
        "audio channel count changed during ASR stream"
    );
}

#[test]
fn a_waiting_reader_is_woken_once() {
    let mut outbox: Outbox<u32> = Outbox::new();
    assert!(matches!(outbox.poll_next(1), Poll::Pending));
    assert!(matches!(outbox.poll_next(2), Poll::Pending));
    assert_eq!(outbox.push_result(Ok("a".to_string())), Some(2));
    assert_eq!(outbox.push_result(Ok("b".to_string())), None);
    assert_eq!(text(outbox.poll_next(3)), "a");
    assert_eq!(text(outbox.poll_next(4)), "b");
    assert!(matches!(outbox.poll_next(5), Poll::Pending));
}

#[test]
fn only_news_is_reported() {
    let mut stream = zipformer_stream();
    assert_eq!(stream.emit_current_result(None), None);
    assert_eq!(stream.emit_current_result(Some(String::new())), None);
    assert!(matches!(stream.poll_next(9), Poll::Pending));
    assert_eq!(stream.emit_current_result(Some("one".to_string())), Some(9));
    assert_eq!(stream.emit_current_result(Some("one".to_string())), None);
    assert_eq!(stream.emit_current_result(Some(String::new())), None);
    assert_eq!(stream.emit_current_result(Some("one two".to_string())), None);
    assert_eq!(stream.emit_current_result(Some("one".to_string())), None);
    assert_eq!(text(stream.poll_next(1)), "one");
    assert_eq!(text(stream.poll_next(1)), "one two");
    assert_eq!(text(stream.poll_next(1)), "one");
    assert!(matches!(stream.poll_next(1), Poll::Pending));
}

#[test]
fn speech_is_fed_as_it_comes() {
    let mut stream = zipformer_stream();
    let wave = stream
        .start_send(&frame(&[2, 4], 2, 8000))
        .unwrap_or_else(|_| panic!("expected a waveform"));
    assert_eq!((wave.sample_rate, wave.samples), (8000, vec![3]));
    // Unlike a recording, a stream of speech may change its form.
    assert!(stream.start_send(&frame(&[5], 1, 16000)).is_ok());
    assert!(stream.poll_close());
    assert!(!stream.poll_close());
    match stream.start_send(&frame(&[5], 1, 16000)) {
        Err(error) => assert_eq!(told(error), "cannot send audio after ASR stream is closed"),
        Ok(_) => panic!("expected an error"),
    }
    assert_eq!(stream.emit_current_result(Some("end".to_string())), None);
    assert_eq!(text(stream.poll_next(1)), "end");
    assert!(matches!(stream.poll_next(1), Poll::Ready(None)));
}

#[test]
fn decoding_follows_readiness() {
    let mut step = DecodeStep::first();
    for _ in 0..3 {
        assert_eq!(step, DecodeStep::CheckReady);
        step = step.next(DecodeEvent::Ready(true));
        assert_eq!(step, DecodeStep::Decode);
        assert_eq!(step.next(DecodeEvent::Fetched), DecodeStep::Decode);
        step = step.next(DecodeEvent::Decoded);
    }
    step = step.next(DecodeEvent::Ready(false));
    assert_eq!(step, DecodeStep::FetchResult);
    step = step.next(DecodeEvent::Fetched);
    assert_eq!(step, DecodeStep::Finished);
    assert_eq!(step.next(DecodeEvent::Ready(true)), DecodeStep::Finished);
}

#[test]
fn a_whisper_processor_runs_through() {
    let mut engine = ready_whisper();
    assert!(matches!(engine.poll_ready(), Ok(Step::Done(()))));
    assert!(matches!(
        engine.start_send(&frame(&[1, 2], 1, 8000)),
        Ok(Step::Done(Sent::Collected))
    ));
    assert!(matches!(engine.poll_flush(), Ok(Step::Done(()))));
    match engine.poll_close() {
        Ok(Step::Done(Closing::Recognize(job))) => {
            assert_eq!(*job.recognizer, "offline");
            assert_eq!((job.wave.sample_rate, job.wave.samples), (8000, vec![1, 2]));
        }
        _ => panic!("expected a recording"),
    }
    assert!(matches!(engine.poll_close(), Ok(Step::Done(Closing::Nothing))));
    assert_eq!(engine.report(Some("hi".to_string())), None);
    match engine.poll_next(1) {
        Step::Done(answer) => assert_eq!(text(answer), "hi"),
        _ => panic!("expected a text"),
    }
    assert!(matches!(engine.poll_next(1), Step::Done(Poll::Ready(None))));
    assert!(engine.is_ready());
}

#[test]
fn a_zipformer_processor_runs_through() {
    let mut engine = ready_zipformer();
    match engine.start_send(&frame(&[1, 3], 2, 8000)) {
        Ok(Step::Open(recognizer)) => assert_eq!(*recognizer, "online"),
        _ => panic!("expected a request for a stream"),
    }
    assert!(matches!(engine.poll_next(1), Step::Open(_)));
    assert!(matches!(engine.poll_ready(), Ok(Step::Open(_))));
    engine.open_stream(5);
    engine.open_stream(6);
    match &engine.backend {
        Some(Backend::Zipformer(inner)) => {
            assert_eq!(inner.stream.as_ref().map(|stream| stream.stream), Some(5));
        }
        _ => panic!("expected a Zipformer backend"),
    }
    match engine.start_send(&frame(&[1, 3], 2, 8000)) {
        Ok(Step::Done(Sent::Feed(wave))) => assert_eq!(wave.samples, vec![2]),
        _ => panic!("expected a waveform"),
    }
    assert!(matches!(engine.poll_next(8), Step::Done(Poll::Pending)));
    assert_eq!(engine.report(Some("so".to_string())), Some(8));
    assert!(matches!(engine.poll_close(), Ok(Step::Done(Closing::FinishInput))));
    assert!(matches!(engine.poll_close(), Ok(Step::Done(Closing::Nothing))));
    assert_eq!(engine.report(Some("so long".to_string())), None);
    for expected in ["so", "so long"] {
        match engine.poll_next(1) {
            Step::Done(answer) => assert_eq!(text(answer), expected),
            _ => panic!("expected a text"),
        }
    }
    assert!(matches!(engine.poll_next(1), Step::Done(Poll::Ready(None))));
}

#[test]
fn single_frames_are_processed() {
    match ready_whisper().process(frame(&[2, 4], 2, 8000)) {
        Ok(OneShot::Offline(job)) => {
            assert_eq!(*job.recognizer, "offline");
            assert_eq!((job.wave.sample_rate, job.wave.samples), (8000, vec![3]));
        }
        _ => panic!("expected a job"),
    }
    match ready_zipformer().process(frame(&[2, 4], 2, 8000)) {
        Ok(OneShot::Online(job)) => {
            assert_eq!(*job.recognizer, "online");
            assert_eq!((job.wave.sample_rate, job.wave.samples), (8000, vec![3]));
        }
        _ => panic!("expected a job"),
    }
    match ready_zipformer().process(frame(&[2], 2, 8000)) {
        Err(error) => assert_eq!(told(error), "audio samples are not aligned to channels"),
        Ok(_) => panic!("expected an error"),
    }
    assert_eq!(transcription(Some("x".to_string())).unwrap(), "x");
}

#[test]
fn bare_engines_ask_to_be_initialized() {
    let mut backend = create_backend::<Numbers>(AsrBackendKind::Whisper, BOTH);
    match &mut backend {
        Ok(Backend::Whisper(engine)) => match engine.start_send(&frame(&[1], 1, 1)) {
            Err(error) => assert_eq!(
                told(error),
                "Whisper backend not initialized. Call init() first."
            ),
            Ok(_) => panic!("expected an error"),
        },
        _ => panic!("expected a Whisper backend"),
    }
    let mut backend = create_backend::<Numbers>(AsrBackendKind::Zipformer, BOTH);
    match &mut backend {
        Ok(Backend::Zipformer(engine)) => match engine.poll_next(1) {
            Step::Done(Poll::Ready(Some(Err(error)))) => assert_eq!(
                told(error),
                "Zipformer backend not initialized. Call init() first."
            ),
            _ => panic!("expected an error"),
        },
        _ => panic!("expected a Zipformer backend"),
    }
}

#[test]
fn channels_are_looked_at_before_the_rate() {
    let mut stream = whisper_stream();
    assert!(stream.start_send(&frame(&[1, 3], 2, 16000)).is_ok());

    assert_eq!(
        refusal(&mut stream, &frame(&[5], 1, 8000)),
        "audio channel count changed during ASR stream"
    );
    assert_eq!(
        refusal(&mut stream, &frame(&[5, 5], 2, 8000)),
        "audio sample rate changed during ASR stream"
    );
    assert_eq!(stream.samples, vec![2]);
}
