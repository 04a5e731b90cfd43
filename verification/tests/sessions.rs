use airs_asr::audio::{AudioFrame, Platform};
use airs_asr::backend::{Closing, Sent, Step};
use airs_asr::outbox::{NextResult, Poll};
use airs_asr::processor::{Backend, EnabledBackends};
use airs_asr::{AsrBackendKind, Processor};

struct Numbers;

impl Platform for Numbers {
    type Sample = i32;
    type Offline = &'static str;
    type Online = &'static str;
    type OnlineStream = u32;
    type Waker = u32;

    fn sum(samples: &[i32]) -> i32 {
        samples.iter().sum()
    }

    fn divide(sum: i32, channels: u16) -> i32 {
        sum / channels as i32
    }
}

fn loaded(kind: AsrBackendKind) -> Processor<Numbers> {
    let both = EnabledBackends { whisper: true, zipformer: true };
    let processor = match Processor::<Numbers>::new().set_backend(kind).init(both) {
        Ok(Backend::Whisper(engine)) => Processor::init_whisper(engine, Some("offline")),
        Ok(Backend::Zipformer(engine)) => Processor::init_zipformer(engine, Some("online")),
        Err(error) => Err(error),
    };
    match processor {
        Ok(processor) => processor,
        Err(error) => panic!("{}", error.message()),
    }
}

fn frame(samples: &[i32], channels: u16) -> AudioFrame<i32> {
    AudioFrame { samples: samples.to_vec(), channels, sample_rate: 8000 }
}

fn said(answer: Step<Numbers, NextResult>) -> String {
    match answer {
        Step::Done(Poll::Ready(Some(Ok(text)))) => text,
        Step::Done(Poll::Ready(Some(Err(error)))) => error.message(),
        _ => panic!("expected a result"),
    }
}

#[test]
fn a_recording_between_reads_is_recognized_whole() {
    let mut asr = loaded(AsrBackendKind::Whisper);

    assert!(matches!(asr.poll_next(1), Step::Done(Poll::Pending)));
    assert!(asr.start_send(&frame(&[2, 4, 10, 20], 2)).is_ok());
    assert!(asr.start_send(&frame(&[9], 1)).is_err());
    assert!(asr.start_send(&frame(&[9], 2)).is_err());
    assert!(matches!(asr.poll_next(2), Step::Done(Poll::Pending)));
    assert!(asr.start_send(&frame(&[-6, 6], 2)).is_ok());

    match asr.poll_close() {
        Ok(Step::Done(Closing::Recognize(job))) => {
            assert_eq!(*job.recognizer, "offline");
            assert_eq!(job.wave.samples, vec![3, 15, 0]);
            assert_eq!(job.wave.sample_rate, 8000);
        }
        _ => panic!("expected a recording"),
    }
    assert_eq!(asr.report(Some("hello".to_string())), Some(2));
    assert_eq!(said(asr.poll_next(3)), "hello");
    assert!(matches!(asr.poll_next(4), Step::Done(Poll::Ready(None))));
    assert!(matches!(asr.poll_next(5), Step::Done(Poll::Ready(None))));
}

#[test]
fn a_recording_without_a_result_is_an_error() {
    let mut asr = loaded(AsrBackendKind::Whisper);

    match asr.poll_close() {
        Ok(Step::Done(Closing::Recognize(job))) => {
            assert!(job.wave.samples.is_empty());
            assert_eq!(job.wave.sample_rate, 16000);
        }
        _ => panic!("expected a recording"),
    }
    assert_eq!(asr.report(None), None);
    assert_eq!(
        said(asr.poll_next(1)),
        "ASR transcription failed: no recognition result"
    );
    assert!(matches!(asr.poll_next(2), Step::Done(Poll::Ready(None))));
}

#[test]
fn reports_before_a_stream_are_passed_over() {
    let mut asr = loaded(AsrBackendKind::Whisper);
    assert_eq!(asr.report(Some("early".to_string())), None);
    assert!(matches!(asr.poll_next(1), Step::Done(Poll::Pending)));

    let mut asr = loaded(AsrBackendKind::Zipformer);
    assert_eq!(asr.report(Some("early".to_string())), None);
    asr.open_stream(1);
    assert!(matches!(asr.poll_next(1), Step::Done(Poll::Pending)));
}

#[test]
fn exactly_the_news_is_read() {
    let mut asr = loaded(AsrBackendKind::Zipformer);
    assert!(matches!(asr.poll_ready(), Ok(Step::Open(_))));
    asr.open_stream(1);

    let mut read = Vec::new();
    let states = [Some(""), Some("a"), Some("a"), None, Some("a b"), Some("a"), Some("")];
    for (i, state) in states.iter().enumerate() {
        match asr.start_send(&frame(&[i as i32], 1)) {
            Ok(Step::Done(Sent::Feed(wave))) => assert_eq!(wave.samples, vec![i as i32]),
            _ => panic!("expected audio for the recognizer"),
        }
        asr.report(state.map(str::to_string));
        if i == 2 {
            read.push(said(asr.poll_next(9)));
        }
    }
    assert!(matches!(asr.poll_close(), Ok(Step::Done(Closing::FinishInput))));
    asr.report(Some("a c".to_string()));
    loop {
        match asr.poll_next(9) {
            Step::Done(Poll::Ready(None)) => break,
            answer => read.push(said(answer)),
        }
    }

    assert_eq!(read, vec!["a", "a b", "a", "a c"]);
}

#[test]
fn closed_processors_only_hand_out() {
    let mut asr = loaded(AsrBackendKind::Zipformer);
    asr.open_stream(1);
    asr.report(Some("late".to_string()));
    assert!(matches!(asr.poll_close(), Ok(Step::Done(Closing::FinishInput))));

    assert!(matches!(asr.poll_close(), Ok(Step::Done(Closing::Nothing))));
    match asr.start_send(&frame(&[1], 1)) {
        Err(error) => assert_eq!(
            error.message(),
            "cannot send audio after ASR stream is closed"
        ),
        Ok(_) => panic!("expected an error"),
    }
    assert_eq!(said(asr.poll_next(1)), "late");
    assert!(matches!(asr.poll_next(1), Step::Done(Poll::Ready(None))));
}

#[test]
fn the_first_frame_offered_sets_the_rate() {
    let mut asr = loaded(AsrBackendKind::Whisper);
    let refused = AudioFrame { samples: vec![1, 2, 3], channels: 2, sample_rate: 44100 };
    let accepted = AudioFrame { samples: vec![4, 6], channels: 2, sample_rate: 44100 };
    let other = AudioFrame { samples: vec![8, 8], channels: 2, sample_rate: 8000 };

    assert!(asr.start_send(&refused).is_err());
    assert!(asr.start_send(&other).is_err());
    assert!(asr.start_send(&accepted).is_ok());
    match asr.poll_close() {
        Ok(Step::Done(Closing::Recognize(job))) => {
            assert_eq!(job.wave.samples, vec![5]);
            assert_eq!(job.wave.sample_rate, 44100);
        }
        _ => panic!("expected a recording"),
    }
}
