use airs_asr::audio::{mono_samples, waveform, AudioFrame, Platform};
use airs_asr::error::AsrError;

struct Floats;

impl Platform for Floats {
    type Sample = f32;
    type Offline = u8;
    type Online = u8;
    type OnlineStream = u8;
    type Waker = u8;

    fn sum(samples: &[f32]) -> f32 {
        samples.iter().copied().sum::<f32>()
    }

    fn divide(sum: f32, channels: u16) -> f32 {
        sum / channels as f32
    }
}

#[test]
fn mono_samples_keeps_mono_audio() {
    let audio = AudioFrame {
        samples: vec![0.25, -0.5],
        channels: 1,
        sample_rate: 16000,
    };

    assert_eq!(mono_samples::<Floats>(&audio).unwrap(), audio.samples);
}

#[test]
fn mono_samples_downmixes_stereo_audio() {
    let audio = AudioFrame {
        samples: vec![1.0, -1.0, 0.5, 0.25],
        channels: 2,
        sample_rate: 16000,
    };

    assert_eq!(mono_samples::<Floats>(&audio).unwrap(), vec![0.0, 0.375]);
}

#[test]
fn mono_samples_rejects_misaligned_audio() {
    let audio = AudioFrame {
        samples: vec![1.0, 0.0, -1.0],
        channels: 2,
        sample_rate: 16000,
    };

    assert!(matches!(
        mono_samples::<Floats>(&audio),
        Err(AsrError::InvalidInput(_))
    ));
}

#[test]
fn defects_of_frames_are_told_apart() {
    let misaligned = AudioFrame { samples: vec![1.0, 0.0, -1.0], channels: 2, sample_rate: 1 };
    match mono_samples::<Floats>(&misaligned) {
        Err(error) => assert_eq!(error.message(), "audio samples are not aligned to channels"),
        Ok(_) => panic!("expected an error"),
    }
    let missing = AudioFrame { samples: vec![1.0], channels: 0, sample_rate: 1 };
    match mono_samples::<Floats>(&missing) {
        Err(error) => assert_eq!(error.message(), "audio channel count is missing"),
        Ok(_) => panic!("expected an error"),
    }
}

#[test]
fn mixing_divides_the_number_of_samples() {
    let audio = AudioFrame { samples: vec![3.0; 12], channels: 3, sample_rate: 8000 };
    assert_eq!(mono_samples::<Floats>(&audio).unwrap(), vec![3.0; 4]);
    let silence = AudioFrame { samples: vec![], channels: 3, sample_rate: 8000 };
    assert_eq!(mono_samples::<Floats>(&silence).unwrap(), Vec::<f32>::new());
}

#[test]
fn rates_become_signed() {
    let audio = AudioFrame { samples: vec![0.5, 1.5], channels: 2, sample_rate: 44100 };
    let wave = waveform::<Floats>(&audio).unwrap_or_else(|_| panic!("expected a waveform"));
    assert_eq!(wave.sample_rate, 44100);
    assert_eq!(wave.samples, vec![1.0]);

    let odd = AudioFrame { samples: vec![], channels: 1, sample_rate: 4294967295 };
    let wave = waveform::<Floats>(&odd).unwrap_or_else(|_| panic!("expected a waveform"));
    assert_eq!(wave.sample_rate, -1);
}

#[test]
fn errors_read_as_text() {
    let text = || "x".to_string();
    assert_eq!(AsrError::InvalidInput(text()).message(), "x");
    assert_eq!(AsrError::BackendLoad(text()).message(), "failed to load ASR backend: x");
    assert_eq!(AsrError::Transcription(text()).message(), "ASR transcription failed: x");
    assert_eq!(AsrError::Audio(text()).message(), "audio error: x");
    assert_eq!(AsrError::Io(text()).message(), "io error: x");
}
