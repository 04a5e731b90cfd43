use std::path::PathBuf;

use airs_asr::audio::Platform;
use airs_asr::backend::AsrBackend;
use airs_asr::error::AsrError;
use airs_asr::model::{model_dir, model_path, ChildDir, FileLocation, ModelDir, ModelEntry};
use airs_asr::whisper::{ModelFile, WhisperEngine};
use airs_asr::zipformer::ZipformerEngine;

struct Nothing;

impl Platform for Nothing {
    type Sample = i32;
    type Offline = u8;
    type Online = u8;
    type OnlineStream = u8;
    type Waker = u8;

    fn sum(samples: &[i32]) -> i32 {
        samples.iter().sum()
    }

    fn divide(sum: i32, channels: u16) -> i32 {
        sum / channels as i32
    }
}

type Whisper = WhisperEngine<Nothing>;
type Zipformer = ZipformerEngine<Nothing>;

fn file(name: &str) -> ModelEntry {
    ModelEntry { name: name.to_string(), child: None }
}

fn child(name: &str, exact: bool, names: &[&str]) -> ModelEntry {
    ModelEntry {
        name: name.to_string(),
        child: Some(ChildDir {
            exact,
            names: names.iter().map(|name| name.to_string()).collect(),
        }),
    }
}

fn dir(entries: Vec<ModelEntry>) -> ModelDir {
    ModelDir { exact: false, entries }
}

#[test]
fn english_only_model_detection_uses_filename() {
    fn file_name(path: &PathBuf) -> Option<&str> {
        path.file_name().and_then(|name| name.to_str())
    }

    assert!(Whisper::is_english_only_model(file_name(&PathBuf::from(
        "tiny.en-encoder.onnx"
    ))));
    assert!(!Whisper::is_english_only_model(file_name(&PathBuf::from(
        "tiny-encoder.onnx"
    ))));
    assert!(!Whisper::is_english_only_model(file_name(&PathBuf::from(
        "tiny.en-x/encoder.onnx"
    ))));
    assert!(!Whisper::is_english_only_model(None));
    assert!(!Whisper::is_english_only_model(Some("en-")));
}

#[test]
fn find_file_accepts_prefixed_model_names() {
    let seen = dir(vec![file("encoder-epoch-99-avg-1.int8.onnx")]);

    assert_eq!(
        Zipformer::find_file(&seen, "encoder.onnx", "encoder"),
        Some(FileLocation::Entry(0))
    );
}

#[test]
fn find_file_accepts_suffixed_model_names() {
    let seen = dir(vec![file("readme.md"), file("tiny.en-encoder.onnx"), file("b-encoder.onnx")]);
    assert_eq!(Whisper::find_file(&seen, "encoder.onnx"), Some(FileLocation::Entry(1)));
    assert_eq!(Whisper::find_file(&seen, "decoder.onnx"), None);
    // A listed plain name that does not exist, such as a broken link, is no match.
    let broken = dir(vec![file("encoder.onnx")]);
    assert_eq!(Whisper::find_file(&broken, "encoder.onnx"), None);
    assert_eq!(
        Zipformer::find_file(&broken, "tokens.txt", "tokens"),
        None
    );
    assert_eq!(
        Zipformer::find_file(&dir(vec![file("tokens.txt")]), "tokens.txt", "tokens"),
        Some(FileLocation::Entry(0))
    );
}

#[test]
fn plain_names_go_first_and_directories_last() {
    let mut seen = dir(vec![
        child("a", false, &["x", "y"]),
        child("b", false, &["z", "small-encoder.onnx"]),
        child("c", true, &[]),
        file("big-encoder.onnx"),
    ]);
    assert_eq!(Whisper::find_file(&seen, "encoder.onnx"), Some(FileLocation::Entry(3)));
    seen.entries.pop();
    assert_eq!(Whisper::find_file(&seen, "encoder.onnx"), Some(FileLocation::ChildEntry(1, 1)));
    seen.entries.swap(1, 2);
    assert_eq!(Whisper::find_file(&seen, "encoder.onnx"), Some(FileLocation::ChildExact(1)));
    seen.exact = true;
    assert_eq!(Whisper::find_file(&seen, "encoder.onnx"), Some(FileLocation::Exact));
}

#[test]
fn files_are_looked_up_under_their_names() {
    let seen = dir(vec![
        file("m-encoder.onnx"),
        file("m-decoder.onnx"),
        file("m-tokens.txt"),
    ]);
    let files = Whisper::find_files(&seen, &seen, &seen);
    assert_eq!(files.encoder, Some(FileLocation::Entry(0)));
    assert_eq!(files.decoder, Some(FileLocation::Entry(1)));
    assert_eq!(files.tokens, Some(FileLocation::Entry(2)));

    let seen = dir(vec![
        file("tokens.txt"),
        file("joiner-1.onnx"),
        file("decoder-1.onnx"),
        file("encoder-1.onnx"),
    ]);
    let files = Zipformer::find_files(&seen, &seen, &seen, &seen);
    assert_eq!(files.encoder, Some(FileLocation::Entry(3)));
    assert_eq!(files.decoder, Some(FileLocation::Entry(2)));
    assert_eq!(files.joiner, Some(FileLocation::Entry(1)));
    assert_eq!(files.tokens, Some(FileLocation::Entry(0)));
}

fn encoder(name: &str) -> Option<ModelFile> {
    Some(ModelFile { path: format!("/m/{name}"), file_name: Some(name.to_string()) })
}

fn some(text: &str) -> Option<String> {
    Some(text.to_string())
}

fn load_error<T>(config: Result<T, AsrError>) -> String {
    match config {
        Err(AsrError::BackendLoad(text)) => text,
        _ => panic!("expected a load error"),
    }
}

#[test]
fn whisper_is_configured_for_english() {
    let config = Whisper::configure("/m", encoder("t.en-encoder.onnx"), some("/m/d"), some("/m/t"))
        .unwrap_or_else(|_| panic!("expected a configuration"));
    assert_eq!(config.encoder, "/m/t.en-encoder.onnx");
    assert_eq!(config.decoder, "/m/d");
    assert_eq!(config.tokens, "/m/t");
    assert_eq!(config.language, "en");
    assert_eq!(config.task, "transcribe");
    assert_eq!(config.tail_paddings, -1);
    assert!(!config.enable_token_timestamps);
    assert!(!config.enable_segment_timestamps);
    assert_eq!(config.num_threads, 4);
    assert_eq!(config.provider, "cpu");
}

#[test]
fn missing_whisper_files_are_told() {
    assert_eq!(
        load_error(Whisper::configure("/m", None, None, None)),
        "encoder.onnx (or *-encoder.onnx) not found in /m"
    );
    assert_eq!(
        load_error(Whisper::configure("/m", encoder("e"), None, None)),
        "decoder.onnx (or *-decoder.onnx) not found in /m"
    );
    assert_eq!(
        load_error(Whisper::configure("/m", encoder("e"), some("d"), None)),
        "tokens.txt (or *-tokens.txt) not found in /m"
    );
    let mut engine = Whisper::new();
    assert_eq!(load_error(engine.init(None)), "failed to create Whisper recognizer");
}

#[test]
fn english_only_models_serve_english_only() {
    assert_eq!(
        load_error(Whisper::configure_for(
            "de", "/m", encoder("t.en-encoder.onnx"), some("d"), some("t")
        )),
        "configured language is de, but the selected Whisper model is English-only: /m/t.en-encoder.onnx. Install a multilingual Whisper model instead of a .en model."
    );
    assert!(Whisper::configure_for("de", "/m", encoder("t-encoder.onnx"), some("d"), some("t"))
        .is_ok());
}

#[test]
fn zipformer_is_configured() {
    let config = Zipformer::configure("/z", some("e"), some("d"), some("j"), some("t"))
        .unwrap_or_else(|_| panic!("expected a configuration"));
    assert_eq!(config.encoder, "e");
    assert_eq!(config.decoder, "d");
    assert_eq!(config.joiner, "j");
    assert_eq!(config.tokens, "t");
    assert_eq!(config.num_threads, 4);
    assert_eq!(config.provider, "cpu");
    assert_eq!(config.decoding_method, "greedy_search");

    assert_eq!(
        load_error(Zipformer::configure("/z", None, None, None, None)),
        "encoder.onnx (or encoder*.onnx) not found in /z"
    );
    assert_eq!(
        load_error(Zipformer::configure("/z", some("e"), None, None, None)),
        "decoder.onnx (or decoder*.onnx) not found in /z"
    );
    assert_eq!(
        load_error(Zipformer::configure("/z", some("e"), some("d"), None, None)),
        "joiner.onnx (or joiner*.onnx) not found in /z"
    );
    assert_eq!(
        load_error(Zipformer::configure("/z", some("e"), some("d"), some("j"), None)),
        "tokens.txt not found in /z"
    );
    let mut engine = Zipformer::new();
    assert_eq!(load_error(engine.init(None)), "failed to create Zipformer recognizer");
}

#[test]
fn models_lie_below_the_home_directory() {
    assert_eq!(model_dir(some("/home/u"), some("C:\\u")), vec!["/home/u", ".airs/models"]);
    assert_eq!(model_dir(None, some("C:\\u")), vec!["C:\\u", ".airs/models"]);
    assert_eq!(
        model_path(None, None, "whisper"),
        vec!["", ".airs/models", "whisper"]
    );
}
