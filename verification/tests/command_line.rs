use airs_asr::backend_kind::{backend_name, AsrBackendKind};
use airs_asr::cli::{
    help, parse_backend, parse_command, parse_source, parse_target, split_typed_value, Command,
    PipeOptions, SourceSpec, TargetSpec,
};

fn args(words: &[&str]) -> Vec<String> {
    words.iter().map(|word| word.to_string()).collect()
}

fn pipe(words: &[&str]) -> PipeOptions {
    match parse_command(args(words)).expect("parse command") {
        Command::Pipe { options } => options,
        _ => panic!("expected Pipe"),
    }
}

fn complaint(words: &[&str]) -> String {
    parse_command(args(words)).expect_err("should fail").message
}

#[test]
fn parse_pipe_file_to_stdout() {
    let cmd = parse_command(vec![
        "pipe".to_string(),
        "-i".to_string(),
        "file:audio.wav".to_string(),
        "-o".to_string(),
        "stdout".to_string(),
    ])
    .expect("parse command");

    match cmd {
        Command::Pipe { options } => {
            assert!(matches!(options.source, SourceSpec::File(_)));
            assert!(matches!(options.targets.as_slice(), [TargetSpec::Stdout]));
        }
        _ => panic!("expected Pipe"),
    }
}

#[test]
fn parse_pipe_device_to_file() {
    let cmd = parse_command(vec![
        "pipe".to_string(),
        "-i".to_string(),
        "device".to_string(),
        "-o".to_string(),
        "file:out.txt".to_string(),
    ])
    .expect("parse command");

    match cmd {
        Command::Pipe { options } => {
            assert!(matches!(options.source, SourceSpec::Device(None)));
            assert_eq!(options.targets.len(), 1);
        }
        _ => panic!("expected Pipe"),
    }
}

#[test]
fn parse_pipe_named_device_to_file() {
    let cmd = parse_command(vec![
        "pipe".to_string(),
        "-i".to_string(),
        "device:Microphone".to_string(),
        "-o".to_string(),
        "file:out.txt".to_string(),
    ])
    .expect("parse command");

    match cmd {
        Command::Pipe { options } => {
            assert!(matches!(
                options.source,
                SourceSpec::Device(Some(ref name)) if name == "Microphone"
            ));
        }
        _ => panic!("expected Pipe"),
    }
}

#[test]
fn parse_pipe_multiple_targets() {
    let cmd = parse_command(vec![
        "pipe".to_string(),
        "-i".to_string(),
        "file:audio.wav".to_string(),
        "-o".to_string(),
        "stdout".to_string(),
        "-o".to_string(),
        "file:out.txt".to_string(),
    ])
    .expect("parse command");

    match cmd {
        Command::Pipe { options } => {
            assert_eq!(options.targets.len(), 2);
        }
        _ => panic!("expected Pipe"),
    }
}

#[test]
fn parse_pipe_missing_source_fails() {
    let err = parse_command(vec![
        "pipe".to_string(),
        "-o".to_string(),
        "stdout".to_string(),
    ])
    .expect_err("missing source should fail");

    assert_eq!(
        err.message,
        "pipe requires -i file:<path> or -i device[:name]"
    );
}

#[test]
fn parse_pipe_missing_target_fails() {
    let err = parse_command(vec![
        "pipe".to_string(),
        "-i".to_string(),
        "file:audio.wav".to_string(),
    ])
    .expect_err("missing target should fail");

    assert_eq!(
        err.message,
        "pipe requires at least one -o file:<path> or -o stdout"
    );
}

#[test]
fn parse_pipe_backend() {
    let cmd = parse_command(vec![
        "pipe".to_string(),
        "-i".to_string(),
        "file:audio.wav".to_string(),
        "-o".to_string(),
        "stdout".to_string(),
        "--backend".to_string(),
        "whisper".to_string(),
    ])
    .expect("parse command");

    match cmd {
        Command::Pipe { options } => {
            assert_eq!(options.backend, AsrBackendKind::Whisper);
        }
        _ => panic!("expected Pipe"),
    }
}

#[test]
fn parse_pipe_zipformer_backend() {
    let cmd = parse_command(vec![
        "pipe".to_string(),
        "-i".to_string(),
        "file:audio.wav".to_string(),
        "-o".to_string(),
        "stdout".to_string(),
        "--backend".to_string(),
        "zipformer".to_string(),
    ])
    .expect("parse command");

    match cmd {
        Command::Pipe { options } => {
            assert_eq!(options.backend, AsrBackendKind::Zipformer);
        }
        _ => panic!("expected Pipe"),
    }
}

#[test]
fn parse_pipe_windows_file_paths() {
    let cmd = parse_command(vec![
        "pipe".to_string(),
        "-i".to_string(),
        "file:E:\\audio.wav".to_string(),
        "-o".to_string(),
        "file:E:\\out.txt".to_string(),
    ])
    .expect("parse command");

    match cmd {
        Command::Pipe { options } => {
            assert_eq!(
                options.source,
                SourceSpec::File("E:\\audio.wav".to_string())
            );
            assert_eq!(
                options.targets,
                vec![TargetSpec::File("E:\\out.txt".to_string())]
            );
        }
        _ => panic!("expected Pipe"),
    }
}

#[test]
fn documented_command_lines_are_accepted() {
    let first = pipe(&["pipe", "-i", "file:speech.wav", "-o", "stdout"]);
    assert_eq!(first.source, SourceSpec::File("speech.wav".to_string()));
    assert_eq!(first.targets, vec![TargetSpec::Stdout]);
    assert_eq!(first.backend, AsrBackendKind::Whisper);

    let second = pipe(&["pipe", "-i", "device", "-o", "file:transcript.txt"]);
    assert_eq!(second.source, SourceSpec::Device(None));

    let third = pipe(&["pipe", "-i", "device:Yeti", "-o", "file:out.txt", "-o", "stdout"]);
    assert_eq!(third.source, SourceSpec::Device(Some("Yeti".to_string())));
    assert_eq!(
        third.targets,
        vec![TargetSpec::File("out.txt".to_string()), TargetSpec::Stdout]
    );
}

#[test]
fn flags_come_in_any_order_and_the_last_backend_counts() {
    let options = pipe(&[
        "pipe", "--backend", "zipformer", "-o", "stdout:", "--backend", "whisper", "-i", "device:",
    ]);
    assert_eq!(options.source, SourceSpec::Device(None));
    assert_eq!(options.targets, vec![TargetSpec::Stdout]);
    assert_eq!(options.backend, AsrBackendKind::Whisper);
}

#[test]
fn help_and_version_stand_alone() {
    assert!(matches!(parse_command(vec![]), Ok(Command::Help)));
    assert!(matches!(parse_command(args(&["--help"])), Ok(Command::Help)));
    assert!(matches!(parse_command(args(&["--version"])), Ok(Command::Version)));
    assert_eq!(complaint(&["--help", "x"]), "unknown command: --help");
    assert_eq!(complaint(&["--version", "x"]), "unknown command: --version");
    assert_eq!(complaint(&["transcribe"]), "unknown command: transcribe");
}

#[test]
fn every_usage_error_is_told() {
    assert_eq!(complaint(&["pipe", "-i"]), "-i requires file:<path> or device[:name]");
    assert_eq!(complaint(&["pipe", "-i", "device", "-i"]), "-i can only be used once");
    assert_eq!(complaint(&["pipe", "-o"]), "-o requires file:<path> or stdout");
    assert_eq!(complaint(&["pipe", "--backend"]), "--backend requires a name");
    assert_eq!(complaint(&["pipe", "--backend", "kaldi"]), "unsupported backend: kaldi");
    assert_eq!(complaint(&["pipe", "-x"]), "unexpected argument: -x");
    assert_eq!(complaint(&["pipe", "-i", "file:"]), "-i file requires a path");
    assert_eq!(complaint(&["pipe", "-i", "file"]), "-i file requires a path");
    assert_eq!(complaint(&["pipe", "-i", "url:x"]), "unsupported input type: url");
    assert_eq!(complaint(&["pipe", "-o", "file"]), "-o file requires a path");
    assert_eq!(complaint(&["pipe", "-o", "stdout:x"]), "-o stdout does not accept a value");
    assert_eq!(complaint(&["pipe", "-o", "tty"]), "unsupported output type: tty");
    assert_eq!(
        complaint(&["pipe"]),
        "pipe requires -i file:<path> or -i device[:name]"
    );
}

#[test]
fn values_split_at_the_first_colon() {
    assert_eq!(split_typed_value("file:a:b"), ("file", Some("a:b")));
    assert_eq!(split_typed_value("device:"), ("device", Some("")));
    assert_eq!(split_typed_value(":x"), ("", Some("x")));
    assert_eq!(split_typed_value("stdout"), ("stdout", None));
    assert_eq!(split_typed_value("f\u{fc}r:\u{e9}"), ("f\u{fc}r", Some("\u{e9}")));
}

#[test]
fn single_values_are_parsed() {
    assert_eq!(
        parse_source("file:C:\\x:y").unwrap(),
        SourceSpec::File("C:\\x:y".to_string())
    );
    assert_eq!(
        parse_target("file:C:\\x:y").unwrap(),
        TargetSpec::File("C:\\x:y".to_string())
    );
    for backend in [AsrBackendKind::Whisper, AsrBackendKind::Zipformer] {
        assert_eq!(parse_backend(backend_name(backend)).unwrap(), backend);
    }
}

#[test]
fn help_names_the_default_backend() {
    let lines = help();
    assert_eq!(lines.len(), 15);
    assert_eq!(lines[0], "Usage:");
    assert_eq!(
        lines[3],
        "  airs-asr pipe -i <source> -o <target> [-o <target>...] [--backend <name>]"
    );
    assert_eq!(lines[4], "");
    assert_eq!(lines[14], "Defaults: backend=whisper.");
}

#[test]
fn reordered_flags_ask_for_the_same() {
    let first = pipe(&[
        "pipe", "-i", "device:Yeti", "-o", "file:a", "--backend", "whisper", "-o", "stdout",
        "--backend", "zipformer",
    ]);
    let second = pipe(&[
        "pipe", "--backend", "whisper", "-o", "file:a", "--backend", "zipformer", "-o", "stdout",
        "-i", "device:Yeti",
    ]);

    for options in [first, second] {
        assert_eq!(options.source, SourceSpec::Device(Some("Yeti".to_string())));
        assert_eq!(
            options.targets,
            vec![TargetSpec::File("a".to_string()), TargetSpec::Stdout]
        );
        assert_eq!(options.backend, AsrBackendKind::Zipformer);
    }
}

#[test]
fn the_leftmost_offence_is_told() {
    let good = ["pipe", "-i", "device", "-o", "stdout"];
    for rest in [vec![], vec!["-o", "nowhere"], vec!["--backend", "other", "-i"]] {
        for (offence, told) in [
            (["-i", "device"], "-i can only be used once"),
            (["-o", "file:"], "-o file requires a path"),
            (["--backend", "x"], "unsupported backend: x"),
            (["-x", "y"], "unexpected argument: -x"),
        ] {
            let mut words = good.to_vec();
            words.extend(offence);
            words.extend(&rest);
            assert_eq!(complaint(&words), told);
        }
    }
}
