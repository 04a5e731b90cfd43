use airs_asr::backend_kind::AsrBackendKind;
use airs_asr::cli::{PipeOptions, SourceSpec, TargetSpec};
use airs_asr::pipe::{
    text_sinks, LineAction, PipeAction, PipeEvent, PipeSession, PipeState, TextSink,
};

type Event = PipeEvent<u8, &'static str>;
type Action = PipeAction<u8, &'static str>;

fn options(source: SourceSpec) -> PipeOptions {
    PipeOptions {
        source,
        targets: vec![TargetSpec::Stdout, TargetSpec::File("out.txt".to_string())],
        backend: AsrBackendKind::Whisper,
    }
}

fn step(session: &mut PipeSession, event: Event) -> Action {
    session.step(event)
}

#[test]
fn a_file_runs_through() {
    let mut run = PipeSession::new(&options(SourceSpec::File("a.wav".to_string())));
    assert_eq!(run.outputs, 2);
    let first: Action = run.start();
    assert!(matches!(first, Action::LoadBackend(AsrBackendKind::Whisper)));
    let second = step(&mut run, Event::Done);
    assert!(matches!(second, Action::OpenInput(SourceSpec::File(path)) if path == "a.wav"));
    assert!(matches!(step(&mut run, Event::Done), Action::ReadFrame));
    assert!(matches!(step(&mut run, Event::Frame(Some(1))), Action::Send(1)));
    assert!(matches!(step(&mut run, Event::Done), Action::ReadFrame));
    assert!(matches!(step(&mut run, Event::Frame(Some(2))), Action::Send(2)));
    assert!(matches!(step(&mut run, Event::Done), Action::ReadFrame));
    assert!(matches!(step(&mut run, Event::Frame(None)), Action::CloseProcessor));
    assert!(matches!(step(&mut run, Event::Done), Action::ReadResult));
    for word in ["one", "two"] {
        let read = step(&mut run, Event::Text(Some(word.to_string())));
        assert!(matches!(read, Action::Write { output: 0, text } if text == word));
        let first = step(&mut run, Event::Done);
        assert!(matches!(first, Action::Write { output: 1, text } if text == word));
        assert!(matches!(step(&mut run, Event::Done), Action::ReadResult));
    }
    assert!(matches!(step(&mut run, Event::Text(None)), Action::CloseOutput(0)));
    assert!(matches!(step(&mut run, Event::Done), Action::CloseOutput(1)));
    assert!(matches!(step(&mut run, Event::Done), Action::Exit));
    assert!(matches!(step(&mut run, Event::Done), Action::Idle));
    assert!(matches!(run.state, PipeState::Finished));
}

#[test]
fn a_device_waits_for_its_user() {
    let mut wanted = options(SourceSpec::Device(Some("Yeti".to_string())));
    wanted.backend = AsrBackendKind::Zipformer;
    let mut run = PipeSession::new(&wanted);
    let first: Action = run.start();
    assert!(matches!(first, Action::LoadBackend(AsrBackendKind::Zipformer)));
    assert!(matches!(step(&mut run, Event::Done), Action::WaitForEnter));
    let begun: Action = run.start();
    assert!(matches!(begun, Action::Idle));
    let opened = step(&mut run, Event::Done);
    assert!(matches!(
        opened,
        Action::OpenInput(SourceSpec::Device(Some(name))) if name == "Yeti"
    ));
    assert!(matches!(step(&mut run, Event::Done), Action::StartInput));
    assert!(matches!(step(&mut run, Event::Done), Action::CheckStop));
    assert!(matches!(step(&mut run, Event::Stop(false)), Action::ReadFrame));
    assert!(matches!(step(&mut run, Event::Frame(Some(1))), Action::Send(1)));
    assert!(matches!(step(&mut run, Event::Done), Action::CheckStop));
    assert!(matches!(step(&mut run, Event::Stop(true)), Action::CloseProcessor));
}

#[test]
fn failures_break_a_run_off() {
    let mut run = PipeSession::new(&options(SourceSpec::Device(None)));
    assert!(matches!(step(&mut run, Event::Stop(true)), Action::Idle));
    assert!(matches!(step(&mut run, Event::Failed("no model")), Action::Fail("no model")));
    assert!(matches!(step(&mut run, Event::Done), Action::Idle));
    assert!(matches!(run.state, PipeState::Failed));
}

#[test]
fn files_are_created_for_the_first_text() {
    let mut sink: TextSink<u8> = TextSink::new(TargetSpec::File("out.txt".to_string()));
    assert!(sink.poll_flush().is_none());
    match sink.start_send("one") {
        LineAction::CreateAndAppend { path, line } => {
            assert_eq!((path.as_str(), line.as_str()), ("out.txt", "one\n"));
        }
        _ => panic!("expected a new file"),
    }
    sink.opened(7);
    assert!(matches!(sink.start_send("two"), LineAction::Append(line) if line == "two\n"));
    assert_eq!(sink.poll_flush().copied(), Some(7));
    assert_eq!(sink.poll_close(), Some(7));
    assert_eq!(sink.poll_close(), None);
}

#[test]
fn standard_output_is_printed_to() {
    let mut sink: TextSink<u8> = TextSink::new(TargetSpec::Stdout);
    assert!(matches!(sink.start_send("one"), LineAction::Print(line) if line == "one\n"));
    assert!(sink.poll_flush().is_none());
    assert_eq!(sink.poll_close(), None);
}

#[test]
fn files_hold_exactly_the_lines() {
    for texts in [vec![], vec!["one"], vec!["one", "", "two\nthree"]] {
        let mut sink: TextSink<u8> = TextSink::new(TargetSpec::File("out.txt".to_string()));
        let mut content = Some("old".to_string());
        for (i, text) in texts.iter().enumerate() {
            match sink.start_send(text) {
                LineAction::CreateAndAppend { path, line } => {
                    assert_eq!(i, 0);
                    assert_eq!(path, "out.txt");
                    content = Some(line);
                    sink.opened(7);
                }
                LineAction::Append(line) => {
                    assert!(i > 0);
                    content = content.map(|content| content + &line);
                }
                LineAction::Print(_) => panic!("expected a file"),
            }
        }
        let expected = match texts.len() {
            0 => "old",
            1 => "one\n",
            _ => "one\n\ntwo\nthree\n",
        };
        assert_eq!(content.as_deref(), Some(expected));
        assert_eq!(sink.poll_close().is_some(), !texts.is_empty());
        assert_eq!(sink.poll_close(), None);
        assert!(sink.file.is_none());
    }
}

#[test]
fn targets_become_sinks_in_their_order() {
    let sinks: Vec<TextSink<u8>> =
        text_sinks(&options(SourceSpec::File("a.wav".to_string())).targets);

    assert_eq!(sinks.len(), 2);
    assert_eq!(sinks[0].target, TargetSpec::Stdout);
    assert_eq!(sinks[1].target, TargetSpec::File("out.txt".to_string()));
    assert!(sinks.iter().all(|sink| sink.file.is_none()));
}

#[test]
fn the_processor_is_closed_once_and_before_any_text() {
    let mut run = PipeSession::new(&options(SourceSpec::File("a.wav".to_string())));
    let events = vec![
        Event::Done,
        Event::Done,
        Event::Frame(Some(1)),
        Event::Done,
        Event::Frame(None),
        Event::Frame(Some(2)),
        Event::Done,
        Event::Text(Some("one".to_string())),
        Event::Done,
        Event::Done,
        Event::Frame(None),
        Event::Text(None),
        Event::Done,
        Event::Done,
    ];
    let actions: Vec<Action> = events.into_iter().map(|event| run.step(event)).collect();

    let closed: Vec<usize> = (0..actions.len())
        .filter(|&i| matches!(actions[i], Action::CloseProcessor))
        .collect();
    assert_eq!(closed, vec![4]);
    for (i, action) in actions.iter().enumerate() {
        match action {
            Action::Send(_) => assert!(i < 4),
            Action::ReadResult | Action::Write { .. } | Action::Exit => assert!(i > 4),
            _ => {}
        }
    }
    assert!(matches!(actions.last(), Some(Action::Exit)));
}
