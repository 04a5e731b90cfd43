//! What callers of the library can count on, function by function.
//!
//! A method that changes its receiver is spoken of by the receiver `before` and `after`
//! the call.

use std::sync::Arc;

use vstd::prelude::*;

use crate::audio::{is_mono_mix, mono_samples, signed_rate, waveform};
use crate::audio::{AudioFrame, Platform, Waveform};
use crate::backend::{transcription, Closing, OneShot, Sent, Step};
use crate::backend_kind::{backend_name, AsrBackendKind};
use crate::cli::{arg_views, command_of, help, help_lines, parse_command, target_views};
use crate::cli::{Command, CommandView, PipeOptions, SourceSpec, SourceView};
use crate::cli::{TargetSpec, TargetView, UsageError};
use crate::error::{AsrError, ErrorView};
use crate::model::{location, model_path, part_views, ModelDir, NamePattern};
use crate::outbox::NextResult;
use crate::pipe::{text_sinks, LineAction, PipeAction, PipeEvent, PipeSession, TextSink};
use crate::processor::{create_backend, Backend, EnabledBackends, Processor};
use crate::text::occurs_in;
use crate::version;
use crate::whisper::{whisper_load_error, ModelFile, WhisperConfig, WhisperEngine, WhisperFiles};
use crate::zipformer::{zipformer_load_error, DecodeEvent, DecodeStep};
use crate::zipformer::{ZipformerConfig, ZipformerEngine, ZipformerFiles};

verus! {

/// Mixing a frame down succeeds exactly when the frame has whole moments, and then
/// gives its mix.
pub proof fn whole_moments_are_mixed<P: Platform>(
    audio: AudioFrame<P::Sample>,
    mono: Result<Vec<P::Sample>, AsrError>,
)
    requires
        call_ensures(mono_samples::<P>, (&audio,), mono),
    ensures
        mono is Ok <==> audio.channels > 0 && audio.samples@.len() % (audio.channels as nat) == 0,
        mono is Ok ==> mono->Ok_0@.len() * audio.channels == audio.samples@.len() && is_mono_mix::<
            P,
        >(audio.samples@, audio.channels, mono->Ok_0@),
{
    if mono is Ok && audio.channels == 1 {
        let n = mono->Ok_0@.len();
        assert(n * audio.channels == n) by (nonlinear_arith)
            requires
                audio.channels == 1,
        ;
    }
}

/// The waveform of a frame is its mix at its rate.
pub proof fn waveforms_are_mixes_at_their_rate<P: Platform>(
    audio: AudioFrame<P::Sample>,
    wave: Result<Waveform<P::Sample>, AsrError>,
)
    requires
        call_ensures(waveform::<P>, (&audio,), wave),
    ensures
        wave is Ok <==> audio.channels > 0 && audio.samples@.len() % (audio.channels as nat) == 0,
        wave is Ok ==> {
            &&& wave->Ok_0.sample_rate == signed_rate(audio.sample_rate)
            &&& wave->Ok_0.samples@.len() * audio.channels == audio.samples@.len()
            &&& is_mono_mix::<P>(audio.samples@, audio.channels, wave->Ok_0.samples@)
        },
{
    if wave is Ok && audio.channels == 1 {
        let n = wave->Ok_0.samples@.len();
        assert(n * audio.channels == n) by (nonlinear_arith)
            requires
                audio.channels == 1,
        ;
    }
}

/// What the recognizer said is the outcome; that it said nothing is an error.
pub proof fn outcomes_are_what_was_said(
    text: Option<String>,
    outcome: Result<String, AsrError>,
)
    requires
        call_ensures(transcription, (text,), outcome),
    ensures
        text is Some ==> outcome is Ok && outcome->Ok_0@ == text->0@,
        text is None ==> outcome is Err && outcome->Err_0@ == ErrorView::Transcription(
            "no recognition result"@,
        ),
{
}

/// Each file of a Whisper model is looked up by its own name.
pub proof fn whisper_files_have_their_names<P: Platform>(
    encoder: ModelDir,
    decoder: ModelDir,
    tokens: ModelDir,
    files: WhisperFiles,
)
    requires
        call_ensures(WhisperEngine::<P>::find_files, (&encoder, &decoder, &tokens), files),
    ensures
        files.encoder == location(encoder, NamePattern::Suffixed { stem: "encoder.onnx" }),
        files.decoder == location(decoder, NamePattern::Suffixed { stem: "decoder.onnx" }),
        files.tokens == location(tokens, NamePattern::Suffixed { stem: "tokens.txt" }),
{
}

/// Each file of a Zipformer model is looked up by its own name.
pub proof fn zipformer_files_have_their_names<P: Platform>(
    encoder: ModelDir,
    decoder: ModelDir,
    joiner: ModelDir,
    tokens: ModelDir,
    files: ZipformerFiles,
)
    requires
        call_ensures(
            ZipformerEngine::<P>::find_files,
            (&encoder, &decoder, &joiner, &tokens),
            files,
        ),
    ensures
        files.encoder == location(
            encoder,
            NamePattern::Prefixed { exact: "encoder.onnx", prefix: "encoder" },
        ),
        files.decoder == location(
            decoder,
            NamePattern::Prefixed { exact: "decoder.onnx", prefix: "decoder" },
        ),
        files.joiner == location(
            joiner,
            NamePattern::Prefixed { exact: "joiner.onnx", prefix: "joiner" },
        ),
        files.tokens == location(
            tokens,
            NamePattern::Prefixed { exact: "tokens.txt", prefix: "tokens" },
        ),
{
}

/// A Whisper recognizer is set up for English, with each file in its place, whenever
/// all files were found.
pub proof fn whisper_is_set_up_with_its_files<P: Platform>(
    dir: &str,
    encoder: Option<ModelFile>,
    decoder: Option<String>,
    tokens: Option<String>,
    config: Result<WhisperConfig, AsrError>,
)
    requires
        call_ensures(WhisperEngine::<P>::configure, (dir, encoder, decoder, tokens), config),
    ensures
        config is Ok <==> encoder is Some && decoder is Some && tokens is Some,
        config is Ok ==> {
            &&& config->Ok_0.encoder@ == encoder->0.path@
            &&& config->Ok_0.decoder@ == decoder->0@
            &&& config->Ok_0.tokens@ == tokens->0@
            &&& config->Ok_0.language@ == "en"@
            &&& config->Ok_0.task@ == "transcribe"@
        },
        config is Err ==> Some(config->Err_0@) == whisper_load_error(
            "en"@,
            dir@,
            encoder,
            decoder,
            tokens,
        ),
{
}

/// For any language, a Whisper recognizer is set up with each file in its place, or it
/// is said what keeps it from that.
pub proof fn whisper_is_set_up_for_any_language<P: Platform>(
    language: &str,
    dir: &str,
    encoder: Option<ModelFile>,
    decoder: Option<String>,
    tokens: Option<String>,
    config: Result<WhisperConfig, AsrError>,
)
    requires
        call_ensures(
            WhisperEngine::<P>::configure_for,
            (language, dir, encoder, decoder, tokens),
            config,
        ),
    ensures
        config is Ok <==> {
            &&& encoder is Some && decoder is Some && tokens is Some
            &&& language@ == "en"@ || encoder->0.file_name is None || !occurs_in(
                ".en-"@,
                encoder->0.file_name->0@,
            )
        },
        config is Ok ==> {
            &&& config->Ok_0.encoder@ == encoder->0.path@
            &&& config->Ok_0.decoder@ == decoder->0@
            &&& config->Ok_0.tokens@ == tokens->0@
            &&& config->Ok_0.language@ == language@
        },
        config is Err ==> Some(config->Err_0@) == whisper_load_error(
            language@,
            dir@,
            encoder,
            decoder,
            tokens,
        ),
{
}

/// A Zipformer recognizer is set up with each file in its place whenever all files were
/// found.
pub proof fn zipformer_is_set_up_with_its_files<P: Platform>(
    dir: &str,
    encoder: Option<String>,
    decoder: Option<String>,
    joiner: Option<String>,
    tokens: Option<String>,
    config: Result<ZipformerConfig, AsrError>,
)
    requires
        call_ensures(
            ZipformerEngine::<P>::configure,
            (dir, encoder, decoder, joiner, tokens),
            config,
        ),
    ensures
        config is Ok <==> encoder is Some && decoder is Some && joiner is Some && tokens is Some,
        config is Ok ==> {
            &&& config->Ok_0.encoder@ == encoder->0@
            &&& config->Ok_0.decoder@ == decoder->0@
            &&& config->Ok_0.joiner@ == joiner->0@
            &&& config->Ok_0.tokens@ == tokens->0@
        },
        config is Err ==> Some(config->Err_0@) == zipformer_load_error(
            dir@,
            encoder,
            decoder,
            joiner,
            tokens,
        ),
{
}

/// A name that holds `.en-` marks a model for English only, and no other does.
pub proof fn english_models_are_known_by_name<P: Platform>(file_name: Option<&str>, english: bool)
    requires
        call_ensures(WhisperEngine::<P>::is_english_only_model, (file_name,), english),
    ensures
        english <==> file_name is Some && occurs_in(".en-"@, file_name->0@),
{
}

/// Models lie in a directory of their name, below the same directory of the user's
/// home.
pub proof fn models_lie_below_home(
    home: Option<String>,
    user_profile: Option<String>,
    name: &str,
    parts: Vec<String>,
)
    requires
        call_ensures(model_path, (home, user_profile, name), parts),
    ensures
        parts@.len() == 3,
        home is Some ==> parts@[0]@ == home->0@,
        home is None && user_profile is Some ==> parts@[0]@ == user_profile->0@,
        home is None && user_profile is None ==> parts@[0]@.len() == 0,
        parts@[1]@ == ".airs/models"@,
        parts@[2]@ == name@,
{
    let views = part_views(parts@);
    assert(views.len() == 3);
    assert(views[0] == parts@[0]@ && views[1] == parts@[1]@ && views[2] == parts@[2]@);
}

/// The views of what the command line names hide nothing: same view, same kind and
/// same text.
pub proof fn views_hide_nothing(
    source: SourceSpec,
    target: TargetSpec,
    options: PipeOptions,
    args: Seq<String>,
    i: int,
)
    ensures
        source matches SourceSpec::File(path) ==> source@ == SourceView::File(path@),
        source matches SourceSpec::Device(Some(name)) ==> source@ == SourceView::Device(
            Some(name@),
        ),
        source matches SourceSpec::Device(None) ==> source@ == SourceView::Device(None),
        target matches TargetSpec::File(path) ==> target@ == TargetView::File(path@),
        target is Stdout ==> target@ is Stdout,
        options@.source == options.source@,
        options@.targets.len() == options.targets@.len(),
        0 <= i < options.targets@.len() ==> options@.targets[i] == options.targets@[i]@,
        options@.backend == options.backend,
        arg_views(args).len() == args.len(),
        0 <= i < args.len() ==> arg_views(args)[i] == args[i]@,
{
}

/// A command line is parsed to what it asks for: to that very command, or to the
/// complaint about it.
pub proof fn command_lines_are_parsed(args: Vec<String>, answer: Result<Command, UsageError>)
    requires
        call_ensures(parse_command, (args,), answer),
    ensures
        answer is Ok <==> command_of(arg_views(args@)) is Ok,
        answer is Err ==> answer->Err_0.message@ == command_of(arg_views(args@))->Err_0,
        answer is Ok ==> match (answer->Ok_0, command_of(arg_views(args@))->Ok_0) {
            (Command::Help, CommandView::Help) => true,
            (Command::Version, CommandView::Version) => true,
            (Command::Pipe { options }, CommandView::Pipe(wanted)) => {
                &&& options.source@ == wanted.source
                &&& target_views(options.targets@) == wanted.targets
                &&& options.backend == wanted.backend
            },
            _ => false,
        },
{
}

/// The help shows every command, every kind of source and target, and the default.
pub proof fn the_help_shows_every_form(lines: Vec<String>)
    requires
        call_ensures(help, (), lines),
    ensures
        arg_views(lines@) == help_lines(),
        lines@.len() == 15,
        lines@[0]@ == "Usage:"@,
        lines@[1]@ == "  airs-asr --help"@,
        lines@[2]@ == "  airs-asr --version"@,
        lines@[3]@
            == "  airs-asr pipe -i <source> -o <target> [-o <target>...] [--backend <name>]"@,
        lines@[5]@ == "Source:"@,
        lines@[6]@ == "  -i file:<path>    Audio file"@,
        lines@[7]@ == "  -i device         Default microphone device"@,
        lines@[8]@ == "  -i device:<name>  Named microphone device"@,
        lines@[10]@ == "Target:"@,
        lines@[11]@ == "  -o file:<path>    Text file"@,
        lines@[12]@ == "  -o stdout         Standard output"@,
        lines@[14]@ == "Defaults: backend="@ + "whisper"@ + "."@,
        lines@[4]@ == ""@ && lines@[9]@ == ""@ && lines@[13]@ == ""@,
{
    assert(arg_views(lines@).len() == lines@.len());
    assert forall|i: int| 0 <= i < 15 implies #[trigger] lines@[i]@ == help_lines()[i] by {
        assert(arg_views(lines@)[i] == lines@[i]@);
    }
}

/// The version, the names of the backends, and how errors read.
pub proof fn names_are_told(
    text: &'static str,
    kind: AsrBackendKind,
    name: &'static str,
    error: AsrError,
    message: String,
)
    ensures
        call_ensures(version, (), text) ==> text@ == "0.1.0"@,
        call_ensures(backend_name, (kind,), name) ==> name@ == if kind is Whisper {
            "whisper"@
        } else {
            "zipformer"@
        },
        call_ensures(AsrError::message, (&error,), message) ==> message@ == error@.message(),
{
}

/// A backend is made where the program has it, of the kind that was asked for, with
/// nothing loaded; where it has not, that is said.
pub proof fn backends_are_made_as_asked<P: Platform>(
    kind: AsrBackendKind,
    enabled: EnabledBackends,
    backend: Result<Backend<P>, AsrError>,
)
    requires
        call_ensures(create_backend::<P>, (kind, enabled), backend),
    ensures
        kind is Whisper && enabled.whisper ==> (backend matches Ok(Backend::Whisper(engine))
            && engine.recognizer is None && engine.stream is None),
        kind is Zipformer && enabled.zipformer ==> (backend matches Ok(Backend::Zipformer(engine))
            && engine.recognizer is None && engine.stream is None),
        kind is Whisper && !enabled.whisper ==> backend is Err && backend->Err_0@
            == ErrorView::InvalidInput("whisper"@ + " ASR backend feature is not enabled"@),
        kind is Zipformer && !enabled.zipformer ==> backend is Err && backend->Err_0@
            == ErrorView::InvalidInput("zipformer"@ + " ASR backend feature is not enabled"@),
{
}

/// A new processor has Whisper chosen and nothing loaded; choosing a backend drops what
/// was loaded.
pub proof fn choosing_drops_what_was_loaded<P: Platform>(
    before: Processor<P>,
    kind: AsrBackendKind,
    after: Processor<P>,
    ready: bool,
)
    ensures
        call_ensures(Processor::<P>::new, (), after) ==> after.backend_kind is Whisper
            && after.backend is None && !after.is_ready,
        call_ensures(Processor::<P>::set_backend, (before, kind), after) ==> after.backend_kind
            == kind && after.backend is None && !after.is_ready,
        call_ensures(Processor::<P>::is_ready, (&before,), ready) ==> ready == before.is_ready,
{
}

/// Loading goes on with the backend that is there, and otherwise with a new one of the
/// chosen kind.
pub proof fn loading_begins_with_the_chosen_backend<P: Platform>(
    processor: Processor<P>,
    enabled: EnabledBackends,
    backend: Result<Backend<P>, AsrError>,
)
    requires
        processor.wf(),
        call_ensures(Processor::<P>::init, (processor, enabled), backend),
    ensures
        processor.backend is Some ==> backend == Ok::<Backend<P>, AsrError>(processor.backend->0),
        processor.backend is None && processor.backend_kind is Whisper && enabled.whisper ==> (
        backend matches Ok(Backend::Whisper(engine)) && engine.recognizer is None),
        processor.backend is None && processor.backend_kind is Zipformer && enabled.zipformer ==> (
        backend matches Ok(Backend::Zipformer(engine)) && engine.recognizer is None),
        processor.backend is None && processor.backend_kind is Whisper && !enabled.whisper
            ==> backend is Err,
        processor.backend is None && processor.backend_kind is Zipformer && !enabled.zipformer
            ==> backend is Err,
{
}

/// A backend and its recognizer make a processor that is ready, with that recognizer;
/// without a recognizer there is none.
pub proof fn loading_ends_in_a_ready_processor<P: Platform>(
    whisper: WhisperEngine<P>,
    offline: Option<P::Offline>,
    zipformer: ZipformerEngine<P>,
    online: Option<P::Online>,
    processor: Result<Processor<P>, AsrError>,
)
    ensures
        call_ensures(Processor::<P>::init_whisper, (whisper, offline), processor) ==> {
            &&& processor is Ok <==> offline is Some
            &&& processor is Ok ==> {
                &&& processor->Ok_0.is_ready
                &&& processor->Ok_0.backend matches Some(Backend::Whisper(engine))
                &&& engine.recognizer == Some(Arc::new(offline->0))
                &&& engine.stream == whisper.stream
            }
            &&& processor is Err ==> processor->Err_0@ == ErrorView::BackendLoad(
                "failed to create Whisper recognizer"@,
            )
        },
        call_ensures(Processor::<P>::init_zipformer, (zipformer, online), processor) ==> {
            &&& processor is Ok <==> online is Some
            &&& processor is Ok ==> {
                &&& processor->Ok_0.is_ready
                &&& processor->Ok_0.backend matches Some(Backend::Zipformer(engine))
                &&& engine.recognizer == Some(Arc::new(online->0))
                &&& engine.stream == zipformer.stream
            }
            &&& processor is Err ==> processor->Err_0@ == ErrorView::BackendLoad(
                "failed to create Zipformer recognizer"@,
            )
        },
{
}

/// Asking whether a processor can be sent to attends to it.
pub proof fn poll_ready_attends<P: Platform>(
    before: Processor<P>,
    after: Processor<P>,
    answer: Result<Step<P, ()>, AsrError>,
)
    requires
        before.wf(),
        exists|receiver: &mut Processor<P>| #[trigger]
            call_ensures(Processor::<P>::poll_ready, (receiver,), answer) && *receiver == before
                && *final(receiver) == after,
    ensures
        before.attends(after, answer),
{
}

/// Flushing a processor attends to it.
pub proof fn poll_flush_attends<P: Platform>(
    before: Processor<P>,
    after: Processor<P>,
    answer: Result<Step<P, ()>, AsrError>,
)
    requires
        before.wf(),
        exists|receiver: &mut Processor<P>| #[trigger]
            call_ensures(Processor::<P>::poll_flush, (receiver,), answer) && *receiver == before
                && *final(receiver) == after,
    ensures
        before.attends(after, answer),
{
}

/// Sending to a processor sends that very frame.
pub proof fn start_send_sends<P: Platform>(
    before: Processor<P>,
    after: Processor<P>,
    item: AudioFrame<P::Sample>,
    outcome: Result<Step<P, Sent<P>>, AsrError>,
)
    requires
        before.wf(),
        exists|receiver: &mut Processor<P>| #[trigger]
            call_ensures(Processor::<P>::start_send, (receiver, &item), outcome) && *receiver == before
                && *final(receiver) == after,
    ensures
        before.sends(item, after, outcome),
{
}

/// Closing a processor ends its audio.
pub proof fn poll_close_ends<P: Platform>(
    before: Processor<P>,
    after: Processor<P>,
    work: Result<Step<P, Closing<P>>, AsrError>,
)
    requires
        before.wf(),
        exists|receiver: &mut Processor<P>| #[trigger]
            call_ensures(Processor::<P>::poll_close, (receiver,), work) && *receiver == before
                && *final(receiver) == after,
    ensures
        before.ends(after, work),
{
}

/// Reporting to a processor reports that very text.
pub proof fn report_reports<P: Platform>(
    before: Processor<P>,
    after: Processor<P>,
    text: Option<String>,
    woken: Option<P::Waker>,
)
    requires
        before.wf(),
        exists|receiver: &mut Processor<P>| #[trigger]
            call_ensures(Processor::<P>::report, (receiver, text), woken) && *receiver == before
                && *final(receiver) == after,
    ensures
        before.reports(text, after, woken),
{
}

/// Reading a processor hands out what it has.
pub proof fn poll_next_hands_out<P: Platform>(
    before: Processor<P>,
    after: Processor<P>,
    waker: P::Waker,
    answer: Step<P, NextResult>,
)
    requires
        before.wf(),
        exists|receiver: &mut Processor<P>| #[trigger]
            call_ensures(Processor::<P>::poll_next, (receiver, waker), answer) && *receiver == before
                && *final(receiver) == after,
    ensures
        before.hands_out(waker, after, answer),
{
}

/// Handing a processor a stream opens it.
pub proof fn open_stream_opens<P: Platform>(
    before: Processor<P>,
    after: Processor<P>,
    opened: P::OnlineStream,
)
    requires
        before.wf(),
        exists|receiver: &mut Processor<P>| #[trigger]
            call_ensures(Processor::<P>::open_stream, (receiver, opened), ()) && *receiver == before
                && *final(receiver) == after,
    ensures
        before.opens(opened, after),
{
}

/// A single frame is processed by the loaded backend, and changes nothing. A processor
/// that is not ready turns it down.
pub proof fn process_processes<P: Platform>(
    before: Processor<P>,
    after: Processor<P>,
    audio: AudioFrame<P::Sample>,
    job: Result<OneShot<P>, AsrError>,
)
    requires
        before.wf(),
        exists|receiver: &mut Processor<P>| #[trigger]
            call_ensures(Processor::<P>::process, (receiver, audio), job) && *receiver == before
                && *final(receiver) == after,
    ensures
        after == before,
        before.is_ready ==> before.backend->0.processes(audio, job),
        !before.is_ready ==> job is Err && job->Err_0@ == ErrorView::InvalidInput(
            "ASR backend is not initialized. Call init() first."@,
        ),
{
}

/// A step of a run is the one that the event leads to.
pub proof fn step_steps<F, E>(
    before: PipeSession,
    after: PipeSession,
    event: PipeEvent<F, E>,
    action: PipeAction<F, E>,
)
    requires
        exists|receiver: &mut PipeSession| #[trigger]
            call_ensures(PipeSession::step::<F, E>, (receiver, event), action) && *receiver == before
                && *final(receiver) == after,
    ensures
        (after.state, action) == before.follow(event),
        after.source == before.source,
        after.backend == before.backend,
        after.outputs == before.outputs,
{
}

/// A run is about what was asked for: that source, that backend, so many targets. It
/// has nothing behind it, and begins by loading that backend.
pub proof fn runs_are_about_what_was_asked_for<F, E>(
    options: PipeOptions,
    run: PipeSession,
    action: PipeAction<F, E>,
)
    requires
        call_ensures(PipeSession::new, (&options,), run),
        call_ensures(PipeSession::start::<F, E>, (&run,), action),
    ensures
        run.source == options.source,
        run.backend == options.backend,
        run.outputs == options.targets@.len(),
        run.state is Loading,
        action == PipeAction::<F, E>::LoadBackend(options.backend),
{
}

/// Every target has its own sink, in the order of the targets, and none has a file yet.
pub proof fn targets_have_their_sinks<H>(
    targets: Vec<TargetSpec>,
    sinks: Vec<TextSink<H>>,
    i: int,
)
    requires
        call_ensures(text_sinks::<H>, (&targets,), sinks),
    ensures
        sinks@.len() == targets@.len(),
        0 <= i < targets@.len() ==> sinks@[i].target == targets@[i] && sinks@[i].file is None,
{
}

/// A text is sent as itself and a line feed, to where the target is.
pub proof fn texts_are_sent_as_lines<H>(sink: TextSink<H>, item: &str, action: LineAction)
    requires
        call_ensures(TextSink::<H>::start_send, (&sink, item), action),
    ensures
        sink.sends(item@, action),
        action.line() == item@ + "\n"@,
        sink.target is Stdout ==> action is Print,
        sink.target is File && sink.file is None ==> action is CreateAndAppend,
        sink.target is File && sink.file is Some ==> action is Append,
{
}

/// A file that was created is kept.
pub proof fn opened_files_are_kept<H>(
    before: TextSink<H>,
    after: TextSink<H>,
    file: H,
)
    requires
        exists|receiver: &mut TextSink<H>| #[trigger]
            call_ensures(TextSink::<H>::opened, (receiver, file), ()) && *receiver == before
                && *final(receiver) == after,
    ensures
        after.file == Some(file),
        after.target == before.target,
{
}

/// Closing a sink hands out its file and lets go of it.
pub proof fn poll_close_closes<H>(
    before: TextSink<H>,
    after: TextSink<H>,
    file: Option<H>,
)
    requires
        exists|receiver: &mut TextSink<H>| #[trigger]
            call_ensures(TextSink::<H>::poll_close, (receiver,), file) && *receiver == before
                && *final(receiver) == after,
    ensures
        file == before.file,
        after.file is None,
        after.target == before.target,
{
}

/// Decoding begins by asking the recognizer whether it is ready, and goes on by what
/// came of each step.
pub proof fn decoding_goes_step_by_step(
    step: DecodeStep,
    event: DecodeEvent,
    first: DecodeStep,
    next: DecodeStep,
)
    ensures
        call_ensures(DecodeStep::first, (), first) ==> first is CheckReady,
        call_ensures(DecodeStep::next, (step, event), next) ==> next == step.follow(event),
{
}

} // verus!
