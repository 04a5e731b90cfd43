//! What holds of every recording.

use vstd::prelude::*;

use crate::audio::{is_mono_mix, mono_mix_length, signed_rate};
use crate::audio::{AudioFrame, Platform, Waveform};
use crate::backend::{is_transcription, AsrBackend, OneShot};
use crate::error::{AsrError, ErrorView};
use crate::outbox::{NextResult, Poll};
use crate::text::occurs_in;
use crate::whisper::{is_whisper_config, whisper_load_error, ModelFile, WhisperConfig};
use crate::whisper::{WhisperEngine, WhisperStream, DEFAULT_SAMPLE_RATE};

verus! {

/// `streams[i]` becomes `streams[i + 1]` by being sent `items[i]`.
pub open spec fn is_sent<P: Platform>(
    streams: Seq<WhisperStream<P>>,
    items: Seq<AudioFrame<P::Sample>>,
    outcomes: Seq<Result<(), AsrError>>,
    i: int,
) -> bool {
    streams[i].takes(items[i], streams[i + 1], outcomes[i])
}

/// Every stream but the first came out of the one before it by a frame.
pub open spec fn are_sent<P: Platform>(
    streams: Seq<WhisperStream<P>>,
    items: Seq<AudioFrame<P::Sample>>,
    outcomes: Seq<Result<(), AsrError>>,
) -> bool {
    &&& streams.len() == items.len() + 1
    &&& outcomes.len() == items.len()
    &&& forall|i: int|
        0 <= i < items.len() ==> #[trigger] is_sent(streams, items, outcomes, i)
}

proof fn sent_before<P: Platform>(
    streams: Seq<WhisperStream<P>>,
    items: Seq<AudioFrame<P::Sample>>,
    outcomes: Seq<Result<(), AsrError>>,
    n: int,
)
    requires
        are_sent(streams, items, outcomes),
        0 <= n <= items.len(),
    ensures
        are_sent(streams.take(n + 1), items.take(n), outcomes.take(n)),
        streams.take(n + 1)[0] == streams[0],
        streams.take(n + 1).last() == streams[n],
{
    assert forall|i: int| 0 <= i < n implies #[trigger] is_sent(
        streams.take(n + 1),
        items.take(n),
        outcomes.take(n),
        i,
    ) by {
        assert(is_sent(streams, items, outcomes, i));
    }
}

proof fn sending_collects<P: Platform>(
    streams: Seq<WhisperStream<P>>,
    items: Seq<AudioFrame<P::Sample>>,
    outcomes: Seq<Result<(), AsrError>>,
) -> (mixes: Seq<Seq<P::Sample>>)
    requires
        are_sent(streams, items, outcomes),
    ensures
        mixes.len() == items.len(),
        forall|i: int|
            0 <= i < items.len() ==> if outcomes[i] is Ok {
                is_mono_mix::<P>(items[i].samples@, items[i].channels, #[trigger] mixes[i])
            } else {
                mixes[i] == Seq::<P::Sample>::empty()
            },
        streams.last().samples@ == streams[0].samples@ + mixes.flatten(),
        streams.last().outbox == streams[0].outbox,
        streams.last().recognizer == streams[0].recognizer,
    decreases items.len(),
{
    if items.len() == 0 {
        let mixes = Seq::<Seq<P::Sample>>::empty();
        assert(mixes.flatten() =~= Seq::empty());
        assert(streams[0].samples@ + mixes.flatten() =~= streams[0].samples@);
        mixes
    } else {
        let n = items.len() - 1;
        sent_before(streams, items, outcomes, n);
        let earlier = sending_collects(streams.take(n + 1), items.take(n), outcomes.take(n));
        assert(is_sent(streams, items, outcomes, n));
        let mix = if outcomes[n] is Ok {
            choose|mono: Seq<P::Sample>| #[trigger]
                is_mono_mix::<P>(items[n].samples@, items[n].channels, mono)
                    && streams[n + 1].samples@ == streams[n].samples@ + mono
        } else {
            Seq::<P::Sample>::empty()
        };
        let mixes = earlier.push(mix);
        earlier.lemma_flatten_push(mix);
        assert(streams[n + 1].samples@ =~= streams[n].samples@ + mix);
        assert(streams[n + 1].samples@ =~= streams[0].samples@ + mixes.flatten());
        assert forall|i: int| 0 <= i < items.len() implies if outcomes[i] is Ok {
            is_mono_mix::<P>(items[i].samples@, items[i].channels, #[trigger] mixes[i])
        } else {
            mixes[i] == Seq::<P::Sample>::empty()
        } by {
            if i < n {
                assert(mixes[i] == earlier[i]);
                assert(outcomes.take(n)[i] == outcomes[i]);
                assert(items.take(n)[i] == items[i]);
            }
        }
        mixes
    }
}

/// What is recognized in the end is the whole recording: the mixes of all frames
/// that were accepted, one after the other, and nothing else.
pub proof fn recording_is_recognized_whole<P: Platform>(
    streams: Seq<WhisperStream<P>>,
    items: Seq<AudioFrame<P::Sample>>,
    outcomes: Seq<Result<(), AsrError>>,
    closed: WhisperStream<P>,
    work: Option<Waveform<P::Sample>>,
) -> (mixes: Seq<Seq<P::Sample>>)
    requires
        are_sent(streams, items, outcomes),
        streams[0].is_fresh(),
        streams.last().closes(closed, work),
    ensures
        mixes.len() == items.len(),
        forall|i: int|
            0 <= i < items.len() ==> if outcomes[i] is Ok {
                is_mono_mix::<P>(items[i].samples@, items[i].channels, #[trigger] mixes[i])
            } else {
                mixes[i] == Seq::<P::Sample>::empty()
            },
        work is Some,
        work->0.samples@ == mixes.flatten(),
{
    let mixes = sending_collects(streams, items, outcomes);
    assert(streams[0].samples@ + mixes.flatten() =~= mixes.flatten());
    mixes
}

/// The recording is recognized at the rate of its first frame, or at 16 kHz where
/// there was no frame.
pub proof fn recording_keeps_its_rate<P: Platform>(
    streams: Seq<WhisperStream<P>>,
    items: Seq<AudioFrame<P::Sample>>,
    outcomes: Seq<Result<(), AsrError>>,
    closed: WhisperStream<P>,
    work: Option<Waveform<P::Sample>>,
)
    requires
        are_sent(streams, items, outcomes),
        streams[0].is_fresh(),
        streams.last().closes(closed, work),
    ensures
        work is Some,
        work->0.sample_rate == signed_rate(
            if items.len() == 0 {
                DEFAULT_SAMPLE_RATE
            } else {
                items[0].sample_rate
            },
        ),
        items.len() > 0 ==> streams.last().channels == Some(items[0].channels),
{
    sending_collects(streams, items, outcomes);
    if items.len() > 0 {
        first_frame_sets_the_form(streams, items, outcomes);
    }
}

/// The first frame fixes the form of a recording, whatever comes behind it.
pub proof fn first_frame_sets_the_form<P: Platform>(
    streams: Seq<WhisperStream<P>>,
    items: Seq<AudioFrame<P::Sample>>,
    outcomes: Seq<Result<(), AsrError>>,
)
    requires
        are_sent(streams, items, outcomes),
        streams[0].is_fresh(),
        items.len() > 0,
    ensures
        streams.last().channels == Some(items[0].channels),
        streams.last().sample_rate == Some(items[0].sample_rate),
        !streams.last().outbox.closed,
    decreases items.len(),
{
    let n = items.len() - 1;
    assert(is_sent(streams, items, outcomes, n));
    if n > 0 {
        sent_before(streams, items, outcomes, n);
        first_frame_sets_the_form(streams.take(n + 1), items.take(n), outcomes.take(n));
    }
}

/// All accepted frames of a recording have the form of its first frame: a frame of
/// any other form is turned away.
pub proof fn accepted_frames_agree<P: Platform>(
    streams: Seq<WhisperStream<P>>,
    items: Seq<AudioFrame<P::Sample>>,
    outcomes: Seq<Result<(), AsrError>>,
    i: int,
)
    requires
        are_sent(streams, items, outcomes),
        streams[0].is_fresh(),
        0 <= i < items.len(),
        outcomes[i] is Ok,
    ensures
        items[i].channels == items[0].channels,
        items[i].sample_rate == items[0].sample_rate,
{
    assert(is_sent(streams, items, outcomes, i));
    if i > 0 {
        sent_before(streams, items, outcomes, i);
        first_frame_sets_the_form(streams.take(i + 1), items.take(i), outcomes.take(i));
    }
}

/// A frame of another form than the first one is turned away and changes nothing. The
/// complaint is about the number of channels where that differs, and about the rate
/// where only the rate does.
pub proof fn other_forms_are_refused<P: Platform>(
    streams: Seq<WhisperStream<P>>,
    items: Seq<AudioFrame<P::Sample>>,
    outcomes: Seq<Result<(), AsrError>>,
    item: AudioFrame<P::Sample>,
    after: WhisperStream<P>,
    outcome: Result<(), AsrError>,
)
    requires
        are_sent(streams, items, outcomes),
        streams[0].is_fresh(),
        items.len() > 0,
        streams.last().takes(item, after, outcome),
    ensures
        item.channels != items[0].channels ==> {
            &&& outcome is Err
            &&& outcome->Err_0@ == ErrorView::InvalidInput(
                "audio channel count changed during ASR stream"@,
            )
            &&& after == streams.last()
        },
        item.channels == items[0].channels && item.sample_rate != items[0].sample_rate ==> {
            &&& outcome is Err
            &&& outcome->Err_0@ == ErrorView::InvalidInput(
                "audio sample rate changed during ASR stream"@,
            )
            &&& after == streams.last()
        },
{
    first_frame_sets_the_form(streams, items, outcomes);
}

/// A stream that was closed takes no more audio, and is not changed by what it is
/// sent.
pub proof fn closed_streams_take_nothing<P: Platform>(
    before: WhisperStream<P>,
    closed: WhisperStream<P>,
    work: Option<Waveform<P::Sample>>,
    item: AudioFrame<P::Sample>,
    after: WhisperStream<P>,
    outcome: Result<(), AsrError>,
)
    requires
        before.closes(closed, work),
        closed.takes(item, after, outcome),
    ensures
        outcome is Err,
        outcome->Err_0@ == ErrorView::InvalidInput(
            "cannot send audio after ASR stream is closed"@,
        ),
        after == closed,
{
}

/// Closing a second time asks for no work and changes nothing.
pub proof fn closing_again_does_nothing<P: Platform>(
    before: WhisperStream<P>,
    closed: WhisperStream<P>,
    work: Option<Waveform<P::Sample>>,
    after: WhisperStream<P>,
    more_work: Option<Waveform<P::Sample>>,
)
    requires
        before.closes(closed, work),
        closed.closes(after, more_work),
    ensures
        more_work is None,
        after == closed,
{
}

/// A recording ends in one result, and then in the end of the stream: whatever was
/// sent, the reader gets what the recognizer made of it and nothing more.
pub proof fn one_recording_one_result<P: Platform>(
    streams: Seq<WhisperStream<P>>,
    items: Seq<AudioFrame<P::Sample>>,
    outcomes: Seq<Result<(), AsrError>>,
    closed: WhisperStream<P>,
    work: Option<Waveform<P::Sample>>,
    text: Option<String>,
    result: Result<String, AsrError>,
    reported: WhisperStream<P>,
    woken: Option<P::Waker>,
    waker: P::Waker,
    read: WhisperStream<P>,
    answer: NextResult,
    waker_then: P::Waker,
    ended: WhisperStream<P>,
    answer_then: NextResult,
)
    requires
        are_sent(streams, items, outcomes),
        streams[0].is_fresh(),
        streams.last().closes(closed, work),
        is_transcription(text, result),
        closed.queues(result, reported, woken),
        reported.hands_out(waker, read, answer),
        read.hands_out(waker_then, ended, answer_then),
    ensures
        answer == Poll::Ready(Some(result)),
        answer_then == Poll::Ready(None::<Result<String, AsrError>>),
{
    sending_collects(streams, items, outcomes);
}

/// For English every model will do: with all files there, nothing keeps the recognizer
/// from being set up.
pub proof fn english_takes_every_model(
    dir: Seq<char>,
    encoder: ModelFile,
    decoder: String,
    tokens: String,
)
    ensures
        whisper_load_error("en"@, dir, Some(encoder), Some(decoder), Some(tokens)) is None,
{
}

/// An open stream takes every frame that fits, however much was recorded before: one
/// with whole moments, in the form of the first frame that was offered, or as the first
/// one in any form. The recording then goes on by as many samples as the frame has
/// moments, and what was recorded before stays.
pub proof fn fitting_frames_are_taken<P: Platform>(
    streams: Seq<WhisperStream<P>>,
    items: Seq<AudioFrame<P::Sample>>,
    outcomes: Seq<Result<(), AsrError>>,
    item: AudioFrame<P::Sample>,
    after: WhisperStream<P>,
    outcome: Result<(), AsrError>,
)
    requires
        are_sent(streams, items, outcomes),
        streams[0].is_fresh(),
        items.len() > 0 ==> item.channels == items[0].channels && item.sample_rate
            == items[0].sample_rate,
        item.channels > 0,
        item.samples@.len() % (item.channels as nat) == 0,
        streams.last().takes(item, after, outcome),
    ensures
        outcome is Ok,
        after.samples@.len() == streams.last().samples@.len() + item.samples@.len() / (
        item.channels as nat),
        after.samples@.take(streams.last().samples@.len() as int) == streams.last().samples@,
        is_mono_mix::<P>(
            item.samples@,
            item.channels,
            after.samples@.skip(streams.last().samples@.len() as int),
        ),
        !after.outbox.closed,
{
    if items.len() > 0 {
        first_frame_sets_the_form(streams, items, outcomes);
    }
    let before = streams.last().samples@;
    let mono = choose|mono: Seq<P::Sample>| #[trigger]
        is_mono_mix::<P>(item.samples@, item.channels, mono) && after.samples@ == before + mono;
    mono_mix_length::<P>(item.samples@, item.channels, mono);
    assert(after.samples@.take(before.len() as int) =~= before);
    assert(after.samples@.skip(before.len() as int) =~= mono);
}

/// A frame without channels, or with a broken moment, is turned away and adds nothing.
pub proof fn broken_frames_are_refused<P: Platform>(
    before: WhisperStream<P>,
    item: AudioFrame<P::Sample>,
    after: WhisperStream<P>,
    outcome: Result<(), AsrError>,
)
    requires
        item.channels == 0 || item.samples@.len() % (item.channels as nat) != 0,
        before.takes(item, after, outcome),
    ensures
        outcome is Err,
        after.samples@ == before.samples@,
        after.outbox == before.outbox,
{
}

/// What the recognizer said is what the reader is told, letter by letter; where it said
/// nothing, the reader is told that there is no result.
pub proof fn answers_are_passed_on(text: Option<String>, outcome: Result<String, AsrError>)
    requires
        is_transcription(text, outcome),
    ensures
        text is Some ==> outcome is Ok && outcome->Ok_0@ == text->0@,
        text is None ==> outcome is Err && outcome->Err_0@ == ErrorView::Transcription(
            "no recognition result"@,
        ),
{
}

/// The recognizer is set up with the files that were found, for the language that was
/// asked for, to transcribe.
pub proof fn set_ups_hold_what_was_found(
    config: WhisperConfig,
    language: Seq<char>,
    encoder: Seq<char>,
    decoder: Seq<char>,
    tokens: Seq<char>,
)
    requires
        is_whisper_config(config, language, encoder, decoder, tokens),
    ensures
        config.encoder@ == encoder,
        config.decoder@ == decoder,
        config.tokens@ == tokens,
        config.language@ == language,
        config.task@ == "transcribe"@,
        config.tail_paddings == -1,
        !config.enable_token_timestamps && !config.enable_segment_timestamps,
        config.num_threads == 4,
        config.provider@ == "cpu"@,
{
}

/// A missing file keeps the recognizer from being set up; the first that is missing is
/// told, with the directory.
pub proof fn missing_files_are_told(
    language: Seq<char>,
    dir: Seq<char>,
    encoder: Option<ModelFile>,
    decoder: Option<String>,
    tokens: Option<String>,
)
    ensures
        encoder is None ==> whisper_load_error(language, dir, encoder, decoder, tokens) == Some(
            ErrorView::BackendLoad("encoder.onnx (or *-encoder.onnx) not found in "@ + dir),
        ),
        encoder is Some && decoder is None ==> whisper_load_error(
            language,
            dir,
            encoder,
            decoder,
            tokens,
        ) == Some(
            ErrorView::BackendLoad("decoder.onnx (or *-decoder.onnx) not found in "@ + dir),
        ),
        encoder is Some && decoder is Some && tokens is None ==> whisper_load_error(
            language,
            dir,
            encoder,
            decoder,
            tokens,
        ) == Some(ErrorView::BackendLoad("tokens.txt (or *-tokens.txt) not found in "@ + dir)),
{
}

/// For another language than English, with all files there, only a model whose file
/// name holds `.en-` is turned down.
pub proof fn other_languages_need_another_model(
    language: Seq<char>,
    dir: Seq<char>,
    encoder: ModelFile,
    decoder: String,
    tokens: String,
    head: Seq<char>,
    tail: Seq<char>,
)
    requires
        language != "en"@,
    ensures
        encoder.file_name is Some && encoder.file_name->0@ == head + ".en-"@ + tail
            ==> whisper_load_error(language, dir, Some(encoder), Some(decoder), Some(tokens))
            == Some(
            ErrorView::BackendLoad(
                "configured language is "@ + language
                    + ", but the selected Whisper model is English-only: "@ + encoder.path@
                    + ". Install a multilingual Whisper model instead of a .en model."@,
            ),
        ),
        whisper_load_error(language, dir, Some(encoder), Some(decoder), Some(tokens)) is Some
            ==> encoder.file_name is Some && exists|at: int|
            {
                &&& 0 <= at <= encoder.file_name->0@.len() - ".en-"@.len()
                &&& #[trigger] encoder.file_name->0@.subrange(at, at + ".en-"@.len()) == ".en-"@
            },
{
    if encoder.file_name is Some && encoder.file_name->0@ == head + ".en-"@ + tail {
        let name = encoder.file_name->0@;
        let at = head.len() as int;
        assert(name.subrange(at, at + ".en-"@.len()) =~= ".en-"@);
        assert(occurs_in(".en-"@, name));
    }
}

/// A backend that is loaded has the recognizer that it was given, and goes on with what
/// was under way; one that could not be given any says so and stays as it was.
pub proof fn loading_takes_the_recognizer<P: Platform>(
    engine: WhisperEngine<P>,
    recognizer: Option<P::Offline>,
    after: WhisperEngine<P>,
    outcome: Result<(), AsrError>,
)
    requires
        engine.loads(recognizer, after, outcome),
    ensures
        outcome is Ok <==> recognizer is Some,
        recognizer is Some ==> after.recognizer is Some && *after.recognizer->0 == recognizer->0,
        recognizer is None ==> after.recognizer == engine.recognizer && outcome->Err_0@
            == ErrorView::BackendLoad("failed to create Whisper recognizer"@),
        after.stream == engine.stream,
{
}

/// A single frame that fits goes whole to the recognizer that is loaded, at its rate;
/// one that does not fit goes nowhere.
pub proof fn single_frames_go_whole<P: Platform>(
    engine: WhisperEngine<P>,
    audio: AudioFrame<P::Sample>,
    job: Result<OneShot<P>, AsrError>,
)
    requires
        engine.processes(audio, job),
    ensures
        engine.recognizer is None ==> job is Err && job->Err_0@ == ErrorView::InvalidInput(
            "Whisper backend not initialized. Call init() first."@,
        ),
        engine.recognizer is Some && audio.channels > 0 && audio.samples@.len() % (
        audio.channels as nat) == 0 ==> {
            &&& job matches Ok(OneShot::Offline(work))
            &&& Some(work.recognizer) == engine.recognizer
            &&& work.wave.sample_rate == signed_rate(audio.sample_rate)
            &&& work.wave.samples@.len() * audio.channels == audio.samples@.len()
            &&& is_mono_mix::<P>(audio.samples@, audio.channels, work.wave.samples@)
        },
        audio.channels == 0 || audio.samples@.len() % (audio.channels as nat) != 0 ==> job is Err,
{
}

} // verus!
