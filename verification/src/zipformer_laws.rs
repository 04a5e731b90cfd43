//! What holds of every stream of speech.

use vstd::prelude::*;

use crate::audio::{is_mono_mix, mono_mix_length, signed_rate};
use crate::audio::{AudioFrame, Platform, Waveform};
use crate::backend::{AsrBackend, OneShot};
use crate::error::{AsrError, ErrorView};
use crate::zipformer::{is_zipformer_config, zipformer_load_error, DecodeEvent, DecodeStep};
use crate::zipformer::{ZipformerConfig, ZipformerEngine, ZipformerStream};

verus! {

/// The text that was reported last, the empty one before the first report.
pub open spec fn latest(reported: Seq<Seq<char>>) -> Seq<char> {
    if reported.len() == 0 {
        Seq::empty()
    } else {
        reported.last()
    }
}

/// What is reported of a series of states of the text: each that is not empty and
/// not the one reported before.
pub open spec fn news(texts: Seq<Option<String>>) -> Seq<Seq<char>>
    decreases texts.len(),
{
    if texts.len() == 0 {
        Seq::empty()
    } else {
        let earlier = news(texts.drop_last());
        match texts.last() {
            Some(text) if text@.len() > 0 && text@ != latest(earlier) => earlier.push(text@),
            _ => earlier,
        }
    }
}

/// `streams[i]` becomes `streams[i + 1]` by reporting `texts[i]`.
pub open spec fn is_reported<P: Platform>(
    streams: Seq<ZipformerStream<P>>,
    texts: Seq<Option<String>>,
    woken: Seq<Option<P::Waker>>,
    i: int,
) -> bool {
    streams[i].reports(texts[i], streams[i + 1], woken[i])
}

/// Every stream but the first came out of the one before it by a report.
pub open spec fn are_reported<P: Platform>(
    streams: Seq<ZipformerStream<P>>,
    texts: Seq<Option<String>>,
    woken: Seq<Option<P::Waker>>,
) -> bool {
    &&& streams.len() == texts.len() + 1
    &&& woken.len() == texts.len()
    &&& forall|i: int|
        0 <= i < texts.len() ==> #[trigger] is_reported(streams, texts, woken, i)
}

/// A stream queues exactly the news among the states of its text, in their order.
pub proof fn exactly_the_news_is_queued<P: Platform>(
    streams: Seq<ZipformerStream<P>>,
    texts: Seq<Option<String>>,
    woken: Seq<Option<P::Waker>>,
)
    requires
        are_reported(streams, texts, woken),
        streams[0].is_fresh(),
    ensures
        streams.last().outbox.pending@.len() == news(texts).len(),
        forall|i: int|
            0 <= i < news(texts).len() ==> {
                &&& (#[trigger] streams.last().outbox.pending@[i]) is Ok
                &&& streams.last().outbox.pending@[i]->Ok_0@ == news(texts)[i]
            },
        streams.last().last_text@ == latest(news(texts)),
    decreases texts.len(),
{
    if texts.len() > 0 {
        let n = texts.len() - 1;
        assert forall|i: int| 0 <= i < n implies #[trigger] is_reported(
            streams.drop_last(),
            texts.drop_last(),
            woken.drop_last(),
            i,
        ) by {
            assert(is_reported(streams, texts, woken, i));
        }
        exactly_the_news_is_queued(streams.drop_last(), texts.drop_last(), woken.drop_last());
        assert(streams.drop_last().last() == streams[n]);
        assert(is_reported(streams, texts, woken, n));
        let earlier = news(texts.drop_last());
        let before = streams[n].outbox.pending@;
        let after = streams[n + 1].outbox.pending@;
        assert forall|i: int| 0 <= i < news(texts).len() implies {
            &&& (#[trigger] after[i]) is Ok
            &&& after[i]->Ok_0@ == news(texts)[i]
        } by {
            if i < earlier.len() {
                assert(after[i] == before[i]);
                assert(before[i] is Ok);
                assert(news(texts)[i] == earlier[i]);
            }
        }
    }
}

/// No report is empty, and none says what the one before it said.
pub proof fn reports_never_repeat(texts: Seq<Option<String>>)
    ensures
        forall|i: int| 0 <= i < news(texts).len() ==> (#[trigger] news(texts)[i]).len() > 0,
        forall|i: int, j: int|
            0 <= i && j == i + 1 && j < news(texts).len() ==> #[trigger] news(texts)[i]
                != #[trigger] news(texts)[j],
    decreases texts.len(),
{
    if texts.len() > 0 {
        reports_never_repeat(texts.drop_last());
        let earlier = news(texts.drop_last());
        let all = news(texts);
        assert forall|i: int| 0 <= i < all.len() implies (#[trigger] all[i]).len() > 0 by {
            if i < earlier.len() {
                assert(all[i] == earlier[i]);
            }
        }
        assert forall|i: int, j: int| 0 <= i && j == i + 1 && j < all.len() implies
            #[trigger] all[i] != #[trigger] all[j] by {
            if j < earlier.len() {
                assert(all[i] == earlier[i]);
                assert(all[j] == earlier[j]);
            } else {
                assert(all[i] == earlier[i]);
                assert(latest(earlier) == earlier[i]);
            }
        }
    }
}

/// The last report is the text as it is now.
pub proof fn reports_are_up_to_date(texts: Seq<Option<String>>)
    requires
        texts.len() > 0,
        texts.last() is Some,
        texts.last()->0@.len() > 0,
    ensures
        latest(news(texts)) == texts.last()->0@,
{
}

/// A stream that was closed takes no more audio.
pub proof fn closed_streams_take_nothing<P: Platform>(
    before: ZipformerStream<P>,
    closed: ZipformerStream<P>,
    finish: bool,
    item: AudioFrame<P::Sample>,
    feed: Result<Waveform<P::Sample>, AsrError>,
)
    requires
        before.closes(closed, finish),
        closed.feeds(item, feed),
    ensures
        feed is Err,
        feed->Err_0@ == ErrorView::InvalidInput("cannot send audio after ASR stream is closed"@),
{
}

/// The recognizer's input is ended once: closing a second time changes nothing.
pub proof fn closing_again_does_nothing<P: Platform>(
    before: ZipformerStream<P>,
    closed: ZipformerStream<P>,
    finish: bool,
    after: ZipformerStream<P>,
    finish_again: bool,
)
    requires
        before.closes(closed, finish),
        closed.closes(after, finish_again),
    ensures
        !finish_again,
        after == closed,
{
}

/// `steps[i + 1]` is the step behind `steps[i]`, of which `events[i]` came.
pub open spec fn is_taken(steps: Seq<DecodeStep>, events: Seq<DecodeEvent>, i: int) -> bool {
    &&& steps[i].is_answered_by(events[i])
    &&& steps[i + 1] == steps[i].follow(events[i])
}

/// The steps lead from the first one on, each answered by its event.
pub open spec fn are_taken(steps: Seq<DecodeStep>, events: Seq<DecodeEvent>) -> bool {
    &&& steps.len() == events.len() + 1
    &&& steps[0] == DecodeStep::CheckReady
    &&& forall|i: int| 0 <= i < events.len() ==> #[trigger] is_taken(steps, events, i)
}

/// How often the recognizer said that it is ready.
pub open spec fn times_ready(events: Seq<DecodeEvent>) -> nat
    decreases events.len(),
{
    if events.len() == 0 {
        0
    } else {
        times_ready(events.drop_last()) + (if events.last() == DecodeEvent::Ready(true) {
            1nat
        } else {
            0nat
        })
    }
}

/// How often the recognizer decoded.
pub open spec fn times_decoded(events: Seq<DecodeEvent>) -> nat
    decreases events.len(),
{
    if events.len() == 0 {
        0
    } else {
        times_decoded(events.drop_last()) + (if events.last() == DecodeEvent::Decoded {
            1nat
        } else {
            0nat
        })
    }
}

/// The recognizer decodes once for every time that it is ready, and its text is
/// fetched when it is not ready any more, and not before.
pub proof fn decoding_follows_readiness(steps: Seq<DecodeStep>, events: Seq<DecodeEvent>)
    requires
        are_taken(steps, events),
    ensures
        times_ready(events) == times_decoded(events) + (if steps.last() is Decode {
            1nat
        } else {
            0nat
        }),
        steps.last() is FetchResult ==> {
            &&& events.len() > 0
            &&& events.last() == DecodeEvent::Ready(false)
        },
        steps.last() is Finished ==> {
            &&& events.len() > 1
            &&& events.last() == DecodeEvent::Fetched
            &&& events[events.len() - 2] == DecodeEvent::Ready(false)
        },
    decreases events.len(),
{
    if events.len() > 0 {
        let n = events.len() - 1;
        assert forall|i: int| 0 <= i < n implies #[trigger] is_taken(
            steps.drop_last(),
            events.drop_last(),
            i,
        ) by {
            assert(is_taken(steps, events, i));
        }
        decoding_follows_readiness(steps.drop_last(), events.drop_last());
        assert(steps.drop_last().last() == steps[n]);
        assert(is_taken(steps, events, n));
    }
}

/// An open stream feeds every frame that fits to the recognizer, and feeds it whole: as
/// many samples as the frame has moments, at its rate, and of mono audio the very
/// samples.
pub proof fn fitting_frames_are_fed_whole<P: Platform>(
    stream: ZipformerStream<P>,
    item: AudioFrame<P::Sample>,
    feed: Result<Waveform<P::Sample>, AsrError>,
)
    requires
        !stream.outbox.closed,
        item.channels > 0,
        item.samples@.len() % (item.channels as nat) == 0,
        stream.feeds(item, feed),
    ensures
        feed is Ok,
        feed->Ok_0.samples@.len() == item.samples@.len() / (item.channels as nat),
        item.channels == 1 ==> feed->Ok_0.samples@ == item.samples@,
        is_mono_mix::<P>(item.samples@, item.channels, feed->Ok_0.samples@),
        feed->Ok_0.sample_rate == signed_rate(item.sample_rate),
{
    mono_mix_length::<P>(item.samples@, item.channels, feed->Ok_0.samples@);
}

/// A frame without channels, or with a broken moment, is not fed.
pub proof fn broken_frames_are_refused<P: Platform>(
    stream: ZipformerStream<P>,
    item: AudioFrame<P::Sample>,
    feed: Result<Waveform<P::Sample>, AsrError>,
)
    requires
        item.channels == 0 || item.samples@.len() % (item.channels as nat) != 0,
        stream.feeds(item, feed),
    ensures
        feed is Err,
{
}

/// Closing an open stream ends the recognizer's input; what is reported, queued and
/// waited for stays.
pub proof fn closing_ends_the_input<P: Platform>(
    stream: ZipformerStream<P>,
    closed: ZipformerStream<P>,
    finish: bool,
)
    requires
        stream.closes(closed, finish),
    ensures
        finish <==> !stream.outbox.closed,
        closed.outbox.closed,
        closed.outbox.pending@ == stream.outbox.pending@,
        closed.outbox.waker == stream.outbox.waker,
        closed.last_text@ == stream.last_text@,
        closed.stream == stream.stream,
        closed.recognizer == stream.recognizer,
{
}

/// A text that differs from the last one and is not empty wakes the reader and goes
/// behind what waits; any other leaves all as it was, and whoever waits goes on to
/// wait.
pub proof fn news_wakes_the_reader<P: Platform>(
    stream: ZipformerStream<P>,
    text: Option<String>,
    after: ZipformerStream<P>,
    woken: Option<P::Waker>,
)
    requires
        stream.reports(text, after, woken),
    ensures
        text is Some && text->0@.len() > 0 && text->0@ != stream.last_text@ ==> {
            &&& after.outbox.pending@ == stream.outbox.pending@.push(Ok(text->0))
            &&& after.last_text@ == text->0@
            &&& woken == stream.outbox.waker
            &&& after.outbox.waker is None
        },
        text is None || text->0@.len() == 0 || text->0@ == stream.last_text@ ==> after == stream
            && woken is None,
        after.outbox.closed == stream.outbox.closed,
        after.stream == stream.stream,
        after.recognizer == stream.recognizer,
{
}

/// Decoding goes on exactly while the recognizer is ready. When it is not, its text is
/// fetched, once, and that is the end.
pub proof fn decoding_comes_to_its_end(step: DecodeStep)
    ensures
        DecodeStep::CheckReady.follow(DecodeEvent::Ready(true)) is Decode,
        DecodeStep::Decode.follow(DecodeEvent::Decoded) is CheckReady,
        DecodeStep::CheckReady.follow(DecodeEvent::Ready(false)).follow(
            DecodeEvent::Fetched,
        ) is Finished,
        step.follow(DecodeEvent::Fetched) is Finished <==> step is FetchResult
            || step is Finished,
        step.follow(DecodeEvent::Ready(true)) is Decode <==> step is CheckReady || step is Decode,
        step.follow(DecodeEvent::Decoded) is CheckReady <==> step is CheckReady || step is Decode,
        step.follow(DecodeEvent::Ready(false)) is FetchResult <==> step is CheckReady
            || step is FetchResult,
{
}

/// However often the recognizer is ready, it decodes that often, and the text is
/// fetched behind the last time.
pub proof fn all_audio_is_decoded(steps: Seq<DecodeStep>, events: Seq<DecodeEvent>, rounds: int)
    requires
        are_taken(steps, events),
        0 <= rounds,
        events.len() == 2 * rounds + 2,
        forall|i: int|
            0 <= i < 2 * rounds && i % 2 == 0 ==> #[trigger] events[i] == DecodeEvent::Ready(true),
        events[2 * rounds] == DecodeEvent::Ready(false),
    ensures
        forall|i: int| 0 <= i < 2 * rounds && i % 2 == 1 ==> #[trigger] steps[i] is Decode,
        steps[2 * rounds + 1] is FetchResult,
        steps.last() is Finished,
{
    decodes_every_round(steps, events, rounds, rounds);
    assert(is_taken(steps, events, 2 * rounds));
    assert(is_taken(steps, events, 2 * rounds + 1));
}

proof fn decodes_every_round(
    steps: Seq<DecodeStep>,
    events: Seq<DecodeEvent>,
    rounds: int,
    k: int,
)
    requires
        are_taken(steps, events),
        0 <= k <= rounds,
        events.len() == 2 * rounds + 2,
        forall|i: int|
            0 <= i < 2 * rounds && i % 2 == 0 ==> #[trigger] events[i] == DecodeEvent::Ready(true),
    ensures
        steps[2 * k] is CheckReady,
        forall|i: int| 0 <= i < 2 * k && i % 2 == 1 ==> #[trigger] steps[i] is Decode,
    decreases k,
{
    if k > 0 {
        decodes_every_round(steps, events, rounds, k - 1);
        assert(events[2 * k - 2] == DecodeEvent::Ready(true));
        assert(is_taken(steps, events, 2 * k - 2));
        assert(is_taken(steps, events, 2 * k - 1));
    }
}

/// The recognizer is set up with the files that were found.
pub proof fn set_ups_hold_what_was_found(
    config: ZipformerConfig,
    encoder: Seq<char>,
    decoder: Seq<char>,
    joiner: Seq<char>,
    tokens: Seq<char>,
)
    requires
        is_zipformer_config(config, encoder, decoder, joiner, tokens),
    ensures
        config.encoder@ == encoder,
        config.decoder@ == decoder,
        config.joiner@ == joiner,
        config.tokens@ == tokens,
        config.num_threads == 4,
        config.provider@ == "cpu"@,
        config.decoding_method@ == "greedy_search"@,
{
}

/// The recognizer can be set up exactly when all files are there. The first that is
/// missing is told, with the directory.
pub proof fn missing_files_are_told(
    dir: Seq<char>,
    encoder: Option<String>,
    decoder: Option<String>,
    joiner: Option<String>,
    tokens: Option<String>,
)
    ensures
        zipformer_load_error(dir, encoder, decoder, joiner, tokens) is None <==> encoder is Some
            && decoder is Some && joiner is Some && tokens is Some,
        encoder is None ==> zipformer_load_error(dir, encoder, decoder, joiner, tokens) == Some(
            ErrorView::BackendLoad("encoder.onnx (or encoder*.onnx) not found in "@ + dir),
        ),
        encoder is Some && decoder is None ==> zipformer_load_error(
            dir,
            encoder,
            decoder,
            joiner,
            tokens,
        ) == Some(
            ErrorView::BackendLoad("decoder.onnx (or decoder*.onnx) not found in "@ + dir),
        ),
        encoder is Some && decoder is Some && joiner is None ==> zipformer_load_error(
            dir,
            encoder,
            decoder,
            joiner,
            tokens,
        ) == Some(ErrorView::BackendLoad("joiner.onnx (or joiner*.onnx) not found in "@ + dir)),
        encoder is Some && decoder is Some && joiner is Some && tokens is None
            ==> zipformer_load_error(dir, encoder, decoder, joiner, tokens) == Some(
            ErrorView::BackendLoad("tokens.txt not found in "@ + dir),
        ),
{
}

/// A backend that is loaded has the recognizer that it was given, and goes on with what
/// was under way; one that could not be given any says so and stays as it was.
pub proof fn loading_takes_the_recognizer<P: Platform>(
    engine: ZipformerEngine<P>,
    recognizer: Option<P::Online>,
    after: ZipformerEngine<P>,
    outcome: Result<(), AsrError>,
)
    requires
        engine.loads(recognizer, after, outcome),
    ensures
        outcome is Ok <==> recognizer is Some,
        recognizer is Some ==> after.recognizer is Some && *after.recognizer->0 == recognizer->0,
        recognizer is None ==> after.recognizer == engine.recognizer && outcome->Err_0@
            == ErrorView::BackendLoad("failed to create Zipformer recognizer"@),
        after.stream == engine.stream,
{
}

/// A single frame that fits goes whole to the recognizer that is loaded, at its rate;
/// one that does not fit goes nowhere.
pub proof fn single_frames_go_whole<P: Platform>(
    engine: ZipformerEngine<P>,
    audio: AudioFrame<P::Sample>,
    job: Result<OneShot<P>, AsrError>,
)
    requires
        engine.processes(audio, job),
    ensures
        engine.recognizer is None ==> job is Err && job->Err_0@ == ErrorView::InvalidInput(
            "Zipformer backend not initialized. Call init() first."@,
        ),
        engine.recognizer is Some && audio.channels > 0 && audio.samples@.len() % (
        audio.channels as nat) == 0 ==> {
            &&& job matches Ok(OneShot::Online(work))
            &&& Some(work.recognizer) == engine.recognizer
            &&& work.wave.sample_rate == signed_rate(audio.sample_rate)
            &&& work.wave.samples@.len() * audio.channels == audio.samples@.len()
            &&& is_mono_mix::<P>(audio.samples@, audio.channels, work.wave.samples@)
        },
        audio.channels == 0 || audio.samples@.len() % (audio.channels as nat) != 0 ==> job is Err,
{
}

/// The stream that was handed in is the one that is worked with from then on, for the
/// recognizer that is loaded, with nothing in it yet.
pub proof fn opened_streams_are_used<P: Platform>(
    engine: ZipformerEngine<P>,
    opened: P::OnlineStream,
    after: ZipformerEngine<P>,
)
    requires
        engine.opens(opened, after),
    ensures
        engine.stream is None && engine.recognizer is Some ==> {
            &&& after.stream is Some
            &&& after.stream->0.stream == opened
            &&& Some(after.stream->0.recognizer) == engine.recognizer
            &&& after.stream->0.outbox.pending@.len() == 0
            &&& after.stream->0.last_text@.len() == 0
            &&& !after.stream->0.outbox.closed
        },
        engine.stream is Some || engine.recognizer is None ==> after == engine,
        after.recognizer == engine.recognizer,
{
}

} // verus!
