//! What holds of every processor.

use std::sync::Arc;

use vstd::prelude::*;

use crate::audio::{is_mono_mix, signed_rate, AudioFrame, Platform};
use crate::backend::{Closing, OneShot, Sent, Step};
use crate::backend_kind::AsrBackendKind;
use crate::error::{AsrError, ErrorView};
use crate::outbox::{NextResult, Poll};
use crate::processor::{feature_disabled, Backend, EnabledBackends, Processor};

verus! {

/// A processor that was not loaded takes nothing in and gives nothing out: every
/// request is answered with the same error and leaves it as it is.
pub proof fn unloaded_processors_refuse<P: Platform>(
    processor: Processor<P>,
    item: AudioFrame<P::Sample>,
    waker: P::Waker,
    after: Processor<P>,
    attended: Result<Step<P, ()>, AsrError>,
    sent: Result<Step<P, Sent<P>>, AsrError>,
    closed: Result<Step<P, Closing<P>>, AsrError>,
    read: Step<P, NextResult>,
)
    requires
        !processor.is_ready,
    ensures
        processor.attends(after, attended) ==> after == processor && attended is Err
            && attended->Err_0@ == Processor::<P>::not_initialized(),
        processor.sends(item, after, sent) ==> after == processor && sent is Err && sent->Err_0@
            == Processor::<P>::not_initialized(),
        processor.ends(after, closed) ==> after == processor && closed is Err && closed->Err_0@
            == Processor::<P>::not_initialized(),
        processor.hands_out(waker, after, read) ==> after == processor && (read matches Step::Done(
            Poll::Ready(Some(Err(error))),
        ) && error@ == Processor::<P>::not_initialized()),
{
}

/// A processor that is ready has its backend, loaded and of the kind that was chosen.
pub proof fn ready_processors_have_their_backend<P: Platform>(processor: Processor<P>)
    requires
        processor.wf(),
        processor.is_ready,
    ensures
        processor.backend is Some,
        processor.backend->0.kind() == processor.backend_kind,
        processor.backend->0.is_loaded(),
{
}

/// A processor that is ready stays ready, whatever is asked of it, and keeps the kind
/// of its backend.
pub proof fn ready_processors_stay_ready<P: Platform>(
    processor: Processor<P>,
    item: AudioFrame<P::Sample>,
    waker: P::Waker,
    text: Option<String>,
    opened: P::OnlineStream,
    after: Processor<P>,
    attended: Result<Step<P, ()>, AsrError>,
    sent: Result<Step<P, Sent<P>>, AsrError>,
    closed: Result<Step<P, Closing<P>>, AsrError>,
    woken: Option<P::Waker>,
    read: Step<P, NextResult>,
)
    requires
        processor.wf(),
        processor.is_ready,
        processor.attends(after, attended) || processor.sends(item, after, sent)
            || processor.ends(after, closed) || processor.reports(text, after, woken)
            || processor.opens(opened, after) || processor.hands_out(waker, after, read),
    ensures
        after.is_ready,
        after.backend_kind == processor.backend_kind,
{
}

/// A processor that is ready can be sent to, flushed and closed without an error.
pub proof fn ready_processors_attend<P: Platform>(
    processor: Processor<P>,
    after: Processor<P>,
    attended: Result<Step<P, ()>, AsrError>,
    closed: Result<Step<P, Closing<P>>, AsrError>,
)
    requires
        processor.wf(),
        processor.is_ready,
    ensures
        processor.attends(after, attended) ==> attended is Ok,
        processor.ends(after, closed) ==> closed is Ok,
{
}

/// A request that asked for a stream goes through once the stream is there.
pub proof fn opened_streams_are_enough<P: Platform>(
    processor: Processor<P>,
    item: AudioFrame<P::Sample>,
    held_back: Processor<P>,
    recognizer: Arc<P::Online>,
    opened: P::OnlineStream,
    served: Processor<P>,
    after: Processor<P>,
    sent: Result<Step<P, Sent<P>>, AsrError>,
)
    requires
        processor.wf(),
        processor.sends(item, held_back, Ok(Step::Open(recognizer))),
        held_back.opens(opened, served),
        served.sends(item, after, sent),
    ensures
        held_back == processor,
        processor.backend matches Some(Backend::Zipformer(engine)) && engine.recognizer == Some(
            recognizer,
        ),
        !(sent matches Ok(Step::Open(_))),
{
}

/// What is said by a processor that was not loaded, and by a program that was built
/// without a backend.
pub proof fn refusals_are_told<P: Platform>()
    ensures
        Processor::<P>::not_initialized() == ErrorView::InvalidInput(
            "ASR backend is not initialized. Call init() first."@,
        ),
        feature_disabled(AsrBackendKind::Whisper) == ErrorView::InvalidInput(
            "whisper"@ + " ASR backend feature is not enabled"@,
        ),
        feature_disabled(AsrBackendKind::Zipformer) == ErrorView::InvalidInput(
            "zipformer"@ + " ASR backend feature is not enabled"@,
        ),
{
}

/// A program has the backends that it was built with, each by itself.
pub proof fn backends_are_enabled_one_by_one(enabled: EnabledBackends)
    ensures
        enabled.has(AsrBackendKind::Whisper) == enabled.whisper,
        enabled.has(AsrBackendKind::Zipformer) == enabled.zipformer,
{
}

/// A single frame that fits goes whole to the recognizer that the processor is loaded
/// with, at its rate; one that does not fit goes nowhere.
pub proof fn single_frames_go_to_the_loaded_recognizer<P: Platform>(
    processor: Processor<P>,
    audio: AudioFrame<P::Sample>,
    job: Result<OneShot<P>, AsrError>,
)
    requires
        processor.wf(),
        processor.is_ready,
        processor.backend->0.processes(audio, job),
    ensures
        audio.channels > 0 && audio.samples@.len() % (audio.channels as nat) == 0 ==> match (
            processor.backend->0,
            job,
        ) {
            (Backend::Whisper(engine), Ok(OneShot::Offline(work))) => {
                &&& engine.recognizer == Some(work.recognizer)
                &&& work.wave.samples@.len() * audio.channels == audio.samples@.len()
                &&& is_mono_mix::<P>(audio.samples@, audio.channels, work.wave.samples@)
                &&& work.wave.sample_rate == signed_rate(audio.sample_rate)
            },
            (Backend::Zipformer(engine), Ok(OneShot::Online(work))) => {
                &&& engine.recognizer == Some(work.recognizer)
                &&& work.wave.samples@.len() * audio.channels == audio.samples@.len()
                &&& is_mono_mix::<P>(audio.samples@, audio.channels, work.wave.samples@)
                &&& work.wave.sample_rate == signed_rate(audio.sample_rate)
            },
            _ => false,
        },
        audio.channels == 0 ==> job is Err && job->Err_0@ == ErrorView::InvalidInput(
            "audio channel count is missing"@,
        ),
        audio.channels > 0 && audio.samples@.len() % (audio.channels as nat) != 0 ==> job is Err
            && job->Err_0@ == ErrorView::InvalidInput(
            "audio samples are not aligned to channels"@,
        ),
{
}

/// Asking a loaded processor whether it can be sent to, or flushing it, changes nothing
/// but that a Whisper processor may begin its recording.
pub proof fn attending_changes_nothing<P: Platform>(
    processor: Processor<P>,
    after: Processor<P>,
    answer: Result<Step<P, ()>, AsrError>,
)
    requires
        processor.wf(),
        processor.is_ready,
        processor.attends(after, answer),
    ensures
        match (processor.backend->0, after.backend->0) {
            (Backend::Whisper(engine), Backend::Whisper(later)) => {
                &&& answer == Ok::<Step<P, ()>, AsrError>(Step::Done(()))
                &&& later.recognizer == engine.recognizer
                &&& engine.stream is Some ==> later.stream == engine.stream
                &&& engine.stream is None ==> later.stream is Some
                    && later.stream->0.samples@.len() == 0
                    && later.stream->0.outbox.pending@.len() == 0
            },
            (Backend::Zipformer(engine), Backend::Zipformer(later)) => {
                &&& later == engine
                &&& engine.stream is Some ==> answer == Ok::<Step<P, ()>, AsrError>(
                    Step::Done(()),
                )
                &&& engine.stream is None ==> answer == Ok::<Step<P, ()>, AsrError>(
                    Step::Open(engine.recognizer->0),
                )
            },
            _ => false,
        },
{
}

} // verus!
