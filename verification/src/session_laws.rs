//! What holds of every course of requests to a processor, from the moment it is loaded.

use vstd::prelude::*;

use crate::audio::{is_mono_mix, mono_mix_length, signed_rate, AudioFrame, Platform};
use crate::backend::{is_transcription, Closing, OfflineJob, Sent, Step};
use crate::backend_kind::AsrBackendKind;
use crate::error::AsrError;
use crate::outbox::{NextResult, Outbox, Poll};
use crate::processor::{Backend, Processor};
use crate::whisper::{WhisperStream, DEFAULT_SAMPLE_RATE};
use crate::zipformer_laws::{latest, news};

verus! {

/// A request to a processor, and what came of it.
pub enum Request<P: Platform> {
    /// It was asked whether it can be sent to, or flushed.
    Attend { readiness: Result<Step<P, ()>, AsrError> },
    /// It was handed a stream of its recognizer.
    Open { opened: P::OnlineStream },
    /// It was sent a frame.
    Send { item: AudioFrame<P::Sample>, outcome: Result<Step<P, Sent<P>>, AsrError> },
    /// It was closed.
    Close { work: Result<Step<P, Closing<P>>, AsrError> },
    /// It was told what the recognizer gave back.
    Report { text: Option<String>, woken: Option<P::Waker> },
    /// It was read.
    Read { waker: P::Waker, answer: Step<P, NextResult> },
}

/// What the processor has for its reader, where it has begun to work on a stream.
pub open spec fn outbox_of<P: Platform>(processor: Processor<P>) -> Option<Outbox<P::Waker>> {
    match processor.backend {
        Some(Backend::Whisper(engine)) => match engine.stream {
            Some(stream) => Some(stream.outbox),
            None => None,
        },
        Some(Backend::Zipformer(engine)) => match engine.stream {
            Some(stream) => Some(stream.outbox),
            None => None,
        },
        None => None,
    }
}

/// The results that wait to be read.
pub open spec fn waiting<P: Platform>(processor: Processor<P>) -> Seq<Result<String, AsrError>> {
    match outbox_of(processor) {
        Some(outbox) => outbox.pending@,
        None => Seq::empty(),
    }
}

/// Request `i` turns `states[i]` into `states[i + 1]`.
pub open spec fn is_served<P: Platform>(
    states: Seq<Processor<P>>,
    requests: Seq<Request<P>>,
    i: int,
) -> bool {
    match requests[i] {
        Request::Attend { readiness } => states[i].attends(states[i + 1], readiness),
        Request::Open { opened } => states[i].opens(opened, states[i + 1]),
        Request::Send { item, outcome } => states[i].sends(item, states[i + 1], outcome),
        Request::Close { work } => states[i].ends(states[i + 1], work),
        Request::Report { text, woken } => states[i].reports(text, states[i + 1], woken),
        Request::Read { waker, answer } => states[i].hands_out(waker, states[i + 1], answer),
    }
}

/// The requests lead from each of the states to the next, and the first of them is a
/// processor that was just loaded.
pub open spec fn are_served<P: Platform>(
    states: Seq<Processor<P>>,
    requests: Seq<Request<P>>,
) -> bool {
    &&& states.len() == requests.len() + 1
    &&& states[0].wf()
    &&& states[0].is_ready
    &&& outbox_of(states[0]) is None
    &&& forall|i: int| 0 <= i < requests.len() ==> #[trigger] is_served(states, requests, i)
}

/// The frames that were offered, accepted or not, among the first `n` requests.
pub open spec fn frames_offered<P: Platform>(requests: Seq<Request<P>>, n: int) -> Seq<
    AudioFrame<P::Sample>,
>
    decreases n,
{
    if n <= 0 {
        Seq::empty()
    } else {
        let earlier = frames_offered(requests, n - 1);
        match requests[n - 1] {
            Request::Send { item, .. } => earlier.push(item),
            _ => earlier,
        }
    }
}

/// The frames that were accepted, among the first `n` requests.
pub open spec fn frames_accepted<P: Platform>(requests: Seq<Request<P>>, n: int) -> Seq<
    AudioFrame<P::Sample>,
>
    decreases n,
{
    if n <= 0 {
        Seq::empty()
    } else {
        let earlier = frames_accepted(requests, n - 1);
        match requests[n - 1] {
            Request::Send { item, outcome: Ok(Step::Done(_)) } => earlier.push(item),
            _ => earlier,
        }
    }
}

/// What the recognizer gave back for the stream at work, among the first `n` requests.
pub open spec fn texts_heard<P: Platform>(
    states: Seq<Processor<P>>,
    requests: Seq<Request<P>>,
    n: int,
) -> Seq<Option<String>>
    decreases n,
{
    if n <= 0 {
        Seq::empty()
    } else {
        let earlier = texts_heard(states, requests, n - 1);
        match requests[n - 1] {
            Request::Report { text, .. } if outbox_of(states[n - 1]) is Some => earlier.push(text),
            _ => earlier,
        }
    }
}

/// What the first `n` requests read.
pub open spec fn results_read<P: Platform>(requests: Seq<Request<P>>, n: int) -> Seq<
    Result<String, AsrError>,
>
    decreases n,
{
    if n <= 0 {
        Seq::empty()
    } else {
        let earlier = results_read(requests, n - 1);
        match requests[n - 1] {
            Request::Read { answer: Step::Done(Poll::Ready(Some(result))), .. } => earlier.push(
                result,
            ),
            _ => earlier,
        }
    }
}

/// `one` and `other` are loaded with the same recognizer.
spec fn shares_recognizer<P: Platform>(one: Processor<P>, other: Processor<P>) -> bool {
    match (one.backend, other.backend) {
        (Some(Backend::Whisper(engine)), Some(Backend::Whisper(later))) => {
            &&& later.recognizer == engine.recognizer
            &&& later.stream is Some ==> Some(later.stream->0.recognizer) == engine.recognizer
        },
        (Some(Backend::Zipformer(engine)), Some(Backend::Zipformer(later))) => {
            &&& later.recognizer == engine.recognizer
            &&& later.stream is Some ==> Some(later.stream->0.recognizer) == engine.recognizer
        },
        _ => false,
    }
}

proof fn processors_stay_sound<P: Platform>(
    states: Seq<Processor<P>>,
    requests: Seq<Request<P>>,
    n: int,
)
    requires
        are_served(states, requests),
        0 <= n <= requests.len(),
    ensures
        states[n].wf(),
        states[n].is_ready,
        shares_recognizer(states[0], states[n]),
    decreases n,
{
    if n > 0 {
        processors_stay_sound(states, requests, n - 1);
        assert(is_served(states, requests, n - 1));
    }
}

/// The reader of a Whisper processor gets exactly the outcomes of what was recognized,
/// in their order: what was read and what still waits are together all of them.
pub proof fn whisper_hands_out_what_was_recognized<P: Platform>(
    states: Seq<Processor<P>>,
    requests: Seq<Request<P>>,
    n: int,
)
    requires
        are_served(states, requests),
        states[0].backend_kind == AsrBackendKind::Whisper,
        0 <= n <= requests.len(),
    ensures
        (results_read(requests, n) + waiting(states[n])).len() == texts_heard(
            states,
            requests,
            n,
        ).len(),
        forall|i: int|
            0 <= i < texts_heard(states, requests, n).len() ==> is_transcription(
                texts_heard(states, requests, n)[i],
                #[trigger] (results_read(requests, n) + waiting(states[n]))[i],
            ),
    decreases n,
{
    if n > 0 {
        processors_stay_sound(states, requests, n - 1);
        assert(is_served(states, requests, n - 1));
        whisper_hands_out_what_was_recognized(states, requests, n - 1);
        let texts_before = texts_heard(states, requests, n - 1);
        let before = results_read(requests, n - 1) + waiting(states[n - 1]);
        let after = results_read(requests, n) + waiting(states[n]);
        match requests[n - 1] {
            Request::Report { text, woken } if outbox_of(states[n - 1]) is Some => {
                assert(after =~= before.push(waiting(states[n]).last()));
                assert forall|i: int| 0 <= i < texts_heard(states, requests, n).len() implies
                    is_transcription(
                    texts_heard(states, requests, n)[i],
                    #[trigger] after[i],
                ) by {
                    if i < texts_before.len() {
                        assert(after[i] == before[i]);
                    }
                }
            },
            _ => {
                assert(after =~= before);
            },
        }
    }
}

proof fn zipformer_knows_the_latest<P: Platform>(
    states: Seq<Processor<P>>,
    requests: Seq<Request<P>>,
    n: int,
)
    requires
        are_served(states, requests),
        states[0].backend_kind == AsrBackendKind::Zipformer,
        0 <= n <= requests.len(),
    ensures
        match states[n].backend {
            Some(Backend::Zipformer(engine)) => match engine.stream {
                Some(stream) => stream.last_text@ == latest(news(texts_heard(states, requests, n))),
                None => texts_heard(states, requests, n).len() == 0,
            },
            _ => false,
        },
    decreases n,
{
    if n > 0 {
        processors_stay_sound(states, requests, n - 1);
        assert(is_served(states, requests, n - 1));
        zipformer_knows_the_latest(states, requests, n - 1);
        let texts_before = texts_heard(states, requests, n - 1);
        let texts = texts_heard(states, requests, n);
        if texts.len() > texts_before.len() {
            assert(texts.drop_last() =~= texts_before);
        }
    }
}

/// The reader of a Zipformer processor gets exactly the news among the texts that the
/// recognizer gave back, in their order: what was read and what still waits are
/// together all of it.
pub proof fn zipformer_hands_out_the_news<P: Platform>(
    states: Seq<Processor<P>>,
    requests: Seq<Request<P>>,
    n: int,
)
    requires
        are_served(states, requests),
        states[0].backend_kind == AsrBackendKind::Zipformer,
        0 <= n <= requests.len(),
    ensures
        (results_read(requests, n) + waiting(states[n])).len() == news(
            texts_heard(states, requests, n),
        ).len(),
        forall|i: int|
            0 <= i < news(texts_heard(states, requests, n)).len() ==> {
                &&& (#[trigger] (results_read(requests, n) + waiting(states[n]))[i]) is Ok
                &&& (results_read(requests, n) + waiting(states[n]))[i]->Ok_0@ == news(
                    texts_heard(states, requests, n),
                )[i]
            },
    decreases n,
{
    if n > 0 {
        processors_stay_sound(states, requests, n - 1);
        assert(is_served(states, requests, n - 1));
        zipformer_knows_the_latest(states, requests, n - 1);
        zipformer_hands_out_the_news(states, requests, n - 1);
        let texts_before = texts_heard(states, requests, n - 1);
        let texts = texts_heard(states, requests, n);
        let before = results_read(requests, n - 1) + waiting(states[n - 1]);
        let after = results_read(requests, n) + waiting(states[n]);
        match requests[n - 1] {
            Request::Report { text, woken } if outbox_of(states[n - 1]) is Some => {
                assert(texts.drop_last() =~= texts_before);
                if waiting(states[n]).len() > waiting(states[n - 1]).len() {
                    assert(after =~= before.push(waiting(states[n]).last()));
                } else {
                    assert(after =~= before);
                }
                assert forall|i: int| 0 <= i < news(texts).len() implies {
                    &&& (#[trigger] after[i]) is Ok
                    &&& after[i]->Ok_0@ == news(texts)[i]
                } by {
                    if i < news(texts_before).len() {
                        assert(after[i] == before[i]);
                    }
                }
            },
            _ => {
                assert(after =~= before);
            },
        }
    }
}

/// The recording that a Whisper processor has by now, and the mixes that it is made of.
spec fn is_recorded<P: Platform>(
    processor: Processor<P>,
    frames: Seq<AudioFrame<P::Sample>>,
    mixes: Seq<Seq<P::Sample>>,
) -> bool {
    &&& are_mixes::<P>(frames, mixes)
    &&& match processor.backend {
        Some(Backend::Whisper(engine)) => match engine.stream {
            Some(stream) => !stream.outbox.closed ==> stream.samples@ == mixes.flatten(),
            None => frames.len() == 0,
        },
        _ => false,
    }
}

/// `mixes` are the mixes of the frames into one channel.
pub open spec fn are_mixes<P: Platform>(
    frames: Seq<AudioFrame<P::Sample>>,
    mixes: Seq<Seq<P::Sample>>,
) -> bool {
    &&& mixes.len() == frames.len()
    &&& forall|i: int|
        0 <= i < frames.len() ==> is_mono_mix::<P>(
            frames[i].samples@,
            frames[i].channels,
            #[trigger] mixes[i],
        )
}

proof fn recorded_so_far<P: Platform>(
    states: Seq<Processor<P>>,
    requests: Seq<Request<P>>,
    n: int,
) -> (mixes: Seq<Seq<P::Sample>>)
    requires
        are_served(states, requests),
        states[0].backend_kind == AsrBackendKind::Whisper,
        0 <= n <= requests.len(),
    ensures
        is_recorded(states[n], frames_accepted(requests, n), mixes),
    decreases n,
{
    if n == 0 {
        Seq::empty()
    } else {
        processors_stay_sound(states, requests, n - 1);
        assert(is_served(states, requests, n - 1));
        let earlier = recorded_so_far(states, requests, n - 1);
        if frames_accepted(requests, n - 1).len() == 0 {
            assert(earlier =~= Seq::empty());
            assert(earlier.flatten() =~= Seq::empty());
        }
        let engine = states[n - 1].backend->0->Whisper_0;
        match requests[n - 1] {
            Request::Send { item, outcome: Ok(Step::Done(_)) } => {
                let stream = choose|stream: WhisperStream<P>| #[trigger]
                    engine.goes_on_with(stream) && stream.takes(
                        item,
                        states[n].backend->0->Whisper_0.stream->0,
                        Ok(()),
                    );
                let after = states[n].backend->0->Whisper_0.stream->0;
                let mix = choose|mono: Seq<P::Sample>| #[trigger]
                    is_mono_mix::<P>(item.samples@, item.channels, mono) && after.samples@
                        == stream.samples@ + mono;
                earlier.lemma_flatten_push(mix);
                assert(stream.samples@ =~= earlier.flatten());
                earlier.push(mix)
            },
            _ => earlier,
        }
    }
}

proof fn first_frame_sets_the_rate<P: Platform>(
    states: Seq<Processor<P>>,
    requests: Seq<Request<P>>,
    n: int,
)
    requires
        are_served(states, requests),
        states[0].backend_kind == AsrBackendKind::Whisper,
        0 <= n <= requests.len(),
    ensures
        match states[n].backend {
            Some(Backend::Whisper(engine)) => match engine.stream {
                Some(stream) => !stream.outbox.closed ==> if frames_offered(requests, n).len()
                    == 0 {
                    stream.sample_rate is None && stream.channels is None
                } else {
                    &&& stream.sample_rate == Some(frames_offered(requests, n)[0].sample_rate)
                    &&& stream.channels == Some(frames_offered(requests, n)[0].channels)
                },
                None => frames_offered(requests, n).len() == 0,
            },
            _ => false,
        },
    decreases n,
{
    if n > 0 {
        processors_stay_sound(states, requests, n - 1);
        assert(is_served(states, requests, n - 1));
        first_frame_sets_the_rate(states, requests, n - 1);
    }
}

/// A Whisper processor has the whole recording recognized, by the recognizer that it
/// was loaded with: the mixes of all frames that were accepted, one after the other,
/// and nothing else. The rate is that of the first frame that was offered, accepted or
/// not, or 16 kHz where none was.
pub proof fn whisper_recognizes_all_that_was_sent<P: Platform>(
    states: Seq<Processor<P>>,
    requests: Seq<Request<P>>,
    n: int,
    job: OfflineJob<P>,
) -> (mixes: Seq<Seq<P::Sample>>)
    requires
        are_served(states, requests),
        0 <= n < requests.len(),
        requests[n] == (Request::Close { work: Ok(Step::Done(Closing::Recognize(job))) }),
    ensures
        are_mixes::<P>(frames_accepted(requests, n), mixes),
        job.wave.samples@ == mixes.flatten(),
        job.wave.sample_rate == signed_rate(
            if frames_offered(requests, n).len() == 0 {
                DEFAULT_SAMPLE_RATE
            } else {
                frames_offered(requests, n)[0].sample_rate
            },
        ),
        states[0].backend matches Some(Backend::Whisper(engine)) && engine.recognizer == Some(
            job.recognizer,
        ),
{
    processors_stay_sound(states, requests, n);
    assert(is_served(states, requests, n));
    first_frame_sets_the_rate(states, requests, n);
    let mixes = recorded_so_far(states, requests, n);
    if frames_accepted(requests, n).len() == 0 {
        assert(mixes =~= Seq::empty());
        assert(mixes.flatten() =~= Seq::empty());
    }
    assert(job.wave.samples@ =~= mixes.flatten());
    mixes
}

proof fn closed_processors_stay_closed<P: Platform>(
    states: Seq<Processor<P>>,
    requests: Seq<Request<P>>,
    i: int,
    j: int,
)
    requires
        are_served(states, requests),
        0 <= i < j <= requests.len(),
        requests[i] matches Request::Close { work: Ok(Step::Done(_)) },
    ensures
        outbox_of(states[j]) matches Some(outbox) && outbox.closed,
    decreases j,
{
    processors_stay_sound(states, requests, j - 1);
    assert(is_served(states, requests, j - 1));
    if i < j - 1 {
        closed_processors_stay_closed(states, requests, i, j - 1);
    }
}

/// A processor that was closed takes nothing more in and asks for nothing more to be
/// recognized, and its reader never waits in vain: it gets a result, or the end.
pub proof fn closed_processors_only_hand_out<P: Platform>(
    states: Seq<Processor<P>>,
    requests: Seq<Request<P>>,
    i: int,
    j: int,
)
    requires
        are_served(states, requests),
        0 <= i < j < requests.len(),
        requests[i] matches Request::Close { work: Ok(Step::Done(_)) },
    ensures
        match requests[j] {
            Request::Send { outcome, .. } => outcome is Err,
            Request::Close { work } => work == Ok::<Step<P, Closing<P>>, AsrError>(
                Step::Done(Closing::Nothing),
            ),
            Request::Read { answer, .. } => answer matches Step::Done(Poll::Ready(_)),
            _ => true,
        },
{
    closed_processors_stay_closed(states, requests, i, j);
    processors_stay_sound(states, requests, j);
    assert(is_served(states, requests, j));
}

/// The end comes last: when a reader finds it, the processor was closed and nothing
/// waits any more.
pub proof fn the_end_comes_last<P: Platform>(
    states: Seq<Processor<P>>,
    requests: Seq<Request<P>>,
    n: int,
)
    requires
        are_served(states, requests),
        0 <= n < requests.len(),
        requests[n] matches Request::Read { answer: Step::Done(Poll::Ready(None)), .. },
    ensures
        outbox_of(states[n]) matches Some(outbox) && outbox.closed,
        waiting(states[n]).len() == 0,
{
    processors_stay_sound(states, requests, n);
    assert(is_served(states, requests, n));
}

/// One of the first `n` requests closed the processor.
pub open spec fn was_closed<P: Platform>(requests: Seq<Request<P>>, n: int) -> bool
    decreases n,
{
    n > 0 && (was_closed(requests, n - 1) || (requests[n - 1] matches Request::Close {
        work: Ok(Step::Done(_)),
    }))
}

proof fn closed_is_closed<P: Platform>(
    states: Seq<Processor<P>>,
    requests: Seq<Request<P>>,
    n: int,
)
    requires
        are_served(states, requests),
        0 <= n <= requests.len(),
    ensures
        was_closed(requests, n) <==> outbox_of(states[n]) is Some && outbox_of(states[n])->0.closed,
    decreases n,
{
    if n > 0 {
        processors_stay_sound(states, requests, n - 1);
        assert(is_served(states, requests, n - 1));
        closed_is_closed(states, requests, n - 1);
    }
}

/// Until it is closed, a Whisper processor takes every frame that fits, however much it
/// was sent before: one with whole moments, in the form of the first frame that was
/// offered, or as the first one in any form.
pub proof fn whisper_takes_fitting_frames<P: Platform>(
    states: Seq<Processor<P>>,
    requests: Seq<Request<P>>,
    n: int,
    item: AudioFrame<P::Sample>,
    outcome: Result<Step<P, Sent<P>>, AsrError>,
)
    requires
        are_served(states, requests),
        states[0].backend_kind == AsrBackendKind::Whisper,
        0 <= n < requests.len(),
        requests[n] == (Request::Send { item, outcome }),
        !was_closed(requests, n),
        item.channels > 0,
        item.samples@.len() % (item.channels as nat) == 0,
        frames_offered(requests, n).len() > 0 ==> {
            &&& item.channels == frames_offered(requests, n)[0].channels
            &&& item.sample_rate == frames_offered(requests, n)[0].sample_rate
        },
    ensures
        outcome == Ok::<Step<P, Sent<P>>, AsrError>(Step::Done(Sent::Collected)),
{
    processors_stay_sound(states, requests, n);
    assert(is_served(states, requests, n));
    closed_is_closed(states, requests, n);
    first_frame_sets_the_rate(states, requests, n);
}

/// Until it is closed, a Zipformer processor feeds every frame that fits to its
/// recognizer, and feeds it whole, at its rate; only before its stream is open does it
/// ask for one, of the recognizer that it was loaded with.
pub proof fn zipformer_feeds_fitting_frames<P: Platform>(
    states: Seq<Processor<P>>,
    requests: Seq<Request<P>>,
    n: int,
    item: AudioFrame<P::Sample>,
    outcome: Result<Step<P, Sent<P>>, AsrError>,
)
    requires
        are_served(states, requests),
        0 <= n < requests.len(),
        requests[n] == (Request::Send { item, outcome }),
        !was_closed(requests, n),
        item.channels > 0,
        item.samples@.len() % (item.channels as nat) == 0,
    ensures
        states[0].backend matches Some(Backend::Zipformer(engine)) ==> {
            ||| outbox_of(states[n]) is None && outcome == Ok::<Step<P, Sent<P>>, AsrError>(
                Step::Open(engine.recognizer->0),
            )
            ||| {
                &&& outbox_of(states[n]) is Some
                &&& outcome matches Ok(Step::Done(Sent::Feed(wave)))
                &&& wave.samples@.len() == item.samples@.len() / (item.channels as nat)
                &&& item.channels == 1 ==> wave.samples@ == item.samples@
                &&& is_mono_mix::<P>(item.samples@, item.channels, wave.samples@)
                &&& wave.sample_rate == signed_rate(item.sample_rate)
            }
        },
{
    processors_stay_sound(states, requests, n);
    assert(is_served(states, requests, n));
    closed_is_closed(states, requests, n);
    match (states[n].backend, outcome) {
        (Some(Backend::Zipformer(_)), Ok(Step::Done(Sent::Feed(wave)))) => {
            mono_mix_length::<P>(item.samples@, item.channels, wave.samples@);
        },
        _ => {},
    }
}

/// The audio that was fed to the recognizer, among the first `n` requests.
pub open spec fn waves_fed<P: Platform>(requests: Seq<Request<P>>, n: int) -> Seq<Seq<P::Sample>>
    decreases n,
{
    if n <= 0 {
        Seq::empty()
    } else {
        let earlier = waves_fed(requests, n - 1);
        match requests[n - 1] {
            Request::Send { outcome: Ok(Step::Done(Sent::Feed(wave))), .. } => earlier.push(
                wave.samples@,
            ),
            _ => earlier,
        }
    }
}

/// What a Zipformer processor feeds to its recognizer are the mixes of all frames that
/// were accepted, each of them whole, in their order, and nothing else.
pub proof fn zipformer_feeds_all_that_was_accepted<P: Platform>(
    states: Seq<Processor<P>>,
    requests: Seq<Request<P>>,
    n: int,
)
    requires
        are_served(states, requests),
        states[0].backend_kind == AsrBackendKind::Zipformer,
        0 <= n <= requests.len(),
    ensures
        are_mixes::<P>(frames_accepted(requests, n), waves_fed(requests, n)),
        forall|i: int|
            0 <= i < frames_accepted(requests, n).len() ==> {
                &&& (#[trigger] frames_accepted(requests, n)[i]).channels > 0
                &&& waves_fed(requests, n)[i].len() * frames_accepted(requests, n)[i].channels
                    == frames_accepted(requests, n)[i].samples@.len()
                &&& frames_accepted(requests, n)[i].channels == 1 ==> waves_fed(requests, n)[i]
                    == frames_accepted(requests, n)[i].samples@
            },
    decreases n,
{
    if n > 0 {
        processors_stay_sound(states, requests, n - 1);
        assert(is_served(states, requests, n - 1));
        zipformer_feeds_all_that_was_accepted(states, requests, n - 1);
        let earlier = frames_accepted(requests, n - 1);
        let frames = frames_accepted(requests, n);
        let waves = waves_fed(requests, n);
        assert forall|i: int| 0 <= i < frames.len() implies {
            &&& (#[trigger] frames[i]).channels > 0
            &&& waves[i].len() * frames[i].channels == frames[i].samples@.len()
            &&& frames[i].channels == 1 ==> waves[i] == frames[i].samples@
            &&& is_mono_mix::<P>(frames[i].samples@, frames[i].channels, waves[i])
        } by {
            if i < earlier.len() {
                assert(frames[i] == earlier[i]);
                assert(waves[i] == waves_fed(requests, n - 1)[i]);
            }
        }
        assert forall|i: int| 0 <= i < frames.len() implies is_mono_mix::<P>(
            frames[i].samples@,
            frames[i].channels,
            #[trigger] waves[i],
        ) by {
            assert(frames[i].channels > 0);
        }
    }
}

/// The first close calls for the rest of the work: of a Whisper processor that the
/// recording be recognized, of a Zipformer processor that the input be ended, once its
/// stream is open.
pub proof fn the_first_close_calls_for_work<P: Platform>(
    states: Seq<Processor<P>>,
    requests: Seq<Request<P>>,
    n: int,
    work: Result<Step<P, Closing<P>>, AsrError>,
)
    requires
        are_served(states, requests),
        0 <= n < requests.len(),
        requests[n] == (Request::Close { work }),
        !was_closed(requests, n),
    ensures
        states[0].backend_kind == AsrBackendKind::Whisper ==> (work matches Ok(
            Step::Done(Closing::Recognize(_)),
        )),
        states[0].backend_kind == AsrBackendKind::Zipformer && outbox_of(states[n]) is Some
            ==> work == Ok::<Step<P, Closing<P>>, AsrError>(Step::Done(Closing::FinishInput)),
        states[0].backend_kind == AsrBackendKind::Zipformer && outbox_of(states[n]) is None
            ==> (work matches Ok(Step::Open(_))),
{
    processors_stay_sound(states, requests, n);
    assert(is_served(states, requests, n));
    closed_is_closed(states, requests, n);
}

/// The reader of a Whisper processor gets the next outcome that it has not read yet.
/// Without one it waits until the processor is closed, and then finds the end.
pub proof fn whisper_readers_get_the_next<P: Platform>(
    states: Seq<Processor<P>>,
    requests: Seq<Request<P>>,
    n: int,
    waker: P::Waker,
    answer: Step<P, NextResult>,
)
    requires
        are_served(states, requests),
        states[0].backend_kind == AsrBackendKind::Whisper,
        0 <= n < requests.len(),
        requests[n] == (Request::Read { waker, answer }),
    ensures
        results_read(requests, n).len() <= texts_heard(states, requests, n).len(),
        results_read(requests, n).len() < texts_heard(states, requests, n).len() ==> {
            &&& answer matches Step::Done(Poll::Ready(Some(result)))
            &&& is_transcription(
                texts_heard(states, requests, n)[results_read(requests, n).len() as int],
                result,
            )
        },
        results_read(requests, n).len() == texts_heard(states, requests, n).len() ==> answer
            == Step::<P, NextResult>::Done(
            if was_closed(requests, n) {
                Poll::Ready(None)
            } else {
                Poll::Pending
            },
        ),
{
    processors_stay_sound(states, requests, n);
    assert(is_served(states, requests, n));
    closed_is_closed(states, requests, n);
    whisper_hands_out_what_was_recognized(states, requests, n);
    let read = results_read(requests, n);
    if read.len() < texts_heard(states, requests, n).len() {
        assert((read + waiting(states[n]))[read.len() as int] == waiting(states[n])[0]);
    }
}

/// The reader of a Zipformer processor gets the next piece of news that it has not read
/// yet. Without one it waits until the processor is closed, and then finds the end.
pub proof fn zipformer_readers_get_the_next<P: Platform>(
    states: Seq<Processor<P>>,
    requests: Seq<Request<P>>,
    n: int,
    waker: P::Waker,
    answer: Step<P, NextResult>,
)
    requires
        are_served(states, requests),
        states[0].backend_kind == AsrBackendKind::Zipformer,
        0 <= n < requests.len(),
        requests[n] == (Request::Read { waker, answer }),
        outbox_of(states[n]) is Some,
    ensures
        results_read(requests, n).len() <= news(texts_heard(states, requests, n)).len(),
        results_read(requests, n).len() < news(texts_heard(states, requests, n)).len() ==> {
            &&& answer matches Step::Done(Poll::Ready(Some(Ok(text))))
            &&& text@ == news(texts_heard(states, requests, n))[results_read(
                requests,
                n,
            ).len() as int]
        },
        results_read(requests, n).len() == news(texts_heard(states, requests, n)).len()
            ==> answer == Step::<P, NextResult>::Done(
            if was_closed(requests, n) {
                Poll::Ready(None)
            } else {
                Poll::Pending
            },
        ),
{
    processors_stay_sound(states, requests, n);
    assert(is_served(states, requests, n));
    closed_is_closed(states, requests, n);
    zipformer_hands_out_the_news(states, requests, n);
    let read = results_read(requests, n);
    if read.len() < news(texts_heard(states, requests, n)).len() {
        assert((read + waiting(states[n]))[read.len() as int] == waiting(states[n])[0]);
    }
}

proof fn readers_go_on_waiting<P: Platform>(
    states: Seq<Processor<P>>,
    requests: Seq<Request<P>>,
    i: int,
    j: int,
    waker: P::Waker,
)
    requires
        are_served(states, requests),
        0 <= i < j <= requests.len(),
        requests[i] == (Request::Read { waker, answer: Step::<P, NextResult>::Done(Poll::Pending) }),
        forall|k: int|
            i < k < j ==> !((#[trigger] requests[k]) is Read) && (requests[k] matches Request::Report {
                woken,
                ..
            } ==> woken is None),
    ensures
        outbox_of(states[j]) matches Some(outbox) && outbox.waker == Some(waker),
    decreases j,
{
    processors_stay_sound(states, requests, j - 1);
    assert(is_served(states, requests, j - 1));
    if i < j - 1 {
        readers_go_on_waiting(states, requests, i, j - 1, waker);
        assert(!(requests[j - 1] is Read));
    }
}

/// A reader that was told to wait is woken by the next result, whatever is sent, asked
/// or closed in between.
pub proof fn waiting_readers_are_woken<P: Platform>(
    states: Seq<Processor<P>>,
    requests: Seq<Request<P>>,
    i: int,
    j: int,
    waker: P::Waker,
    text: Option<String>,
    woken: Option<P::Waker>,
)
    requires
        are_served(states, requests),
        0 <= i < j < requests.len(),
        requests[i] == (Request::Read { waker, answer: Step::<P, NextResult>::Done(Poll::Pending) }),
        forall|k: int|
            i < k < j ==> !((#[trigger] requests[k]) is Read) && (requests[k] matches Request::Report {
                woken,
                ..
            } ==> woken is None),
        requests[j] == (Request::<P>::Report { text, woken }),
    ensures
        woken is Some ==> woken == Some(waker),
        waiting(states[j + 1]).len() > waiting(states[j]).len() ==> woken == Some(waker),
        states[0].backend_kind == AsrBackendKind::Whisper ==> woken == Some(waker),
{
    readers_go_on_waiting(states, requests, i, j, waker);
    processors_stay_sound(states, requests, j);
    assert(is_served(states, requests, j));
}

/// All that is read and waits came from the recognizer: what was told before a stream
/// was begun counts for nothing, and neither frames nor closing make a result.
pub proof fn only_reports_make_results<P: Platform>(
    states: Seq<Processor<P>>,
    requests: Seq<Request<P>>,
    n: int,
)
    requires
        are_served(states, requests),
        0 <= n < requests.len(),
        !(requests[n] is Report),
    ensures
        waiting(states[n + 1]).len() <= waiting(states[n]).len(),
        !(requests[n] is Read) ==> waiting(states[n + 1]) == waiting(states[n]),
{
    processors_stay_sound(states, requests, n);
    assert(is_served(states, requests, n));
    assert(!(requests[n] is Read) ==> waiting(states[n + 1]) =~= waiting(states[n]));
}

} // verus!
