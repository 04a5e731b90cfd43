//! What the two backends have in common: how they are asked, and what they ask for.

use std::sync::Arc;

use vstd::prelude::*;

use crate::audio::{AudioFrame, Platform, Waveform};
use crate::error::{AsrError, ErrorView};
use crate::outbox::NextResult;

verus! {

/// A recording, and the recognizer that it is to be run through.
pub struct OfflineJob<P: Platform> {
    pub recognizer: Arc<P::Offline>,
    pub wave: Waveform<P::Sample>,
}

/// Speech to be recognized on a stream of its own: the waveform is all of it.
pub struct OnlineJob<P: Platform> {
    pub recognizer: Arc<P::Online>,
    pub wave: Waveform<P::Sample>,
}

/// A single frame on its way to a recognizer of either kind.
pub enum OneShot<P: Platform> {
    Offline(OfflineJob<P>),
    Online(OnlineJob<P>),
}

/// A request that went through, or what it waits for: a stream of the recognizer,
/// which is to be opened and handed in before the request is made again.
pub enum Step<P: Platform, T> {
    Open(Arc<P::Online>),
    Done(T),
}

/// What is to be done with a frame that was taken in.
pub enum Sent<P: Platform> {
    /// Nothing: it was added to the recording.
    Collected,
    /// It is to be fed to the recognizer's stream, decoded, and reported.
    Feed(Waveform<P::Sample>),
}

/// What is to be done with a backend that was closed.
pub enum Closing<P: Platform> {
    /// Nothing: it was closed before.
    Nothing,
    /// The recording is to be recognized, and the answer reported.
    Recognize(OfflineJob<P>),
    /// The input of the recognizer's stream is to be ended, what it still holds
    /// decoded, and the text reported.
    FinishInput,
}

/// What a recognizer has to say about the audio it was given.
pub open spec fn is_transcription(
    text: Option<String>,
    outcome: Result<String, AsrError>,
) -> bool {
    match text {
        Some(text) => outcome == Ok::<String, AsrError>(text),
        None => outcome is Err && outcome->Err_0@ == ErrorView::Transcription(
            "no recognition result"@,
        ),
    }
}

/// The outcome of a transcription, from what the recognizer gave back.
pub fn transcription(text: Option<String>) -> (outcome: Result<String, AsrError>)
    ensures
        is_transcription(text, outcome),
{
    match text {
        Some(text) => Ok(text),
        None => Err(AsrError::Transcription("no recognition result".to_owned())),
    }
}

/// A streaming backend. It is sent audio and read for text, and it runs no recognizer
/// itself: it says what is to be run, and is told what came of it.
pub trait AsrBackend<P: Platform>: Sized {
    /// What the backend is loaded with.
    type Recognizer;

    spec fn wf(self) -> bool;

    /// The backend has its recognizer.
    spec fn is_loaded(self) -> bool;

    /// Loading turns `self` into `after` and has the given outcome.
    spec fn loads(
        self,
        recognizer: Option<Self::Recognizer>,
        after: Self,
        outcome: Result<(), AsrError>,
    ) -> bool;

    /// `job` is what becomes of a single frame that is to be transcribed.
    spec fn processes(
        self,
        audio: AudioFrame<P::Sample>,
        job: Result<OneShot<P>, AsrError>,
    ) -> bool;

    /// Asking whether the backend can be sent to, or flushing it, gets `answer` and
    /// leaves `after` behind.
    spec fn attends(self, after: Self, answer: Result<Step<P, ()>, AsrError>) -> bool;

    /// Sending `item` turns `self` into `after` and has the given outcome.
    spec fn sends(
        self,
        item: AudioFrame<P::Sample>,
        after: Self,
        outcome: Result<Step<P, Sent<P>>, AsrError>,
    ) -> bool;

    /// Closing turns `self` into `after` and asks for `work`.
    spec fn ends(self, after: Self, work: Result<Step<P, Closing<P>>, AsrError>) -> bool;

    /// Reporting what the recognizer gave back turns `self` into `after` and wakes
    /// `woken`.
    spec fn reports(self, text: Option<String>, after: Self, woken: Option<P::Waker>) -> bool;

    /// A reader gets `answer` from `self` and leaves `after` behind.
    spec fn hands_out(self, waker: P::Waker, after: Self, answer: Step<P, NextResult>) -> bool;

    /// Takes over the recognizer that was set up, if it could be. What is under way
    /// keeps the recognizer it began with.
    fn init(&mut self, recognizer: Option<Self::Recognizer>) -> (outcome: Result<(), AsrError>)
        requires
            old(self).wf(),
        ensures
            final(self).wf(),
            old(self).loads(recognizer, *final(self), outcome),
    ;

    /// Transcription of a single frame: what the recognizer is to be run on. Its answer
    /// is read by [`transcription`].
    fn process(&mut self, audio: AudioFrame<P::Sample>) -> (job: Result<OneShot<P>, AsrError>)
        requires
            old(self).wf(),
        ensures
            *final(self) == *old(self),
            old(self).processes(audio, job),
    ;

    /// Whether the backend can be sent to. A loaded one always can.
    fn poll_ready(&mut self) -> (answer: Result<Step<P, ()>, AsrError>)
        requires
            old(self).wf(),
        ensures
            final(self).wf(),
            old(self).attends(*final(self), answer),
    ;

    /// Takes a frame in.
    fn start_send(&mut self, item: &AudioFrame<P::Sample>) -> (outcome: Result<
        Step<P, Sent<P>>,
        AsrError,
    >)
        requires
            old(self).wf(),
        ensures
            final(self).wf(),
            old(self).sends(*item, *final(self), outcome),
    ;

    /// Flushes what was sent. There is never anything left to flush.
    fn poll_flush(&mut self) -> (answer: Result<Step<P, ()>, AsrError>)
        requires
            old(self).wf(),
        ensures
            final(self).wf(),
            old(self).attends(*final(self), answer),
    ;

    /// Ends the audio.
    fn poll_close(&mut self) -> (work: Result<Step<P, Closing<P>>, AsrError>)
        requires
            old(self).wf(),
        ensures
            final(self).wf(),
            old(self).ends(*final(self), work),
    ;

    /// Takes in what the recognizer gave back. Hands back the waker of the reader that
    /// waits for it.
    fn report(&mut self, text: Option<String>) -> (woken: Option<P::Waker>)
        requires
            old(self).wf(),
        ensures
            final(self).wf(),
            old(self).reports(text, *final(self), woken),
    ;

    /// The next result, or the end.
    fn poll_next(&mut self, waker: P::Waker) -> (answer: Step<P, NextResult>)
        requires
            old(self).wf(),
        ensures
            final(self).wf(),
            old(self).hands_out(waker, *final(self), answer),
    ;
}

} // verus!
