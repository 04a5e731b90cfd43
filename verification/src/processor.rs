//! The processor: one backend, chosen, loaded and then used.

use std::sync::Arc;

use vstd::prelude::*;

use crate::audio::{AudioFrame, Platform};
use crate::backend::{AsrBackend, Closing, OneShot, Sent, Step};
use crate::backend_kind::{backend_name, AsrBackendKind};
use crate::error::{invalid_input, AsrError, ErrorView};
use crate::outbox::{NextResult, Poll};
use crate::text::join;
use crate::whisper::WhisperEngine;
use crate::zipformer::ZipformerEngine;

verus! {

/// The backends that the program was built with.
#[derive(Clone, Copy, Debug, PartialEq, Eq, Structural)]
pub struct EnabledBackends {
    pub whisper: bool,
    pub zipformer: bool,
}

impl EnabledBackends {
    /// The program was built with the backend.
    pub open spec fn has(self, kind: AsrBackendKind) -> bool {
        match kind {
            AsrBackendKind::Whisper => self.whisper,
            AsrBackendKind::Zipformer => self.zipformer,
        }
    }
}

/// A backend of either kind.
pub enum Backend<P: Platform> {
    Whisper(WhisperEngine<P>),
    Zipformer(ZipformerEngine<P>),
}

impl<P: Platform> Backend<P> {
    pub open spec fn kind(self) -> AsrBackendKind {
        match self {
            Backend::Whisper(_) => AsrBackendKind::Whisper,
            Backend::Zipformer(_) => AsrBackendKind::Zipformer,
        }
    }

    pub open spec fn wf(self) -> bool {
        match self {
            Backend::Whisper(engine) => AsrBackend::<P>::wf(engine),
            Backend::Zipformer(engine) => AsrBackend::<P>::wf(engine),
        }
    }

    /// The backend has its recognizer.
    pub open spec fn is_loaded(self) -> bool {
        match self {
            Backend::Whisper(engine) => AsrBackend::<P>::is_loaded(engine),
            Backend::Zipformer(engine) => AsrBackend::<P>::is_loaded(engine),
        }
    }

    /// `job` is what becomes of a single frame that is to be transcribed.
    pub open spec fn processes(
        self,
        audio: AudioFrame<P::Sample>,
        job: Result<OneShot<P>, AsrError>,
    ) -> bool {
        match self {
            Backend::Whisper(engine) => engine.processes(audio, job),
            Backend::Zipformer(engine) => engine.processes(audio, job),
        }
    }

    /// Asking whether the backend can be sent to, or flushing it, gets `answer` and
    /// leaves `after` behind.
    pub open spec fn attends(self, after: Self, answer: Result<Step<P, ()>, AsrError>) -> bool {
        match (self, after) {
            (Backend::Whisper(engine), Backend::Whisper(later)) => engine.attends(later, answer),
            (Backend::Zipformer(engine), Backend::Zipformer(later)) => engine.attends(
                later,
                answer,
            ),
            _ => false,
        }
    }

    /// Sending `item` turns `self` into `after` and has the given outcome.
    pub open spec fn sends(
        self,
        item: AudioFrame<P::Sample>,
        after: Self,
        outcome: Result<Step<P, Sent<P>>, AsrError>,
    ) -> bool {
        match (self, after) {
            (Backend::Whisper(engine), Backend::Whisper(later)) => engine.sends(
                item,
                later,
                outcome,
            ),
            (Backend::Zipformer(engine), Backend::Zipformer(later)) => engine.sends(
                item,
                later,
                outcome,
            ),
            _ => false,
        }
    }

    /// Closing turns `self` into `after` and asks for `work`.
    pub open spec fn ends(
        self,
        after: Self,
        work: Result<Step<P, Closing<P>>, AsrError>,
    ) -> bool {
        match (self, after) {
            (Backend::Whisper(engine), Backend::Whisper(later)) => engine.ends(later, work),
            (Backend::Zipformer(engine), Backend::Zipformer(later)) => engine.ends(later, work),
            _ => false,
        }
    }

    /// Reporting what the recognizer gave back turns `self` into `after` and wakes
    /// `woken`.
    pub open spec fn reports(
        self,
        text: Option<String>,
        after: Self,
        woken: Option<P::Waker>,
    ) -> bool {
        match (self, after) {
            (Backend::Whisper(engine), Backend::Whisper(later)) => engine.reports(
                text,
                later,
                woken,
            ),
            (Backend::Zipformer(engine), Backend::Zipformer(later)) => engine.reports(
                text,
                later,
                woken,
            ),
            _ => false,
        }
    }

    /// A reader gets `answer` from `self` and leaves `after` behind.
    pub open spec fn hands_out(
        self,
        waker: P::Waker,
        after: Self,
        answer: Step<P, NextResult>,
    ) -> bool {
        match (self, after) {
            (Backend::Whisper(engine), Backend::Whisper(later)) => engine.hands_out(
                waker,
                later,
                answer,
            ),
            (Backend::Zipformer(engine), Backend::Zipformer(later)) => engine.hands_out(
                waker,
                later,
                answer,
            ),
            _ => false,
        }
    }

    /// The backend was just made: nothing is loaded, nothing is under way.
    pub open spec fn is_new(self) -> bool {
        match self {
            Backend::Whisper(engine) => engine.recognizer is None && engine.stream is None,
            Backend::Zipformer(engine) => engine.recognizer is None && engine.stream is None,
        }
    }
}

/// What a program without the backend answers to a request for it.
pub open spec fn feature_disabled(kind: AsrBackendKind) -> ErrorView {
    ErrorView::InvalidInput(kind.name() + " ASR backend feature is not enabled"@)
}

/// What a request for a backend that the program was built without comes to.
pub fn backend_feature_disabled<P: Platform>(name: &str) -> (backend: Result<
    Backend<P>,
    AsrError,
>)
    ensures
        backend is Err,
        backend->Err_0@ == ErrorView::InvalidInput(
            name@ + " ASR backend feature is not enabled"@,
        ),
{
    Err(AsrError::InvalidInput(join(name, " ASR backend feature is not enabled")))
}

/// A new backend of the given kind, where the program was built with it.
pub fn create_backend<P: Platform>(kind: AsrBackendKind, enabled: EnabledBackends) -> (backend:
    Result<Backend<P>, AsrError>)
    ensures
        if enabled.has(kind) {
            backend is Ok && backend->Ok_0.kind() == kind && backend->Ok_0.is_new()
        } else {
            backend is Err && backend->Err_0@ == feature_disabled(kind)
        },
{
    match kind {
        AsrBackendKind::Whisper => {
            if enabled.whisper {
                Ok(Backend::Whisper(WhisperEngine::new()))
            } else {
                backend_feature_disabled(backend_name(kind))
            }
        },
        AsrBackendKind::Zipformer => {
            if enabled.zipformer {
                Ok(Backend::Zipformer(ZipformerEngine::new()))
            } else {
                backend_feature_disabled(backend_name(kind))
            }
        },
    }
}

/// Speech-to-text processor with chainable backend configuration.
pub struct Processor<P: Platform> {
    pub backend_kind: AsrBackendKind,
    pub backend: Option<Backend<P>>,
    pub is_ready: bool,
}

impl<P: Platform> Processor<P> {
    /// The backend is of the chosen kind, and a processor that is ready has one that
    /// is loaded.
    pub open spec fn wf(self) -> bool {
        &&& self.backend matches Some(backend) ==> {
            &&& backend.wf()
            &&& backend.kind() == self.backend_kind
        }
        &&& self.is_ready ==> self.backend is Some && self.backend->0.is_loaded()
    }

    /// What a processor that is not ready answers.
    pub open spec fn not_initialized() -> ErrorView {
        ErrorView::InvalidInput("ASR backend is not initialized. Call init() first."@)
    }

    /// `after` is `self` with its backend turned into `backend`.
    pub open spec fn has_become(self, after: Self, backend: Backend<P>) -> bool {
        &&& after.backend_kind == self.backend_kind
        &&& after.is_ready == self.is_ready
        &&& after.backend == Some(backend)
    }

    /// A processor with default settings.
    pub fn new() -> (processor: Self)
        ensures
            processor.backend_kind == AsrBackendKind::Whisper,
            processor.backend is None,
            !processor.is_ready,
            processor.wf(),
    {
        Self::default()
    }

    /// Chooses the backend. Whatever was loaded is dropped.
    pub fn set_backend(self, kind: AsrBackendKind) -> (processor: Self)
        ensures
            processor.backend_kind == kind,
            processor.backend is None,
            !processor.is_ready,
            processor.wf(),
    {
        let mut processor = self;
        processor.backend_kind = kind;
        processor.backend = None;
        processor.is_ready = false;
        processor
    }

    /// Begins to load the chosen backend: hands out the one that is there, or a new
    /// one. With its recognizer it becomes a processor again, by
    /// [`Processor::init_whisper`] or [`Processor::init_zipformer`].
    pub fn init(self, enabled: EnabledBackends) -> (backend: Result<Backend<P>, AsrError>)
        requires
            self.wf(),
        ensures
            match self.backend {
                Some(present) => backend == Ok::<Backend<P>, AsrError>(present),
                None => if enabled.has(self.backend_kind) {
                    backend is Ok && backend->Ok_0.is_new()
                } else {
                    backend is Err && backend->Err_0@ == feature_disabled(self.backend_kind)
                },
            },
            backend is Ok ==> backend->Ok_0.wf() && backend->Ok_0.kind() == self.backend_kind,
    {
        match self.backend {
            Some(backend) => Ok(backend),
            None => create_backend(self.backend_kind, enabled),
        }
    }

    /// Finishes loading a Whisper backend with the recognizer that was set up, if it
    /// could be.
    pub fn init_whisper(engine: WhisperEngine<P>, recognizer: Option<P::Offline>) -> (processor:
        Result<Self, AsrError>)
        requires
            AsrBackend::<P>::wf(engine),
        ensures
            match recognizer {
                Some(recognizer) => {
                    &&& processor is Ok
                    &&& processor->Ok_0.wf()
                    &&& processor->Ok_0.is_ready
                    &&& processor->Ok_0.backend_kind == AsrBackendKind::Whisper
                    &&& processor->Ok_0.backend == Some(
                        Backend::Whisper(
                            WhisperEngine { recognizer: Some(Arc::new(recognizer)), ..engine },
                        ),
                    )
                },
                None => processor is Err && processor->Err_0@ == ErrorView::BackendLoad(
                    "failed to create Whisper recognizer"@,
                ),
            },
    {
        let mut engine = engine;
        match engine.init(recognizer) {
            Ok(_) => Ok(
                Processor {
                    backend_kind: AsrBackendKind::Whisper,
                    backend: Some(Backend::Whisper(engine)),
                    is_ready: true,
                },
            ),
            Err(error) => Err(error),
        }
    }

    /// Finishes loading a Zipformer backend with the recognizer that was set up, if it
    /// could be.
    pub fn init_zipformer(engine: ZipformerEngine<P>, recognizer: Option<P::Online>) -> (processor:
        Result<Self, AsrError>)
        ensures
            match recognizer {
                Some(recognizer) => {
                    &&& processor is Ok
                    &&& processor->Ok_0.wf()
                    &&& processor->Ok_0.is_ready
                    &&& processor->Ok_0.backend_kind == AsrBackendKind::Zipformer
                    &&& processor->Ok_0.backend == Some(
                        Backend::Zipformer(
                            ZipformerEngine { recognizer: Some(Arc::new(recognizer)), ..engine },
                        ),
                    )
                },
                None => processor is Err && processor->Err_0@ == ErrorView::BackendLoad(
                    "failed to create Zipformer recognizer"@,
                ),
            },
    {
        let mut engine = engine;
        match engine.init(recognizer) {
            Ok(_) => Ok(
                Processor {
                    backend_kind: AsrBackendKind::Zipformer,
                    backend: Some(Backend::Zipformer(engine)),
                    is_ready: true,
                },
            ),
            Err(error) => Err(error),
        }
    }

    /// Whether the chosen backend has been loaded.
    pub fn is_ready(&self) -> (ready: bool)
        ensures
            ready == self.is_ready,
    {
        self.is_ready
    }

    /// The backend of a processor that is ready.
    fn ready_backend(&mut self) -> (backend: Result<&mut Backend<P>, AsrError>)
        requires
            old(self).wf(),
        ensures
            match backend {
                Ok(backend) => {
                    &&& old(self).is_ready
                    &&& old(self).backend == Some(*backend)
                    &&& old(self).has_become(*final(self), *final(backend))
                },
                Err(error) => {
                    &&& !old(self).is_ready
                    &&& error@ == Self::not_initialized()
                    &&& *final(self) == *old(self)
                },
            },
    {
        if !self.is_ready {
            return Err(invalid_input("ASR backend is not initialized. Call init() first."));
        }
        Ok(self.backend.as_mut().unwrap())
    }

    /// Transcription of a single frame: what the recognizer is to be run on. Its answer
    /// is read by [`crate::backend::transcription`].
    pub fn process(&mut self, audio: AudioFrame<P::Sample>) -> (job: Result<OneShot<P>, AsrError>)
        requires
            old(self).wf(),
        ensures
            *final(self) == *old(self),
            if old(self).is_ready {
                old(self).backend->0.processes(audio, job)
            } else {
                job is Err && job->Err_0@ == Self::not_initialized()
            },
    {
        match self.ready_backend() {
            Ok(Backend::Whisper(engine)) => AsrBackend::process(engine, audio),
            Ok(Backend::Zipformer(engine)) => AsrBackend::process(engine, audio),
            Err(error) => Err(error),
        }
    }

    /// Asking whether the processor can be sent to, or flushing it, gets `answer` and
    /// leaves `after` behind.
    pub open spec fn attends(self, after: Self, answer: Result<Step<P, ()>, AsrError>) -> bool {
        if self.is_ready {
            &&& self.backend->0.attends(after.backend->0, answer)
            &&& self.has_become(after, after.backend->0)
        } else {
            &&& answer is Err
            &&& answer->Err_0@ == Self::not_initialized()
            &&& after == self
        }
    }

    /// Sending `item` turns `self` into `after` and has the given outcome.
    pub open spec fn sends(
        self,
        item: AudioFrame<P::Sample>,
        after: Self,
        outcome: Result<Step<P, Sent<P>>, AsrError>,
    ) -> bool {
        if self.is_ready {
            &&& self.backend->0.sends(item, after.backend->0, outcome)
            &&& self.has_become(after, after.backend->0)
        } else {
            &&& outcome is Err
            &&& outcome->Err_0@ == Self::not_initialized()
            &&& after == self
        }
    }

    /// Closing turns `self` into `after` and asks for `work`.
    pub open spec fn ends(
        self,
        after: Self,
        work: Result<Step<P, Closing<P>>, AsrError>,
    ) -> bool {
        if self.is_ready {
            &&& self.backend->0.ends(after.backend->0, work)
            &&& self.has_become(after, after.backend->0)
        } else {
            &&& work is Err
            &&& work->Err_0@ == Self::not_initialized()
            &&& after == self
        }
    }

    /// Reporting what the recognizer gave back turns `self` into `after` and wakes
    /// `woken`.
    pub open spec fn reports(
        self,
        text: Option<String>,
        after: Self,
        woken: Option<P::Waker>,
    ) -> bool {
        match self.backend {
            Some(backend) => {
                &&& backend.reports(text, after.backend->0, woken)
                &&& self.has_become(after, after.backend->0)
            },
            None => after == self && woken is None,
        }
    }

    /// A reader gets `answer` from `self` and leaves `after` behind.
    pub open spec fn hands_out(
        self,
        waker: P::Waker,
        after: Self,
        answer: Step<P, NextResult>,
    ) -> bool {
        if self.is_ready {
            &&& self.backend->0.hands_out(waker, after.backend->0, answer)
            &&& self.has_become(after, after.backend->0)
        } else {
            &&& answer matches Step::Done(Poll::Ready(Some(Err(error))))
            &&& error@ == Self::not_initialized()
            &&& after == self
        }
    }

    /// `after` is `self` with the stream `opened`, where one is to be opened.
    pub open spec fn opens(self, opened: P::OnlineStream, after: Self) -> bool {
        match (self.backend, after.backend) {
            (Some(Backend::Zipformer(engine)), Some(Backend::Zipformer(engine_after))) => {
                &&& self.has_become(after, Backend::Zipformer(engine_after))
                &&& engine.opens(opened, engine_after)
            },
            (Some(Backend::Zipformer(_)), _) => false,
            _ => after == self,
        }
    }

    /// Takes over a stream of the recognizer that a [`Step::Open`] asked for.
    pub fn open_stream(&mut self, opened: P::OnlineStream)
        requires
            old(self).wf(),
        ensures
            final(self).wf(),
            old(self).opens(opened, *final(self)),
    {
        match self.backend.as_mut() {
            Some(Backend::Zipformer(engine)) => engine.open_stream(opened),
            _ => {},
        }
    }

    /// A processor that is ready can always be sent to.
    pub fn poll_ready(&mut self) -> (answer: Result<Step<P, ()>, AsrError>)
        requires
            old(self).wf(),
        ensures
            final(self).wf(),
            old(self).attends(*final(self), answer),
    {
        match self.ready_backend() {
            Ok(Backend::Whisper(engine)) => engine.poll_ready(),
            Ok(Backend::Zipformer(engine)) => engine.poll_ready(),
            Err(error) => Err(error),
        }
    }

    /// Takes a frame in.
    pub fn start_send(&mut self, item: &AudioFrame<P::Sample>) -> (outcome: Result<
        Step<P, Sent<P>>,
        AsrError,
    >)
        requires
            old(self).wf(),
        ensures
            final(self).wf(),
            old(self).sends(*item, *final(self), outcome),
    {
        match self.ready_backend() {
            Ok(Backend::Whisper(engine)) => engine.start_send(item),
            Ok(Backend::Zipformer(engine)) => engine.start_send(item),
            Err(error) => Err(error),
        }
    }

    /// There is never anything to flush.
    pub fn poll_flush(&mut self) -> (answer: Result<Step<P, ()>, AsrError>)
        requires
            old(self).wf(),
        ensures
            final(self).wf(),
            old(self).attends(*final(self), answer),
    {
        match self.ready_backend() {
            Ok(Backend::Whisper(engine)) => engine.poll_flush(),
            Ok(Backend::Zipformer(engine)) => engine.poll_flush(),
            Err(error) => Err(error),
        }
    }

    /// Ends the audio.
    pub fn poll_close(&mut self) -> (work: Result<Step<P, Closing<P>>, AsrError>)
        requires
            old(self).wf(),
        ensures
            final(self).wf(),
            old(self).ends(*final(self), work),
    {
        match self.ready_backend() {
            Ok(Backend::Whisper(engine)) => engine.poll_close(),
            Ok(Backend::Zipformer(engine)) => engine.poll_close(),
            Err(error) => Err(error),
        }
    }

    /// Takes in what the recognizer gave back. Hands back the waker of the reader that
    /// waits for it.
    pub fn report(&mut self, text: Option<String>) -> (woken: Option<P::Waker>)
        requires
            old(self).wf(),
        ensures
            final(self).wf(),
            old(self).reports(text, *final(self), woken),
    {
        match self.backend.as_mut() {
            Some(Backend::Whisper(engine)) => engine.report(text),
            Some(Backend::Zipformer(engine)) => engine.report(text),
            None => None,
        }
    }

    /// The next result, or the end.
    pub fn poll_next(&mut self, waker: P::Waker) -> (answer: Step<P, NextResult>)
        requires
            old(self).wf(),
        ensures
            final(self).wf(),
            old(self).hands_out(waker, *final(self), answer),
    {
        match self.ready_backend() {
            Ok(Backend::Whisper(engine)) => engine.poll_next(waker),
            Ok(Backend::Zipformer(engine)) => engine.poll_next(waker),
            Err(error) => Step::Done(Poll::Ready(Some(Err(error)))),
        }
    }
}

impl<P: Platform> Default for Processor<P> {
    fn default() -> (processor: Self)
        ensures
            processor.backend_kind == AsrBackendKind::Whisper,
            processor.backend is None,
            !processor.is_ready,
    {
        Processor { backend_kind: AsrBackendKind::default(), backend: None, is_ready: false }
    }
}

} // verus!
