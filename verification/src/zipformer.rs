//! The Zipformer backend: audio is recognized while it comes in, and every new
//! state of the text is reported.

use std::sync::Arc;

use vstd::prelude::*;
use vstd::string::*;

use crate::audio::{is_mono_mix, mono_defect, signed_rate, waveform};
use crate::audio::{AudioFrame, Platform, Waveform};
use crate::backend::{AsrBackend, Closing, OneShot, OnlineJob, Sent, Step};
use crate::error::{invalid_input, AsrError, ErrorView};
use crate::model::{locate, location, FileLocation, ModelDir, NamePattern};
use crate::model::{
    DECODER_FILE, ENCODER_FILE, JOINER_FILE, NUM_THREADS, PROVIDER, TOKENS_FILE,
};
use crate::outbox::{NextResult, Outbox, Poll};
use crate::text::{join, same};

verus! {

/// What is to be done next, on the way from new audio to new text.
#[derive(Clone, Copy, Debug, PartialEq, Eq, Structural)]
pub enum DecodeStep {
    /// Ask the recognizer whether it can decode more of the audio.
    CheckReady,
    /// Have the recognizer decode a stretch of it.
    Decode,
    /// Get the text that the recognizer has by now.
    FetchResult,
    /// Nothing.
    Finished,
}

/// What came of a [`DecodeStep`].
#[derive(Clone, Copy, Debug, PartialEq, Eq, Structural)]
pub enum DecodeEvent {
    Ready(bool),
    Decoded,
    Fetched,
}

impl DecodeStep {
    /// The step behind `self`. An event that does not answer the step is passed over.
    pub open spec fn follow(self, event: DecodeEvent) -> DecodeStep {
        match (self, event) {
            (DecodeStep::CheckReady, DecodeEvent::Ready(true)) => DecodeStep::Decode,
            (DecodeStep::CheckReady, DecodeEvent::Ready(false)) => DecodeStep::FetchResult,
            (DecodeStep::Decode, DecodeEvent::Decoded) => DecodeStep::CheckReady,
            (DecodeStep::FetchResult, DecodeEvent::Fetched) => DecodeStep::Finished,
            _ => self,
        }
    }

    /// The event tells what came of the step.
    pub open spec fn is_answered_by(self, event: DecodeEvent) -> bool {
        match self {
            DecodeStep::CheckReady => event is Ready,
            DecodeStep::Decode => event is Decoded,
            DecodeStep::FetchResult => event is Fetched,
            DecodeStep::Finished => false,
        }
    }

    /// The first step.
    pub fn first() -> (step: DecodeStep)
        ensures
            step == DecodeStep::CheckReady,
    {
        DecodeStep::CheckReady
    }

    /// The next step: the audio is decoded for as long as the recognizer is ready,
    /// and then the text is fetched, once.
    pub fn next(self, event: DecodeEvent) -> (step: DecodeStep)
        ensures
            step == self.follow(event),
    {
        match (self, event) {
            (DecodeStep::CheckReady, DecodeEvent::Ready(true)) => DecodeStep::Decode,
            (DecodeStep::CheckReady, DecodeEvent::Ready(false)) => DecodeStep::FetchResult,
            (DecodeStep::Decode, DecodeEvent::Decoded) => DecodeStep::CheckReady,
            (DecodeStep::FetchResult, DecodeEvent::Fetched) => DecodeStep::Finished,
            _ => self,
        }
    }
}

/// Speech that is being recognized.
pub struct ZipformerStream<P: Platform> {
    pub recognizer: Arc<P::Online>,
    pub stream: P::OnlineStream,
    pub last_text: String,
    pub outbox: Outbox<P::Waker>,
}

impl<P: Platform> ZipformerStream<P> {
    /// No text was reported yet, and nothing waits to be read.
    pub open spec fn is_fresh(self) -> bool {
        &&& self.last_text@ == Seq::<char>::empty()
        &&& self.outbox.pending@ == Seq::<Result<String, AsrError>>::empty()
        &&& !self.outbox.closed
        &&& self.outbox.waker is None
    }

    /// Why a frame with so many channels and samples is turned away, if it is.
    pub open spec fn refusal(self, channels: u16, samples: nat) -> Option<ErrorView> {
        if self.outbox.closed {
            Some(ErrorView::InvalidInput("cannot send audio after ASR stream is closed"@))
        } else {
            mono_defect(channels, samples)
        }
    }

    /// `feed` is what becomes of a frame that is sent.
    pub open spec fn feeds(
        self,
        item: AudioFrame<P::Sample>,
        feed: Result<Waveform<P::Sample>, AsrError>,
    ) -> bool {
        match self.refusal(item.channels, item.samples@.len()) {
            Some(error) => feed is Err && feed->Err_0@ == error,
            None => {
                &&& feed is Ok
                &&& feed->Ok_0.sample_rate == signed_rate(item.sample_rate)
                &&& is_mono_mix::<P>(item.samples@, item.channels, feed->Ok_0.samples@)
            },
        }
    }

    /// Closing turns `self` into `after`, and ends the recognizer's input if
    /// `finish` holds.
    pub open spec fn closes(self, after: Self, finish: bool) -> bool {
        &&& finish == !self.outbox.closed
        &&& after == (ZipformerStream {
            outbox: Outbox { closed: true, ..self.outbox },
            ..self
        })
    }

    /// The text is news: there is one, and it is not the one reported last.
    pub open spec fn is_news(self, text: Option<String>) -> bool {
        text is Some && text->0@.len() > 0 && text->0@ != self.last_text@
    }

    /// Reporting the state of the text turns `self` into `after` and wakes `woken`.
    pub open spec fn reports(
        self,
        text: Option<String>,
        after: Self,
        woken: Option<P::Waker>,
    ) -> bool {
        if self.is_news(text) {
            &&& after == (ZipformerStream {
                last_text: after.last_text,
                outbox: after.outbox,
                ..self
            })
            &&& after.last_text@ == text->0@
            &&& self.outbox.queues(Ok(text->0), after.outbox, woken)
        } else {
            after == self && woken is None
        }
    }

    /// A reader gets `answer` from `self` and leaves `after` behind.
    pub open spec fn hands_out(self, waker: P::Waker, after: Self, answer: NextResult) -> bool {
        &&& after == (ZipformerStream { outbox: after.outbox, ..self })
        &&& self.outbox.hands_out(waker, after.outbox, answer)
    }

    /// A stream around one that the recognizer opened.
    pub fn new(recognizer: Arc<P::Online>, opened: P::OnlineStream) -> (stream: Self)
        ensures
            stream.recognizer == recognizer,
            stream.stream == opened,
            stream.is_fresh(),
    {
        ZipformerStream {
            recognizer,
            stream: opened,
            last_text: String::new(),
            outbox: Outbox::new(),
        }
    }

    /// A stream can always be sent to.
    pub fn poll_ready(&self) -> (answer: Poll<Result<(), AsrError>>)
        ensures
            answer == Poll::Ready(Ok::<(), AsrError>(())),
    {
        Poll::Ready(Ok(()))
    }

    /// Takes a frame in. What comes back is to be fed to the recognizer's stream and
    /// decoded, step by step from [`DecodeStep::first`] on; the text that is fetched
    /// in the end goes to [`ZipformerStream::emit_current_result`].
    pub fn start_send(&self, item: &AudioFrame<P::Sample>) -> (feed: Result<
        Waveform<P::Sample>,
        AsrError,
    >)
        ensures
            self.feeds(*item, feed),
    {
        if self.outbox.closed {
            return Err(invalid_input("cannot send audio after ASR stream is closed"));
        }
        waveform::<P>(item)
    }

    /// There is never anything to flush.
    pub fn poll_flush(&self) -> (answer: Poll<Result<(), AsrError>>)
        ensures
            answer == Poll::Ready(Ok::<(), AsrError>(())),
    {
        Poll::Ready(Ok(()))
    }

    /// Ends the speech. Where the answer is `true`, the recognizer is to be told, and
    /// what it still holds to be decoded and reported as behind a frame.
    pub fn poll_close(&mut self) -> (finish: bool)
        ensures
            old(self).closes(*final(self), finish),
    {
        if self.outbox.closed {
            return false;
        }
        self.outbox.closed = true;
        true
    }

    /// Queues the text that the recognizer has by now, if it is news. Hands back the
    /// waker of the reader that waits for it.
    pub fn emit_current_result(&mut self, text: Option<String>) -> (woken: Option<P::Waker>)
        ensures
            old(self).reports(text, *final(self), woken),
    {
        match text {
            Some(text) => {
                if text.as_str().is_empty() || same(text.as_str(), self.last_text.as_str()) {
                    return None;
                }
                self.last_text = text.clone();
                self.outbox.push_result(Ok(text))
            },
            None => None,
        }
    }

    /// The next result, or the end.
    pub fn poll_next(&mut self, waker: P::Waker) -> (answer: NextResult)
        ensures
            old(self).hands_out(waker, *final(self), answer),
    {
        self.outbox.poll_next(waker)
    }
}

/// Where the files of a Zipformer model lie, as far as they were found.
pub struct ZipformerFiles {
    pub encoder: Option<FileLocation>,
    pub decoder: Option<FileLocation>,
    pub joiner: Option<FileLocation>,
    pub tokens: Option<FileLocation>,
}

/// How a Zipformer recognizer is to be set up.
pub struct ZipformerConfig {
    pub encoder: String,
    pub decoder: String,
    pub joiner: String,
    pub tokens: String,
    pub num_threads: i32,
    pub provider: String,
    pub decoding_method: String,
}

/// What keeps a recognizer from being set up with these files.
pub open spec fn zipformer_load_error(
    dir: Seq<char>,
    encoder: Option<String>,
    decoder: Option<String>,
    joiner: Option<String>,
    tokens: Option<String>,
) -> Option<ErrorView> {
    if encoder is None {
        Some(ErrorView::BackendLoad("encoder.onnx (or encoder*.onnx) not found in "@ + dir))
    } else if decoder is None {
        Some(ErrorView::BackendLoad("decoder.onnx (or decoder*.onnx) not found in "@ + dir))
    } else if joiner is None {
        Some(ErrorView::BackendLoad("joiner.onnx (or joiner*.onnx) not found in "@ + dir))
    } else if tokens is None {
        Some(ErrorView::BackendLoad("tokens.txt not found in "@ + dir))
    } else {
        None
    }
}

/// The set-up of a recognizer with these files.
pub open spec fn is_zipformer_config(
    config: ZipformerConfig,
    encoder: Seq<char>,
    decoder: Seq<char>,
    joiner: Seq<char>,
    tokens: Seq<char>,
) -> bool {
    &&& config.encoder@ == encoder
    &&& config.decoder@ == decoder
    &&& config.joiner@ == joiner
    &&& config.tokens@ == tokens
    &&& config.num_threads == 4
    &&& config.provider@ == "cpu"@
    &&& config.decoding_method@ == "greedy_search"@
}

/// The Zipformer backend.
pub struct ZipformerEngine<P: Platform> {
    pub recognizer: Option<Arc<P::Online>>,
    pub stream: Option<ZipformerStream<P>>,
}

impl<P: Platform> ZipformerEngine<P> {
    /// The backend can neither recognize nor go on with a stream.
    pub open spec fn lacks_recognizer(self) -> bool {
        self.stream is None && self.recognizer is None
    }

    /// What a backend without recognizer answers.
    pub open spec fn not_initialized() -> ErrorView {
        ErrorView::InvalidInput("Zipformer backend not initialized. Call init() first."@)
    }

    /// The engine that `self` is once its stream has become `stream`.
    pub open spec fn has_become(self, after: Self, stream: ZipformerStream<P>) -> bool {
        after.recognizer == self.recognizer && after.stream == Some(stream)
    }

    /// The engine has to answer, before it does anything, that it has no recognizer or
    /// no stream.
    pub open spec fn holds_back<T>(self, answer: Result<Step<P, T>, AsrError>) -> bool {
        if self.lacks_recognizer() {
            answer is Err && answer->Err_0@ == Self::not_initialized()
        } else {
            &&& self.stream is None
            &&& answer == Ok::<Step<P, T>, AsrError>(Step::Open(self.recognizer->0))
        }
    }

    /// `after` is `self` with the stream `opened`, where one is to be opened.
    pub open spec fn opens(self, opened: P::OnlineStream, after: Self) -> bool {
        if self.stream is None && self.recognizer is Some {
            &&& after.recognizer == self.recognizer
            &&& after.stream is Some
            &&& after.stream->0.recognizer == self.recognizer->0
            &&& after.stream->0.stream == opened
            &&& after.stream->0.is_fresh()
        } else {
            after == self
        }
    }

    /// `job` is what becomes of a single frame that is to be transcribed.
    pub open spec fn prepares(
        self,
        audio: AudioFrame<P::Sample>,
        job: Result<OnlineJob<P>, AsrError>,
    ) -> bool {
        if self.recognizer is None {
            job is Err && job->Err_0@ == Self::not_initialized()
        } else {
            match mono_defect(audio.channels, audio.samples@.len()) {
                Some(error) => job is Err && job->Err_0@ == error,
                None => {
                    &&& job is Ok
                    &&& job->Ok_0.recognizer == self.recognizer->0
                    &&& job->Ok_0.wave.sample_rate == signed_rate(audio.sample_rate)
                    &&& is_mono_mix::<P>(
                        audio.samples@,
                        audio.channels,
                        job->Ok_0.wave.samples@,
                    )
                },
            }
        }
    }

    /// A backend that is not loaded yet.
    pub fn new() -> (engine: Self)
        ensures
            engine.recognizer is None,
            engine.stream is None,
    {
        ZipformerEngine { recognizer: None, stream: None }
    }

    /// Picks a model file: by its plain name, or by a name with the given beginning
    /// that ends in `.onnx`, also one directory further down.
    pub fn find_file(dir: &ModelDir, exact: &str, prefix: &str) -> (found: Option<FileLocation>)
        ensures
            found == location(*dir, NamePattern::Prefixed { exact, prefix }),
    {
        locate(dir, &NamePattern::Prefixed { exact, prefix })
    }

    /// Picks the files of the model. Each is looked up in what was seen of the model
    /// directory with a view to that file.
    pub fn find_files(
        encoder: &ModelDir,
        decoder: &ModelDir,
        joiner: &ModelDir,
        tokens: &ModelDir,
    ) -> (files: ZipformerFiles)
        ensures
            files.encoder == location(
                *encoder,
                NamePattern::Prefixed { exact: "encoder.onnx", prefix: "encoder" },
            ),
            files.decoder == location(
                *decoder,
                NamePattern::Prefixed { exact: "decoder.onnx", prefix: "decoder" },
            ),
            files.joiner == location(
                *joiner,
                NamePattern::Prefixed { exact: "joiner.onnx", prefix: "joiner" },
            ),
            files.tokens == location(
                *tokens,
                NamePattern::Prefixed { exact: "tokens.txt", prefix: "tokens" },
            ),
    {
        ZipformerFiles {
            encoder: Self::find_file(encoder, ENCODER_FILE, "encoder"),
            decoder: Self::find_file(decoder, DECODER_FILE, "decoder"),
            joiner: Self::find_file(joiner, JOINER_FILE, "joiner"),
            tokens: Self::find_file(tokens, TOKENS_FILE, "tokens"),
        }
    }

    /// How to set up the recognizer with the files that were found in `dir`, or which
    /// of them is missing.
    pub fn configure(
        dir: &str,
        encoder: Option<String>,
        decoder: Option<String>,
        joiner: Option<String>,
        tokens: Option<String>,
    ) -> (config: Result<ZipformerConfig, AsrError>)
        ensures
            match zipformer_load_error(dir@, encoder, decoder, joiner, tokens) {
                Some(error) => config is Err && config->Err_0@ == error,
                None => config is Ok && is_zipformer_config(
                    config->Ok_0,
                    encoder->0@,
                    decoder->0@,
                    joiner->0@,
                    tokens->0@,
                ),
            },
    {
        let encoder = match encoder {
            Some(path) => path,
            None => {
                return Err(
                    AsrError::BackendLoad(
                        join("encoder.onnx (or encoder*.onnx) not found in ", dir),
                    ),
                );
            },
        };
        let decoder = match decoder {
            Some(path) => path,
            None => {
                return Err(
                    AsrError::BackendLoad(
                        join("decoder.onnx (or decoder*.onnx) not found in ", dir),
                    ),
                );
            },
        };
        let joiner = match joiner {
            Some(path) => path,
            None => {
                return Err(
                    AsrError::BackendLoad(join("joiner.onnx (or joiner*.onnx) not found in ", dir)),
                );
            },
        };
        let tokens = match tokens {
            Some(path) => path,
            None => {
                return Err(AsrError::BackendLoad(join("tokens.txt not found in ", dir)));
            },
        };
        Ok(
            ZipformerConfig {
                encoder,
                decoder,
                joiner,
                tokens,
                num_threads: NUM_THREADS,
                provider: PROVIDER.to_owned(),
                decoding_method: "greedy_search".to_owned(),
            },
        )
    }

    /// Transcription of a single frame: what the recognizer is to be run on, step by
    /// step from [`DecodeStep::first`] on. The text that is fetched in the end is
    /// read by [`crate::backend::transcription`].
    pub fn process(&self, audio: &AudioFrame<P::Sample>) -> (job: Result<OnlineJob<P>, AsrError>)
        ensures
            self.prepares(*audio, job),
    {
        match &self.recognizer {
            Some(recognizer) => match waveform::<P>(audio) {
                Ok(wave) => Ok(OnlineJob { recognizer: recognizer.clone(), wave }),
                Err(error) => Err(error),
            },
            None => Err(invalid_input("Zipformer backend not initialized. Call init() first.")),
        }
    }

    /// The stream that is open, or the recognizer on which one is to be opened.
    pub fn ensure_stream(&mut self) -> (stream: Result<
        Step<P, &mut ZipformerStream<P>>,
        AsrError,
    >)
        ensures
            match stream {
                Ok(Step::Done(stream)) => {
                    &&& old(self).stream == Some(*stream)
                    &&& old(self).has_become(*final(self), *final(stream))
                },
                Ok(Step::Open(recognizer)) => {
                    &&& old(self).stream is None
                    &&& old(self).recognizer == Some(recognizer)
                    &&& *final(self) == *old(self)
                },
                Err(error) => {
                    &&& old(self).lacks_recognizer()
                    &&& error@ == Self::not_initialized()
                    &&& *final(self) == *old(self)
                },
            },
    {
        if self.stream.is_none() {
            return match &self.recognizer {
                Some(recognizer) => Ok(Step::Open(recognizer.clone())),
                None => Err(
                    invalid_input("Zipformer backend not initialized. Call init() first."),
                ),
            };
        }
        Ok(Step::Done(self.stream.as_mut().unwrap()))
    }

    /// Takes over a stream that was opened on the loaded recognizer. Where one is
    /// open already, or no recognizer is loaded, it is dropped.
    pub fn open_stream(&mut self, opened: P::OnlineStream)
        ensures
            old(self).opens(opened, *final(self)),
    {
        if self.stream.is_none() {
            match &self.recognizer {
                Some(recognizer) => {
                    self.stream = Some(ZipformerStream::new(recognizer.clone(), opened));
                },
                None => {},
            }
        }
    }
}

impl<P: Platform> AsrBackend<P> for ZipformerEngine<P> {
    type Recognizer = P::Online;

    open spec fn wf(self) -> bool {
        true
    }

    open spec fn is_loaded(self) -> bool {
        self.recognizer is Some
    }

    open spec fn loads(
        self,
        recognizer: Option<P::Online>,
        after: Self,
        outcome: Result<(), AsrError>,
    ) -> bool {
        match recognizer {
            Some(recognizer) => {
                &&& outcome is Ok
                &&& after.recognizer == Some(Arc::new(recognizer))
                &&& after.stream == self.stream
            },
            None => {
                &&& outcome is Err
                &&& outcome->Err_0@ == ErrorView::BackendLoad(
                    "failed to create Zipformer recognizer"@,
                )
                &&& after == self
            },
        }
    }

    open spec fn processes(
        self,
        audio: AudioFrame<P::Sample>,
        job: Result<OneShot<P>, AsrError>,
    ) -> bool {
        match job {
            Ok(OneShot::Online(job)) => self.prepares(audio, Ok(job)),
            Ok(OneShot::Offline(_)) => false,
            Err(error) => self.prepares(audio, Err(error)),
        }
    }

    open spec fn attends(self, after: Self, answer: Result<Step<P, ()>, AsrError>) -> bool {
        &&& after == self
        &&& match self.stream {
            Some(_) => answer == Ok::<Step<P, ()>, AsrError>(Step::Done(())),
            None => self.holds_back(answer),
        }
    }

    open spec fn sends(
        self,
        item: AudioFrame<P::Sample>,
        after: Self,
        outcome: Result<Step<P, Sent<P>>, AsrError>,
    ) -> bool {
        &&& after == self
        &&& match self.stream {
            Some(stream) => match outcome {
                Ok(Step::Done(Sent::Feed(wave))) => stream.feeds(item, Ok(wave)),
                Ok(_) => false,
                Err(error) => stream.feeds(item, Err(error)),
            },
            None => self.holds_back(outcome),
        }
    }

    open spec fn ends(self, after: Self, work: Result<Step<P, Closing<P>>, AsrError>) -> bool {
        match self.stream {
            Some(stream) => {
                &&& after.recognizer == self.recognizer
                &&& after.stream is Some
                &&& match work {
                    Ok(Step::Done(Closing::FinishInput)) => stream.closes(after.stream->0, true),
                    Ok(Step::Done(Closing::Nothing)) => stream.closes(after.stream->0, false),
                    _ => false,
                }
            },
            None => self.holds_back(work) && after == self,
        }
    }

    open spec fn reports(
        self,
        text: Option<String>,
        after: Self,
        woken: Option<P::Waker>,
    ) -> bool {
        match self.stream {
            Some(stream) => {
                &&& after.recognizer == self.recognizer
                &&& after.stream is Some
                &&& stream.reports(text, after.stream->0, woken)
            },
            None => woken is None && after == self,
        }
    }

    open spec fn hands_out(
        self,
        waker: P::Waker,
        after: Self,
        answer: Step<P, NextResult>,
    ) -> bool {
        match self.stream {
            Some(stream) => {
                &&& answer matches Step::Done(answer)
                &&& after.recognizer == self.recognizer
                &&& after.stream is Some
                &&& stream.hands_out(waker, after.stream->0, answer)
            },
            None => {
                &&& after == self
                &&& if self.lacks_recognizer() {
                    &&& answer matches Step::Done(Poll::Ready(Some(Err(error))))
                    &&& error@ == Self::not_initialized()
                } else {
                    answer == Step::<P, NextResult>::Open(self.recognizer->0)
                }
            },
        }
    }

    fn init(&mut self, recognizer: Option<P::Online>) -> (outcome: Result<(), AsrError>) {
        match recognizer {
            Some(recognizer) => {
                self.recognizer = Some(Arc::new(recognizer));
                Ok(())
            },
            None => Err(AsrError::BackendLoad("failed to create Zipformer recognizer".to_owned())),
        }
    }

    fn process(&mut self, audio: AudioFrame<P::Sample>) -> (job: Result<OneShot<P>, AsrError>) {
        match ZipformerEngine::process(self, &audio) {
            Ok(job) => Ok(OneShot::Online(job)),
            Err(error) => Err(error),
        }
    }

    fn poll_ready(&mut self) -> (answer: Result<Step<P, ()>, AsrError>) {
        match self.ensure_stream() {
            Ok(Step::Done(stream)) => match stream.poll_ready() {
                Poll::Ready(Err(error)) => Err(error),
                _ => Ok(Step::Done(())),
            },
            Ok(Step::Open(recognizer)) => Ok(Step::Open(recognizer)),
            Err(error) => Err(error),
        }
    }

    /// Takes a frame in; see [`ZipformerStream::start_send`] for what is to be done
    /// with what comes back.
    fn start_send(&mut self, item: &AudioFrame<P::Sample>) -> (outcome: Result<
        Step<P, Sent<P>>,
        AsrError,
    >) {
        match self.ensure_stream() {
            Ok(Step::Done(stream)) => match stream.start_send(item) {
                Ok(wave) => Ok(Step::Done(Sent::Feed(wave))),
                Err(error) => Err(error),
            },
            Ok(Step::Open(recognizer)) => Ok(Step::Open(recognizer)),
            Err(error) => Err(error),
        }
    }

    fn poll_flush(&mut self) -> (answer: Result<Step<P, ()>, AsrError>) {
        match self.ensure_stream() {
            Ok(Step::Done(stream)) => match stream.poll_flush() {
                Poll::Ready(Err(error)) => Err(error),
                _ => Ok(Step::Done(())),
            },
            Ok(Step::Open(recognizer)) => Ok(Step::Open(recognizer)),
            Err(error) => Err(error),
        }
    }

    fn poll_close(&mut self) -> (work: Result<Step<P, Closing<P>>, AsrError>) {
        match self.ensure_stream() {
            Ok(Step::Done(stream)) => {
                if stream.poll_close() {
                    Ok(Step::Done(Closing::FinishInput))
                } else {
                    Ok(Step::Done(Closing::Nothing))
                }
            },
            Ok(Step::Open(recognizer)) => Ok(Step::Open(recognizer)),
            Err(error) => Err(error),
        }
    }

    fn report(&mut self, text: Option<String>) -> (woken: Option<P::Waker>) {
        match self.stream.as_mut() {
            Some(stream) => stream.emit_current_result(text),
            None => None,
        }
    }

    fn poll_next(&mut self, waker: P::Waker) -> (answer: Step<P, NextResult>) {
        match self.ensure_stream() {
            Ok(Step::Done(stream)) => Step::Done(stream.poll_next(waker)),
            Ok(Step::Open(recognizer)) => Step::Open(recognizer),
            Err(error) => Step::Done(Poll::Ready(Some(Err(error)))),
        }
    }
}

impl<P: Platform> Default for ZipformerEngine<P> {
    fn default() -> (engine: Self)
        ensures
            engine.recognizer is None,
            engine.stream is None,
    {
        Self::new()
    }
}

} // verus!
