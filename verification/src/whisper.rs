//! The Whisper backend: audio is collected until the stream is closed, and then
//! recognized as a whole.

use std::sync::Arc;

use vstd::prelude::*;
use vstd::string::*;

use crate::audio::{is_mono_mix, mono_defect, mono_samples, signed_rate, waveform};
use crate::audio::{AudioFrame, Platform, Waveform};
use crate::backend::{is_transcription, transcription};
use crate::backend::{AsrBackend, Closing, OfflineJob, OneShot, Sent, Step};
use crate::error::{invalid_input, AsrError, ErrorView};
use crate::model::{locate, location, FileLocation, ModelDir, NamePattern};
use crate::model::{DECODER_FILE, ENCODER_FILE, NUM_THREADS, PROVIDER, TOKENS_FILE};
use crate::outbox::{NextResult, Outbox, Poll};
use crate::text::{contains, join, join3, occurs_in, same};

verus! {

/// The language that speech is taken to be in.
pub const WHISPER_LANGUAGE: &'static str = "en";

/// The rate that audio without any frame is taken to have.
pub const DEFAULT_SAMPLE_RATE: u32 = 16000;

/// One recording on its way to the recognizer.
pub struct WhisperStream<P: Platform> {
    pub recognizer: Arc<P::Offline>,
    pub samples: Vec<P::Sample>,
    pub channels: Option<u16>,
    pub sample_rate: Option<u32>,
    pub outbox: Outbox<P::Waker>,
}

impl<P: Platform> WhisperStream<P> {
    /// The stream knows the form of its audio whole or not at all.
    pub open spec fn wf(self) -> bool {
        (self.channels is Some) == (self.sample_rate is Some)
    }

    /// Nothing was sent yet, and nothing waits to be read.
    pub open spec fn is_fresh(self) -> bool {
        &&& self.samples@ == Seq::<P::Sample>::empty()
        &&& self.channels is None
        &&& self.sample_rate is None
        &&& self.outbox.pending@ == Seq::<Result<String, AsrError>>::empty()
        &&& !self.outbox.closed
        &&& self.outbox.waker is None
    }

    /// Why a frame of this form is turned away, if it is.
    pub open spec fn refusal(self, channels: u16, sample_rate: u32) -> Option<ErrorView> {
        if self.outbox.closed {
            Some(ErrorView::InvalidInput("cannot send audio after ASR stream is closed"@))
        } else if self.channels is Some && self.channels->0 != channels {
            Some(ErrorView::InvalidInput("audio channel count changed during ASR stream"@))
        } else if self.sample_rate is Some && self.sample_rate->0 != sample_rate {
            Some(ErrorView::InvalidInput("audio sample rate changed during ASR stream"@))
        } else {
            None
        }
    }

    /// Sending `item` turns `self` into `after` and has the given outcome.
    pub open spec fn takes(
        self,
        item: AudioFrame<P::Sample>,
        after: Self,
        outcome: Result<(), AsrError>,
    ) -> bool {
        match self.refusal(item.channels, item.sample_rate) {
            Some(error) => outcome is Err && outcome->Err_0@ == error && after == self,
            None => {
                &&& after.recognizer == self.recognizer
                &&& after.outbox == self.outbox
                &&& after.channels == Some(item.channels)
                &&& after.sample_rate == Some(item.sample_rate)
                &&& match mono_defect(item.channels, item.samples@.len()) {
                    Some(error) => {
                        &&& outcome is Err
                        &&& outcome->Err_0@ == error
                        &&& after.samples == self.samples
                    },
                    None => {
                        &&& outcome is Ok
                        &&& exists|mono: Seq<P::Sample>| #[trigger]
                            is_mono_mix::<P>(item.samples@, item.channels, mono)
                                && after.samples@ == self.samples@ + mono
                    },
                }
            },
        }
    }

    /// Closing turns `self` into `after` and asks for `work` to be recognized.
    pub open spec fn closes(self, after: Self, work: Option<Waveform<P::Sample>>) -> bool {
        if self.outbox.closed {
            after == self && work is None
        } else {
            &&& after.outbox == (Outbox { closed: true, ..self.outbox })
            &&& after.samples@ == Seq::<P::Sample>::empty()
            &&& after.recognizer == self.recognizer
            &&& after.channels == self.channels
            &&& after.sample_rate == self.sample_rate
            &&& work is Some
            &&& work->0.samples@ == self.samples@
            &&& work->0.sample_rate == signed_rate(
                match self.sample_rate {
                    Some(rate) => rate,
                    None => DEFAULT_SAMPLE_RATE,
                },
            )
        }
    }

    /// Queueing one result turns `self` into `after` and wakes `woken`.
    pub open spec fn queues(
        self,
        result: Result<String, AsrError>,
        after: Self,
        woken: Option<P::Waker>,
    ) -> bool {
        &&& after == (WhisperStream { outbox: after.outbox, ..self })
        &&& self.outbox.queues(result, after.outbox, woken)
    }

    /// A reader gets `answer` from `self` and leaves `after` behind.
    pub open spec fn hands_out(self, waker: P::Waker, after: Self, answer: NextResult) -> bool {
        &&& after == (WhisperStream { outbox: after.outbox, ..self })
        &&& self.outbox.hands_out(waker, after.outbox, answer)
    }

    /// A stream for one recording.
    pub fn new(recognizer: Arc<P::Offline>) -> (stream: Self)
        ensures
            stream.recognizer == recognizer,
            stream.is_fresh(),
            stream.wf(),
    {
        WhisperStream {
            recognizer,
            samples: Vec::new(),
            channels: None,
            sample_rate: None,
            outbox: Outbox::new(),
        }
    }

    /// Queues a result. Hands back the waker of the reader that waits for it.
    pub fn push_result(&mut self, result: Result<String, AsrError>) -> (woken: Option<P::Waker>)
        ensures
            old(self).queues(result, *final(self), woken),
    {
        self.outbox.push_result(result)
    }

    /// A stream can always be sent to.
    pub fn poll_ready(&self) -> (answer: Poll<Result<(), AsrError>>)
        ensures
            answer == Poll::Ready(Ok::<(), AsrError>(())),
    {
        Poll::Ready(Ok(()))
    }

    /// Adds a frame to the recording. All frames have the form of the first one.
    pub fn start_send(&mut self, item: &AudioFrame<P::Sample>) -> (outcome: Result<(), AsrError>)
        requires
            old(self).wf(),
        ensures
            final(self).wf(),
            old(self).takes(*item, *final(self), outcome),
    {
        if self.outbox.closed {
            return Err(invalid_input("cannot send audio after ASR stream is closed"));
        }
        match self.channels {
            Some(channels) => {
                if channels != item.channels {
                    return Err(invalid_input("audio channel count changed during ASR stream"));
                }
            },
            None => {
                self.channels = Some(item.channels);
            },
        }
        match self.sample_rate {
            Some(sample_rate) => {
                if sample_rate != item.sample_rate {
                    return Err(invalid_input("audio sample rate changed during ASR stream"));
                }
            },
            None => {
                self.sample_rate = Some(item.sample_rate);
            },
        }
        match mono_samples::<P>(item) {
            Ok(mut samples) => {
                self.samples.append(&mut samples);
                Ok(())
            },
            Err(error) => Err(error),
        }
    }

    /// There is never anything to flush.
    pub fn poll_flush(&self) -> (answer: Poll<Result<(), AsrError>>)
        ensures
            answer == Poll::Ready(Ok::<(), AsrError>(())),
    {
        Poll::Ready(Ok(()))
    }

    /// Ends the recording. What comes back the first time is to be recognized; what
    /// the recognizer makes of it is reported to [`WhisperStream::recognized`].
    pub fn poll_close(&mut self) -> (work: Option<Waveform<P::Sample>>)
        ensures
            old(self).closes(*final(self), work),
    {
        if self.outbox.closed {
            return None;
        }
        self.outbox.closed = true;
        let mut samples: Vec<P::Sample> = Vec::new();
        std::mem::swap(&mut samples, &mut self.samples);
        let sample_rate: u32 = match self.sample_rate {
            Some(rate) => rate,
            None => DEFAULT_SAMPLE_RATE,
        };
        let audio = AudioFrame { samples, channels: 1, sample_rate };
        match waveform::<P>(&audio) {
            Ok(wave) => Some(wave),
            Err(_) => None,
        }
    }

    /// Queues what the recognizer made of the recording.
    pub fn recognized(&mut self, text: Option<String>) -> (woken: Option<P::Waker>)
        ensures
            exists|outcome: Result<String, AsrError>| #[trigger]
                is_transcription(text, outcome) && old(self).queues(
                    outcome,
                    *final(self),
                    woken,
                ),
    {
        self.push_result(transcription(text))
    }

    /// The next result, or the end.
    pub fn poll_next(&mut self, waker: P::Waker) -> (answer: NextResult)
        ensures
            old(self).hands_out(waker, *final(self), answer),
    {
        self.outbox.poll_next(waker)
    }
}

/// Where the files of a Whisper model lie, as far as they were found.
pub struct WhisperFiles {
    pub encoder: Option<FileLocation>,
    pub decoder: Option<FileLocation>,
    pub tokens: Option<FileLocation>,
}

/// A model file that was found.
pub struct ModelFile {
    /// The path of the file, as text.
    pub path: String,
    /// The last part of the path, where it is text.
    pub file_name: Option<String>,
}

/// How a Whisper recognizer is to be set up.
pub struct WhisperConfig {
    pub encoder: String,
    pub decoder: String,
    pub tokens: String,
    pub language: String,
    pub task: String,
    pub tail_paddings: i32,
    pub enable_token_timestamps: bool,
    pub enable_segment_timestamps: bool,
    pub num_threads: i32,
    pub provider: String,
}

/// What keeps a recognizer for `language` from being set up with these files.
pub open spec fn whisper_load_error(
    language: Seq<char>,
    dir: Seq<char>,
    encoder: Option<ModelFile>,
    decoder: Option<String>,
    tokens: Option<String>,
) -> Option<ErrorView> {
    if encoder is None {
        Some(ErrorView::BackendLoad("encoder.onnx (or *-encoder.onnx) not found in "@ + dir))
    } else if decoder is None {
        Some(ErrorView::BackendLoad("decoder.onnx (or *-decoder.onnx) not found in "@ + dir))
    } else if tokens is None {
        Some(ErrorView::BackendLoad("tokens.txt (or *-tokens.txt) not found in "@ + dir))
    } else if language != "en"@ && encoder->0.file_name is Some && occurs_in(
        ".en-"@,
        encoder->0.file_name->0@,
    ) {
        Some(
            ErrorView::BackendLoad(
                "configured language is "@ + language
                    + ", but the selected Whisper model is English-only: "@ + encoder->0.path@
                    + ". Install a multilingual Whisper model instead of a .en model."@,
            ),
        )
    } else {
        None
    }
}

/// The set-up of a recognizer for `language` with these files.
pub open spec fn is_whisper_config(
    config: WhisperConfig,
    language: Seq<char>,
    encoder: Seq<char>,
    decoder: Seq<char>,
    tokens: Seq<char>,
) -> bool {
    &&& config.encoder@ == encoder
    &&& config.decoder@ == decoder
    &&& config.tokens@ == tokens
    &&& config.language@ == language
    &&& config.task@ == "transcribe"@
    &&& config.tail_paddings == -1
    &&& !config.enable_token_timestamps
    &&& !config.enable_segment_timestamps
    &&& config.num_threads == 4
    &&& config.provider@ == "cpu"@
}

/// The Whisper backend.
pub struct WhisperEngine<P: Platform> {
    pub recognizer: Option<Arc<P::Offline>>,
    pub stream: Option<WhisperStream<P>>,
}

impl<P: Platform> WhisperEngine<P> {
    /// A recording that is under way is well-formed.
    pub open spec fn is_sound(self) -> bool {
        self.stream is Some ==> self.stream->0.wf()
    }

    /// The backend can neither recognize nor go on with a recording.
    pub open spec fn lacks_recognizer(self) -> bool {
        self.stream is None && self.recognizer is None
    }

    /// What a backend without recognizer answers.
    pub open spec fn not_initialized() -> ErrorView {
        ErrorView::InvalidInput("Whisper backend not initialized. Call init() first."@)
    }

    /// `stream` is the recording that is under way; where there is none, a new one
    /// for the loaded recognizer.
    pub open spec fn goes_on_with(self, stream: WhisperStream<P>) -> bool {
        match self.stream {
            Some(open) => stream == open,
            None => {
                &&& self.recognizer is Some
                &&& stream.recognizer == self.recognizer->0
                &&& stream.is_fresh()
                &&& stream.wf()
            },
        }
    }

    /// The engine that `self` is once its recording has become `stream`.
    pub open spec fn has_become(self, after: Self, stream: WhisperStream<P>) -> bool {
        after.recognizer == self.recognizer && after.stream == Some(stream)
    }

    /// `job` is what becomes of a single frame that is to be transcribed.
    pub open spec fn prepares(
        self,
        audio: AudioFrame<P::Sample>,
        job: Result<OfflineJob<P>, AsrError>,
    ) -> bool {
        if self.recognizer is None {
            job is Err && job->Err_0@ == Self::not_initialized()
        } else {
            match mono_defect(audio.channels, audio.samples@.len()) {
                Some(error) => job is Err && job->Err_0@ == error,
                None => {
                    &&& job is Ok
                    &&& job->Ok_0.recognizer == self.recognizer->0
                    &&& job->Ok_0.wave.sample_rate == signed_rate(audio.sample_rate)
                    &&& is_mono_mix::<P>(
                        audio.samples@,
                        audio.channels,
                        job->Ok_0.wave.samples@,
                    )
                },
            }
        }
    }

    /// A backend that is not loaded yet.
    pub fn new() -> (engine: Self)
        ensures
            engine.recognizer is None,
            engine.stream is None,
    {
        WhisperEngine { recognizer: None, stream: None }
    }

    /// Picks a model file: by its plain name, or by a name that ends in a hyphen and
    /// the plain name, also one directory further down.
    pub fn find_file(dir: &ModelDir, stem: &str) -> (found: Option<FileLocation>)
        ensures
            found == location(*dir, NamePattern::Suffixed { stem }),
    {
        locate(dir, &NamePattern::Suffixed { stem })
    }

    /// Picks the files of the model. Each is looked up in what was seen of the model
    /// directory with a view to that file.
    pub fn find_files(encoder: &ModelDir, decoder: &ModelDir, tokens: &ModelDir) -> (files:
        WhisperFiles)
        ensures
            files.encoder == location(*encoder, NamePattern::Suffixed { stem: "encoder.onnx" }),
            files.decoder == location(*decoder, NamePattern::Suffixed { stem: "decoder.onnx" }),
            files.tokens == location(*tokens, NamePattern::Suffixed { stem: "tokens.txt" }),
    {
        WhisperFiles {
            encoder: Self::find_file(encoder, ENCODER_FILE),
            decoder: Self::find_file(decoder, DECODER_FILE),
            tokens: Self::find_file(tokens, TOKENS_FILE),
        }
    }

    /// Whether the file name marks a model that knows English only.
    pub fn is_english_only_model(file_name: Option<&str>) -> (english: bool)
        ensures
            english == (file_name is Some && occurs_in(".en-"@, file_name->0@)),
    {
        match file_name {
            Some(name) => contains(name, ".en-"),
            None => false,
        }
    }

    /// How to set up a recognizer for `language` with the files that were found in
    /// `dir`, or which of them is missing or does not fit.
    pub fn configure_for(
        language: &str,
        dir: &str,
        encoder: Option<ModelFile>,
        decoder: Option<String>,
        tokens: Option<String>,
    ) -> (config: Result<WhisperConfig, AsrError>)
        ensures
            match whisper_load_error(language@, dir@, encoder, decoder, tokens) {
                Some(error) => config is Err && config->Err_0@ == error,
                None => config is Ok && is_whisper_config(
                    config->Ok_0,
                    language@,
                    encoder->0.path@,
                    decoder->0@,
                    tokens->0@,
                ),
            },
    {
        let encoder = match encoder {
            Some(file) => file,
            None => {
                return Err(
                    AsrError::BackendLoad(
                        join("encoder.onnx (or *-encoder.onnx) not found in ", dir),
                    ),
                );
            },
        };
        let decoder = match decoder {
            Some(path) => path,
            None => {
                return Err(
                    AsrError::BackendLoad(
                        join("decoder.onnx (or *-decoder.onnx) not found in ", dir),
                    ),
                );
            },
        };
        let tokens = match tokens {
            Some(path) => path,
            None => {
                return Err(
                    AsrError::BackendLoad(join("tokens.txt (or *-tokens.txt) not found in ", dir)),
                );
            },
        };
        let file_name: Option<&str> = match &encoder.file_name {
            Some(name) => Some(name.as_str()),
            None => None,
        };
        if !same(language, "en") && Self::is_english_only_model(file_name) {
            let head = join3(
                "configured language is ",
                language,
                ", but the selected Whisper model is English-only: ",
            );
            return Err(
                AsrError::BackendLoad(
                    join3(
                        head.as_str(),
                        encoder.path.as_str(),
                        ". Install a multilingual Whisper model instead of a .en model.",
                    ),
                ),
            );
        }
        Ok(
            WhisperConfig {
                encoder: encoder.path,
                decoder,
                tokens,
                language: language.to_owned(),
                task: "transcribe".to_owned(),
                tail_paddings: -1,
                enable_token_timestamps: false,
                enable_segment_timestamps: false,
                num_threads: NUM_THREADS,
                provider: PROVIDER.to_owned(),
            },
        )
    }

    /// How to set up the recognizer with the files that were found in `dir`, or which
    /// of them is missing.
    pub fn configure(
        dir: &str,
        encoder: Option<ModelFile>,
        decoder: Option<String>,
        tokens: Option<String>,
    ) -> (config: Result<WhisperConfig, AsrError>)
        ensures
            match whisper_load_error("en"@, dir@, encoder, decoder, tokens) {
                Some(error) => config is Err && config->Err_0@ == error,
                None => config is Ok && is_whisper_config(
                    config->Ok_0,
                    "en"@,
                    encoder->0.path@,
                    decoder->0@,
                    tokens->0@,
                ),
            },
    {
        Self::configure_for(WHISPER_LANGUAGE, dir, encoder, decoder, tokens)
    }

    /// Transcription of a single frame: what the recognizer is to be run on. Its
    /// answer is read by [`transcription`].
    pub fn process(&self, audio: &AudioFrame<P::Sample>) -> (job: Result<OfflineJob<P>, AsrError>)
        ensures
            self.prepares(*audio, job),
    {
        match &self.recognizer {
            Some(recognizer) => match waveform::<P>(audio) {
                Ok(wave) => Ok(OfflineJob { recognizer: recognizer.clone(), wave }),
                Err(error) => Err(error),
            },
            None => Err(invalid_input("Whisper backend not initialized. Call init() first.")),
        }
    }

    /// The recording that is under way, begun now where there is none.
    pub fn ensure_stream(&mut self) -> (stream: Result<&mut WhisperStream<P>, AsrError>)
        requires
            old(self).is_sound(),
        ensures
            match stream {
                Ok(stream) => {
                    &&& !old(self).lacks_recognizer()
                    &&& old(self).goes_on_with(*stream)
                    &&& old(self).has_become(*final(self), *final(stream))
                },
                Err(error) => {
                    &&& old(self).lacks_recognizer()
                    &&& error@ == Self::not_initialized()
                    &&& *final(self) == *old(self)
                },
            },
    {
        if self.stream.is_none() {
            match &self.recognizer {
                Some(recognizer) => {
                    self.stream = Some(WhisperStream::new(recognizer.clone()));
                },
                None => {
                    return Err(
                        invalid_input("Whisper backend not initialized. Call init() first."),
                    );
                },
            }
        }
        Ok(self.stream.as_mut().unwrap())
    }
}

impl<P: Platform> AsrBackend<P> for WhisperEngine<P> {
    type Recognizer = P::Offline;

    open spec fn wf(self) -> bool {
        self.is_sound()
    }

    open spec fn is_loaded(self) -> bool {
        self.recognizer is Some
    }

    open spec fn loads(
        self,
        recognizer: Option<P::Offline>,
        after: Self,
        outcome: Result<(), AsrError>,
    ) -> bool {
        match recognizer {
            Some(recognizer) => {
                &&& outcome is Ok
                &&& after.recognizer == Some(Arc::new(recognizer))
                &&& after.stream == self.stream
            },
            None => {
                &&& outcome is Err
                &&& outcome->Err_0@ == ErrorView::BackendLoad(
                    "failed to create Whisper recognizer"@,
                )
                &&& after == self
            },
        }
    }

    open spec fn processes(
        self,
        audio: AudioFrame<P::Sample>,
        job: Result<OneShot<P>, AsrError>,
    ) -> bool {
        match job {
            Ok(OneShot::Offline(job)) => self.prepares(audio, Ok(job)),
            Ok(OneShot::Online(_)) => false,
            Err(error) => self.prepares(audio, Err(error)),
        }
    }

    open spec fn attends(self, after: Self, answer: Result<Step<P, ()>, AsrError>) -> bool {
        if self.lacks_recognizer() {
            &&& answer is Err
            &&& answer->Err_0@ == Self::not_initialized()
            &&& after == self
        } else {
            &&& answer == Ok::<Step<P, ()>, AsrError>(Step::Done(()))
            &&& exists|stream: WhisperStream<P>| #[trigger]
                self.goes_on_with(stream) && self.has_become(after, stream)
        }
    }

    open spec fn sends(
        self,
        item: AudioFrame<P::Sample>,
        after: Self,
        outcome: Result<Step<P, Sent<P>>, AsrError>,
    ) -> bool {
        if self.lacks_recognizer() {
            &&& outcome is Err
            &&& outcome->Err_0@ == Self::not_initialized()
            &&& after == self
        } else {
            &&& after.recognizer == self.recognizer
            &&& after.stream is Some
            &&& exists|stream: WhisperStream<P>| #[trigger]
                self.goes_on_with(stream) && match outcome {
                    Ok(Step::Done(Sent::Collected)) => stream.takes(
                        item,
                        after.stream->0,
                        Ok(()),
                    ),
                    Ok(_) => false,
                    Err(error) => stream.takes(item, after.stream->0, Err(error)),
                }
        }
    }

    open spec fn ends(self, after: Self, work: Result<Step<P, Closing<P>>, AsrError>) -> bool {
        if self.lacks_recognizer() {
            &&& work is Err
            &&& work->Err_0@ == Self::not_initialized()
            &&& after == self
        } else {
            &&& after.recognizer == self.recognizer
            &&& after.stream is Some
            &&& exists|stream: WhisperStream<P>| #[trigger]
                self.goes_on_with(stream) && match work {
                    Ok(Step::Done(Closing::Recognize(job))) => {
                        &&& job.recognizer == stream.recognizer
                        &&& stream.closes(after.stream->0, Some(job.wave))
                    },
                    Ok(Step::Done(Closing::Nothing)) => stream.closes(after.stream->0, None),
                    _ => false,
                }
        }
    }

    open spec fn reports(
        self,
        text: Option<String>,
        after: Self,
        woken: Option<P::Waker>,
    ) -> bool {
        match self.stream {
            Some(stream) => {
                &&& after.recognizer == self.recognizer
                &&& after.stream is Some
                &&& exists|outcome: Result<String, AsrError>| #[trigger]
                    is_transcription(text, outcome) && stream.queues(
                        outcome,
                        after.stream->0,
                        woken,
                    )
            },
            None => woken is None && after == self,
        }
    }

    open spec fn hands_out(
        self,
        waker: P::Waker,
        after: Self,
        answer: Step<P, NextResult>,
    ) -> bool {
        &&& answer matches Step::Done(answer)
        &&& if self.lacks_recognizer() {
            &&& answer matches Poll::Ready(Some(Err(error)))
            &&& error@ == Self::not_initialized()
            &&& after == self
        } else {
            &&& after.recognizer == self.recognizer
            &&& after.stream is Some
            &&& exists|stream: WhisperStream<P>| #[trigger]
                self.goes_on_with(stream) && stream.hands_out(waker, after.stream->0, answer)
        }
    }

    fn init(&mut self, recognizer: Option<P::Offline>) -> (outcome: Result<(), AsrError>) {
        match recognizer {
            Some(recognizer) => {
                self.recognizer = Some(Arc::new(recognizer));
                Ok(())
            },
            None => Err(AsrError::BackendLoad("failed to create Whisper recognizer".to_owned())),
        }
    }

    fn process(&mut self, audio: AudioFrame<P::Sample>) -> (job: Result<OneShot<P>, AsrError>) {
        match WhisperEngine::process(self, &audio) {
            Ok(job) => Ok(OneShot::Offline(job)),
            Err(error) => Err(error),
        }
    }

    fn poll_ready(&mut self) -> (answer: Result<Step<P, ()>, AsrError>) {
        match self.ensure_stream() {
            Ok(stream) => match stream.poll_ready() {
                Poll::Ready(Err(error)) => Err(error),
                _ => Ok(Step::Done(())),
            },
            Err(error) => Err(error),
        }
    }

    fn start_send(&mut self, item: &AudioFrame<P::Sample>) -> (outcome: Result<
        Step<P, Sent<P>>,
        AsrError,
    >) {
        match self.ensure_stream() {
            Ok(stream) => match stream.start_send(item) {
                Ok(_) => Ok(Step::Done(Sent::Collected)),
                Err(error) => Err(error),
            },
            Err(error) => Err(error),
        }
    }

    fn poll_flush(&mut self) -> (answer: Result<Step<P, ()>, AsrError>) {
        match self.ensure_stream() {
            Ok(stream) => match stream.poll_flush() {
                Poll::Ready(Err(error)) => Err(error),
                _ => Ok(Step::Done(())),
            },
            Err(error) => Err(error),
        }
    }

    fn poll_close(&mut self) -> (work: Result<Step<P, Closing<P>>, AsrError>) {
        match self.ensure_stream() {
            Ok(stream) => match stream.poll_close() {
                Some(wave) => Ok(
                    Step::Done(
                        Closing::Recognize(
                            OfflineJob { recognizer: stream.recognizer.clone(), wave },
                        ),
                    ),
                ),
                None => Ok(Step::Done(Closing::Nothing)),
            },
            Err(error) => Err(error),
        }
    }

    fn report(&mut self, text: Option<String>) -> (woken: Option<P::Waker>) {
        match self.stream.as_mut() {
            Some(stream) => stream.recognized(text),
            None => None,
        }
    }

    fn poll_next(&mut self, waker: P::Waker) -> (answer: Step<P, NextResult>) {
        match self.ensure_stream() {
            Ok(stream) => Step::Done(stream.poll_next(waker)),
            Err(error) => Step::Done(Poll::Ready(Some(Err(error)))),
        }
    }
}

impl<P: Platform> Default for WhisperEngine<P> {
    fn default() -> (engine: Self)
        ensures
            engine.recognizer is None,
            engine.stream is None,
    {
        Self::new()
    }
}

} // verus!
