//! What speech recognition can fail with.

use vstd::prelude::*;

use crate::text::join;

verus! {

/// Errors of the library. `Audio` and `Io` carry the text of the audio layer's
/// and of the operating system's own error.
#[derive(Debug)]
pub enum AsrError {
    InvalidInput(String),
    BackendLoad(String),
    Transcription(String),
    Audio(String),
    Io(String),
}

/// An [`AsrError`] with its text as a sequence of characters.
pub enum ErrorView {
    InvalidInput(Seq<char>),
    BackendLoad(Seq<char>),
    Transcription(Seq<char>),
    Audio(Seq<char>),
    Io(Seq<char>),
}

impl View for AsrError {
    type V = ErrorView;

    open spec fn view(&self) -> ErrorView {
        match self {
            AsrError::InvalidInput(text) => ErrorView::InvalidInput(text@),
            AsrError::BackendLoad(text) => ErrorView::BackendLoad(text@),
            AsrError::Transcription(text) => ErrorView::Transcription(text@),
            AsrError::Audio(text) => ErrorView::Audio(text@),
            AsrError::Io(text) => ErrorView::Io(text@),
        }
    }
}

impl ErrorView {
    /// What the error reads as.
    pub open spec fn message(self) -> Seq<char> {
        match self {
            ErrorView::InvalidInput(text) => text,
            ErrorView::BackendLoad(text) => "failed to load ASR backend: "@ + text,
            ErrorView::Transcription(text) => "ASR transcription failed: "@ + text,
            ErrorView::Audio(text) => "audio error: "@ + text,
            ErrorView::Io(text) => "io error: "@ + text,
        }
    }
}

impl AsrError {
    /// The error as one line of text.
    pub fn message(&self) -> (text: String)
        ensures
            text@ == self@.message(),
    {
        match self {
            AsrError::InvalidInput(text) => text.clone(),
            AsrError::BackendLoad(text) => join("failed to load ASR backend: ", text.as_str()),
            AsrError::Transcription(text) => join("ASR transcription failed: ", text.as_str()),
            AsrError::Audio(text) => join("audio error: ", text.as_str()),
            AsrError::Io(text) => join("io error: ", text.as_str()),
        }
    }
}

/// An [`AsrError::InvalidInput`] with the given text.
pub(crate) fn invalid_input(text: &str) -> (error: AsrError)
    ensures
        error@ == ErrorView::InvalidInput(text@),
{
    AsrError::InvalidInput(text.to_owned())
}

/// An error reads as its text, behind what kind of failure it is; invalid input speaks
/// for itself.
pub proof fn errors_say_what_failed(error: AsrError)
    ensures
        error matches AsrError::InvalidInput(text) ==> error@.message() == text@,
        error matches AsrError::BackendLoad(text) ==> error@.message()
            == "failed to load ASR backend: "@ + text@,
        error matches AsrError::Transcription(text) ==> error@.message()
            == "ASR transcription failed: "@ + text@,
        error matches AsrError::Audio(text) ==> error@.message() == "audio error: "@ + text@,
        error matches AsrError::Io(text) ==> error@.message() == "io error: "@ + text@,
{
}

} // verus!
