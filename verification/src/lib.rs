//! Speech to text: the rules of the `airs-asr` program and its backends.

use vstd::prelude::*;

pub mod audio;
pub mod audio_laws;
pub mod backend;
pub mod backend_kind;
pub mod call_laws;
pub mod cli;
pub mod cli_laws;
pub mod error;
pub mod model;
pub mod model_laws;
pub mod outbox;
pub mod pipe;
pub mod pipe_laws;
pub mod processor;
pub mod processor_laws;
pub mod run_laws;
pub mod session_laws;
pub mod text;
pub mod whisper;
pub mod whisper_laws;
pub mod zipformer;
pub mod zipformer_laws;

pub use audio::AudioFrame;
pub use backend::AsrBackend;
pub use backend_kind::AsrBackendKind;
pub use error::AsrError;
pub use processor::Processor;

verus! {

/// The crate version string.
pub fn version() -> (text: &'static str)
    ensures
        text@ == "0.1.0"@,
{
    "0.1.0"
}

} // verus!
