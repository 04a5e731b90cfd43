//! The speech recognition backends and their names.

use vstd::prelude::*;

verus! {

/// Which recognizer does the work.
#[derive(Clone, Copy, Debug, PartialEq, Eq, Structural)]
pub enum AsrBackendKind {
    Whisper,
    Zipformer,
}

impl Default for AsrBackendKind {
    fn default() -> (kind: Self)
        ensures
            kind == AsrBackendKind::Whisper,
    {
        AsrBackendKind::Whisper
    }
}

impl AsrBackendKind {
    /// The name that stands for the backend on the command line.
    pub open spec fn name(self) -> Seq<char> {
        match self {
            AsrBackendKind::Whisper => "whisper"@,
            AsrBackendKind::Zipformer => "zipformer"@,
        }
    }
}

/// The name of a backend, as it is written on the command line.
pub fn backend_name(backend: AsrBackendKind) -> (name: &'static str)
    ensures
        name@ == backend.name(),
{
    match backend {
        AsrBackendKind::Whisper => "whisper",
        AsrBackendKind::Zipformer => "zipformer",
    }
}

/// No two backends share a name.
pub proof fn backend_names_differ(a: AsrBackendKind, b: AsrBackendKind)
    ensures
        a.name() == b.name() <==> a == b,
{
    reveal_strlit("whisper");
    reveal_strlit("zipformer");
    assert("whisper"@.len() != "zipformer"@.len());
}

/// The backends are called by these names.
pub proof fn backends_are_called_by_name()
    ensures
        AsrBackendKind::Whisper.name() == "whisper"@,
        AsrBackendKind::Zipformer.name() == "zipformer"@,
{
}

} // verus!
