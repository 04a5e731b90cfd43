# airs-asr

Speech to text on the command line, and the library behind it. What the library
decides is stated in contracts and proved with [Verus](https://github.com/verus-lang/verus).

## Command line

- `airs-asr --help` shows help.
- `airs-asr --version` shows the version.
- `airs-asr pipe -i <source> -o <target> [-o <target>...] [--backend <name>]`
  transcribes speech.

`-i` is required once, `-o` at least once. Sources are `file:<path>`, `device` and
`device:<name>`; targets are `file:<path>` and `stdout`; backends are `whisper` and
`zipformer`.

```
airs-asr pipe -i file:speech.wav -o stdout
airs-asr pipe -i device -o file:transcript.txt
airs-asr pipe -i device:Yeti -o file:out.txt -o stdout
```

## Public API

What callers of the program's `Sink` and `Stream` work with stands in `app/`; what it
decides stands in the library under the same names.

- `version()` returns the crate version.
- `AsrError` is the error of invalid input, backend load, transcription, audio and I/O.
- `Processor` is the speech-to-text processor with chainable backend configuration. In
  `app/` it is a `Sink` of audio frames and a `Stream` of text.
  - `Processor::new()` makes one with the default backend.
  - `Processor::set_backend(kind)` chooses the backend.
  - `Processor::init(..)` loads the chosen backend before transcription. In the library
    it hands out the backend, and `init_whisper` or `init_zipformer` takes its recognizer.
  - `Processor::process(audio)` transcribes a single frame. In the library it says what
    the recognizer is to be run on, and `transcription` reads the answer.
  - `Processor::is_ready()` says whether the chosen backend has been loaded.
- `AsrBackendKind` is `Whisper` or `Zipformer`.
- `AsrBackend` is the trait of the streaming backends.

## Layout

- `src/` is the verified library. It runs no recognizer, opens no file and waits for
  nobody: it says what is to be done next and is told what came of it.
  - `cli` reads the command line, `pipe` leads through a run.
  - `processor` holds one of the two backends, `whisper` and `zipformer`; `backend` is
    what they have in common.
  - `audio` mixes frames down, `outbox` keeps results for their reader, `model` finds
    model files.
  - the modules whose names end in `_laws` state what holds of whole courses of events.
- `app/` is the program around it: audio devices, files, the recognizers of
  sherpa-onnx, and the `Sink` and `Stream` that callers see.
- `tests/` runs the library on examples.
