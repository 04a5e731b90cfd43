//! The course of one run of `pipe`: load, record, recognize, write.

use vstd::prelude::*;

use crate::backend_kind::AsrBackendKind;
use crate::cli::{PipeOptions, SourceSpec, TargetSpec};
use crate::text::join;

verus! {

/// What a user at a microphone is told before the recording.
pub const PRESS_TO_START: &'static str = "Press Enter to start recording.";

/// What a user at a microphone is told during the recording.
pub const PRESS_TO_STOP: &'static str = "Recording. Press Enter to stop.";

/// What a run waits for.
pub enum PipeState {
    /// The backend to be loaded.
    Loading,
    /// The user to start the recording.
    AwaitingStart,
    /// The source to be opened.
    OpeningInput,
    /// The recording to be started.
    StartingInput,
    /// Word on whether the user stopped the recording.
    CheckingStop,
    /// The next frame of the source.
    ReadingFrame,
    /// A frame to be taken in.
    Sending,
    /// The processor to be closed.
    Closing,
    /// The next text.
    ReadingResult,
    /// A text to be written to a target.
    Writing { output: usize, text: String },
    /// A target to be closed.
    ClosingOutput { output: usize },
    /// Nothing: the run is over.
    Finished,
    /// Nothing: the run broke off.
    Failed,
}

/// What came of an action. `F` is a frame of audio, `E` an error.
pub enum PipeEvent<F, E> {
    Done,
    Failed(E),
    Stop(bool),
    Frame(Option<F>),
    Text(Option<String>),
}

/// What is to be done next.
pub enum PipeAction<F, E> {
    /// Load the backend of this kind.
    LoadBackend(AsrBackendKind),
    /// Tell the user [`PRESS_TO_START`] and wait for the key.
    WaitForEnter,
    /// Open this source.
    OpenInput(SourceSpec),
    /// Start the recording, tell the user [`PRESS_TO_STOP`] and listen for the key.
    StartInput,
    /// See whether the key was pressed.
    CheckStop,
    /// Read a frame of the source.
    ReadFrame,
    /// Send the frame to the processor.
    Send(F),
    /// Close the processor.
    CloseProcessor,
    /// Read a text from the processor.
    ReadResult,
    /// Write the text to a target.
    Write { output: usize, text: String },
    /// Close a target.
    CloseOutput(usize),
    /// End the run.
    Exit,
    /// Break the run off with the error.
    Fail(E),
    /// Nothing.
    Idle,
}

/// One run of `pipe`.
pub struct PipeSession {
    pub source: SourceSpec,
    pub backend: AsrBackendKind,
    /// The number of targets.
    pub outputs: usize,
    pub state: PipeState,
}

impl PipeSession {
    /// The source is a device.
    pub open spec fn device(self) -> bool {
        self.source is Device
    }

    /// `after` is the same run in another state.
    pub open spec fn is_continued_by(self, after: Self) -> bool {
        after == (PipeSession { state: after.state, ..self })
    }

    /// The run expects something to come of its last action.
    pub open spec fn is_under_way(self) -> bool {
        !(self.state is Finished || self.state is Failed)
    }

    /// Where the next frame is asked for: behind word from the user, at a device.
    pub open spec fn on_to_frame<F, E>(self) -> (PipeState, PipeAction<F, E>) {
        if self.device() {
            (PipeState::CheckingStop, PipeAction::CheckStop)
        } else {
            (PipeState::ReadingFrame, PipeAction::ReadFrame)
        }
    }

    /// Where a text goes next: to the target `output`, or nowhere any more.
    pub open spec fn on_to_output<F, E>(self, output: int, text: String) -> (
        PipeState,
        PipeAction<F, E>,
    ) {
        if output < self.outputs {
            (
                PipeState::Writing { output: output as usize, text },
                PipeAction::Write { output: output as usize, text },
            )
        } else {
            (PipeState::ReadingResult, PipeAction::ReadResult)
        }
    }

    /// Which target is closed next: `output`, or none any more.
    pub open spec fn on_to_closing<F, E>(self, output: int) -> (PipeState, PipeAction<F, E>) {
        if output < self.outputs {
            (
                PipeState::ClosingOutput { output: output as usize },
                PipeAction::CloseOutput(output as usize),
            )
        } else {
            (PipeState::Finished, PipeAction::Exit)
        }
    }

    /// What a run is to begin with, while it has not begun.
    pub open spec fn opening<F, E>(self) -> PipeAction<F, E> {
        if self.state is Loading {
            PipeAction::LoadBackend(self.backend)
        } else {
            PipeAction::Idle
        }
    }

    /// The state behind an event, and what is to be done then. A failure breaks the run
    /// off; an event that nothing waits for is passed over.
    pub open spec fn follow<F, E>(self, event: PipeEvent<F, E>) -> (PipeState, PipeAction<F, E>) {
        match (self.state, event) {
            (PipeState::Finished, _) => (self.state, PipeAction::Idle),
            (PipeState::Failed, _) => (self.state, PipeAction::Idle),
            (_, PipeEvent::Failed(error)) => (PipeState::Failed, PipeAction::Fail(error)),
            (PipeState::Loading, PipeEvent::Done) => if self.device() {
                (PipeState::AwaitingStart, PipeAction::WaitForEnter)
            } else {
                (PipeState::OpeningInput, PipeAction::OpenInput(self.source))
            },
            (PipeState::AwaitingStart, PipeEvent::Done) => {
                (PipeState::OpeningInput, PipeAction::OpenInput(self.source))
            },
            (PipeState::OpeningInput, PipeEvent::Done) => if self.device() {
                (PipeState::StartingInput, PipeAction::StartInput)
            } else {
                self.on_to_frame()
            },
            (PipeState::StartingInput, PipeEvent::Done) => self.on_to_frame(),
            (PipeState::CheckingStop, PipeEvent::Stop(true)) => {
                (PipeState::Closing, PipeAction::CloseProcessor)
            },
            (PipeState::CheckingStop, PipeEvent::Stop(false)) => {
                (PipeState::ReadingFrame, PipeAction::ReadFrame)
            },
            (PipeState::ReadingFrame, PipeEvent::Frame(Some(frame))) => {
                (PipeState::Sending, PipeAction::Send(frame))
            },
            (PipeState::ReadingFrame, PipeEvent::Frame(None)) => {
                (PipeState::Closing, PipeAction::CloseProcessor)
            },
            (PipeState::Sending, PipeEvent::Done) => self.on_to_frame(),
            (PipeState::Closing, PipeEvent::Done) => {
                (PipeState::ReadingResult, PipeAction::ReadResult)
            },
            (PipeState::ReadingResult, PipeEvent::Text(Some(text))) => self.on_to_output(0, text),
            (PipeState::ReadingResult, PipeEvent::Text(None)) => self.on_to_closing(0),
            (PipeState::Writing { output, text }, PipeEvent::Done) => self.on_to_output(
                output + 1,
                text,
            ),
            (PipeState::ClosingOutput { output }, PipeEvent::Done) => self.on_to_closing(
                output + 1,
            ),
            _ => (self.state, PipeAction::Idle),
        }
    }

    /// A new run, which begins with what [`PipeSession::start`] says.
    pub fn new(options: &PipeOptions) -> (session: Self)
        ensures
            session.source == options.source,
            session.backend == options.backend,
            session.outputs == options.targets@.len(),
            session.state is Loading,
            session.wf(),
    {
        PipeSession {
            source: options.source.clone(),
            backend: options.backend,
            outputs: options.targets.len(),
            state: PipeState::Loading,
        }
    }

    /// The first action of a run: to load the backend that was asked for.
    pub fn start<F, E>(&self) -> (action: PipeAction<F, E>)
        ensures
            action == self.opening::<F, E>(),
    {
        match &self.state {
            PipeState::Loading => PipeAction::LoadBackend(self.backend),
            _ => PipeAction::Idle,
        }
    }

    /// Whether the source is a device.
    fn is_device(&self) -> (device: bool)
        ensures
            device == self.device(),
    {
        match &self.source {
            SourceSpec::Device(_) => true,
            SourceSpec::File(_) => false,
        }
    }

    fn go<F, E>(&mut self, state: PipeState, action: PipeAction<F, E>) -> (done: PipeAction<F, E>)
        ensures
            final(self).state == state,
            old(self).is_continued_by(*final(self)),
            done == action,
    {
        self.state = state;
        action
    }

    fn go_to_input<F, E>(&mut self) -> (action: PipeAction<F, E>)
        ensures
            final(self).state is OpeningInput,
            action == PipeAction::<F, E>::OpenInput(old(self).source),
            old(self).is_continued_by(*final(self)),
    {
        let source = self.source.clone();
        self.go(PipeState::OpeningInput, PipeAction::OpenInput(source))
    }

    fn go_to_frame<F, E>(&mut self) -> (action: PipeAction<F, E>)
        ensures
            (final(self).state, action) == old(self).on_to_frame::<F, E>(),
            old(self).is_continued_by(*final(self)),
    {
        if self.is_device() {
            self.go(PipeState::CheckingStop, PipeAction::CheckStop)
        } else {
            self.go(PipeState::ReadingFrame, PipeAction::ReadFrame)
        }
    }

    fn go_to_output<F, E>(&mut self, output: usize, text: String) -> (action: PipeAction<F, E>)
        ensures
            (final(self).state, action) == old(self).on_to_output::<F, E>(output as int, text),
            old(self).is_continued_by(*final(self)),
    {
        if output < self.outputs {
            let copy = text.clone();
            self.go(PipeState::Writing { output, text }, PipeAction::Write { output, text: copy })
        } else {
            self.go(PipeState::ReadingResult, PipeAction::ReadResult)
        }
    }

    fn go_to_closing<F, E>(&mut self, output: usize) -> (action: PipeAction<F, E>)
        ensures
            (final(self).state, action) == old(self).on_to_closing::<F, E>(output as int),
            old(self).is_continued_by(*final(self)),
    {
        if output < self.outputs {
            self.go(PipeState::ClosingOutput { output }, PipeAction::CloseOutput(output))
        } else {
            self.go(PipeState::Finished, PipeAction::Exit)
        }
    }

    /// The outputs that the state speaks of exist, and only a run at a device waits for
    /// its user.
    pub open spec fn wf(self) -> bool {
        &&& self.state matches PipeState::Writing { output, .. } ==> output < self.outputs
        &&& self.state matches PipeState::ClosingOutput { output } ==> output < self.outputs
        &&& !self.device() ==> !(self.state is AwaitingStart || self.state is StartingInput
            || self.state is CheckingStop)
    }

    /// Takes in what came of the last action and says what is to be done next.
    pub fn step<F, E>(&mut self, event: PipeEvent<F, E>) -> (action: PipeAction<F, E>)
        requires
            old(self).wf(),
        ensures
            final(self).wf(),
            (final(self).state, action) == old(self).follow(event),
            old(self).is_continued_by(*final(self)),
    {
        let mut state = PipeState::Failed;
        std::mem::swap(&mut state, &mut self.state);
        match (state, event) {
            (PipeState::Finished, _) => self.go(PipeState::Finished, PipeAction::Idle),
            (PipeState::Failed, _) => PipeAction::Idle,
            (_, PipeEvent::Failed(error)) => PipeAction::Fail(error),
            (PipeState::Loading, PipeEvent::Done) => {
                if self.is_device() {
                    self.go(PipeState::AwaitingStart, PipeAction::WaitForEnter)
                } else {
                    self.go_to_input()
                }
            },
            (PipeState::AwaitingStart, PipeEvent::Done) => self.go_to_input(),
            (PipeState::OpeningInput, PipeEvent::Done) => {
                if self.is_device() {
                    self.go(PipeState::StartingInput, PipeAction::StartInput)
                } else {
                    self.go_to_frame()
                }
            },
            (PipeState::StartingInput, PipeEvent::Done) => self.go_to_frame(),
            (PipeState::CheckingStop, PipeEvent::Stop(true)) => self.go(
                PipeState::Closing,
                PipeAction::CloseProcessor,
            ),
            (PipeState::CheckingStop, PipeEvent::Stop(false)) => self.go(
                PipeState::ReadingFrame,
                PipeAction::ReadFrame,
            ),
            (PipeState::ReadingFrame, PipeEvent::Frame(Some(frame))) => self.go(
                PipeState::Sending,
                PipeAction::Send(frame),
            ),
            (PipeState::ReadingFrame, PipeEvent::Frame(None)) => self.go(
                PipeState::Closing,
                PipeAction::CloseProcessor,
            ),
            (PipeState::Sending, PipeEvent::Done) => self.go_to_frame(),
            (PipeState::Closing, PipeEvent::Done) => self.go(
                PipeState::ReadingResult,
                PipeAction::ReadResult,
            ),
            (PipeState::ReadingResult, PipeEvent::Text(Some(text))) => self.go_to_output(0, text),
            (PipeState::ReadingResult, PipeEvent::Text(None)) => self.go_to_closing(0),
            (PipeState::Writing { output, text }, PipeEvent::Done) => self.go_to_output(
                output + 1,
                text,
            ),
            (PipeState::ClosingOutput { output }, PipeEvent::Done) => self.go_to_closing(
                output + 1,
            ),
            (state, _) => self.go(state, PipeAction::Idle),
        }
    }
}

/// What is to be done to send a line to a target.
pub enum LineAction {
    /// Print the line on standard output.
    Print(String),
    /// Create the file, report it to [`TextSink::opened`], and append the line.
    CreateAndAppend { path: String, line: String },
    /// Append the line to the open file.
    Append(String),
}

/// A target, with its file `H` once that is open.
pub struct TextSink<H> {
    pub target: TargetSpec,
    pub file: Option<H>,
}

impl LineAction {
    /// The line that the action writes.
    pub open spec fn line(self) -> Seq<char> {
        match self {
            LineAction::Print(line) => line@,
            LineAction::CreateAndAppend { line, .. } => line@,
            LineAction::Append(line) => line@,
        }
    }
}

impl<H> TextSink<H> {
    /// A target that nothing was sent to yet.
    pub fn new(target: TargetSpec) -> (sink: Self)
        ensures
            sink.target == target,
            sink.file is None,
    {
        TextSink { target, file: None }
    }

    /// What sending a text comes to: the text and a line feed, on standard output or
    /// at the end of the file, which is created when the first text comes.
    pub open spec fn sends(self, item: Seq<char>, action: LineAction) -> bool {
        match self.target {
            TargetSpec::Stdout => {
                &&& action matches LineAction::Print(line)
                &&& line@ == item + "\n"@
            },
            TargetSpec::File(path) => if self.file is None {
                &&& action matches LineAction::CreateAndAppend { path: created, line }
                &&& created@ == path@
                &&& line@ == item + "\n"@
            } else {
                &&& action matches LineAction::Append(line)
                &&& line@ == item + "\n"@
            },
        }
    }

    /// Sends a text.
    pub fn start_send(&self, item: &str) -> (action: LineAction)
        ensures
            self.sends(item@, action),
    {
        let line = join(item, "\n");
        match &self.target {
            TargetSpec::Stdout => LineAction::Print(line),
            TargetSpec::File(path) => {
                if self.file.is_none() {
                    LineAction::CreateAndAppend { path: path.clone(), line }
                } else {
                    LineAction::Append(line)
                }
            },
        }
    }

    /// Takes over the file that was created.
    pub fn opened(&mut self, file: H)
        ensures
            final(self).target == old(self).target,
            final(self).file == Some(file),
    {
        self.file = Some(file);
    }

    /// The file that is to be flushed, if one is open.
    pub fn poll_flush(&mut self) -> (file: Option<&mut H>)
        ensures
            final(self).target == old(self).target,
            match old(self).file {
                Some(open) => {
                    &&& file is Some
                    &&& *file->0 == open
                    &&& final(self).file == Some(*final(file->0))
                },
                None => file is None && final(self).file is None,
            },
    {
        self.file.as_mut()
    }

    /// Closing turns `self` into `after` and hands out `file`.
    pub open spec fn closes(self, after: Self, file: Option<H>) -> bool {
        &&& file == self.file
        &&& after.file is None
        &&& after.target == self.target
    }

    /// The file that is to be flushed and let go of, if one is open.
    pub fn poll_close(&mut self) -> (file: Option<H>)
        ensures
            old(self).closes(*final(self), file),
    {
        self.file.take()
    }
}

/// The targets of a run, none of which anything was sent to yet.
pub fn text_sinks<H>(targets: &Vec<TargetSpec>) -> (sinks: Vec<TextSink<H>>)
    ensures
        sinks@.len() == targets@.len(),
        forall|i: int|
            0 <= i < sinks@.len() ==> (#[trigger] sinks@[i]).target == targets@[i]
                && sinks@[i].file is None,
{
    let mut sinks: Vec<TextSink<H>> = Vec::new();
    let mut i: usize = 0;
    while i < targets.len()
        invariant
            i <= targets@.len(),
            sinks@.len() == i,
            forall|j: int|
                0 <= j < i ==> (#[trigger] sinks@[j]).target == targets@[j]
                    && sinks@[j].file is None,
        decreases targets.len() - i,
    {
        sinks.push(TextSink::new(targets[i].clone()));
        i = i + 1;
    }
    sinks
}

} // verus!
