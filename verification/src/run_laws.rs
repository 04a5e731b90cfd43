//! What a run of `pipe` does with what it is told, from its start to its end.

use vstd::prelude::*;

use crate::pipe::{PipeAction, PipeEvent, PipeSession, PipeState};
use crate::pipe_laws::{are_steps, is_step};

verus! {

/// What was asked for last, before event `i`: the last action that was one, and in the
/// beginning to load the backend.
pub open spec fn asked<F, E>(
    runs: Seq<PipeSession>,
    actions: Seq<PipeAction<F, E>>,
    i: int,
) -> PipeAction<F, E>
    decreases i,
{
    if i <= 0 {
        PipeAction::LoadBackend(runs[0].backend)
    } else if actions[i - 1] is Idle {
        asked(runs, actions, i - 1)
    } else {
        actions[i - 1]
    }
}

/// The events lead a run from its start on.
pub open spec fn is_run<F, E>(
    runs: Seq<PipeSession>,
    events: Seq<PipeEvent<F, E>>,
    actions: Seq<PipeAction<F, E>>,
) -> bool {
    &&& are_steps(runs, events, actions)
    &&& runs[0].wf()
    &&& runs[0].state is Loading
}

/// The state is the one in which the action is waited for.
spec fn waits_for<F, E>(run: PipeSession, action: PipeAction<F, E>) -> bool {
    match run.state {
        PipeState::Loading => action is LoadBackend,
        PipeState::AwaitingStart => action is WaitForEnter,
        PipeState::OpeningInput => action is OpenInput,
        PipeState::StartingInput => action is StartInput,
        PipeState::CheckingStop => action is CheckStop,
        PipeState::ReadingFrame => action is ReadFrame,
        PipeState::Sending => action is Send,
        PipeState::Closing => action is CloseProcessor,
        PipeState::ReadingResult => action is ReadResult,
        PipeState::Writing { output, text } => action == PipeAction::<F, E>::Write {
            output,
            text,
        },
        PipeState::ClosingOutput { output } => action == PipeAction::<F, E>::CloseOutput(output),
        PipeState::Finished => action is Exit,
        PipeState::Failed => action is Fail,
    }
}

proof fn runs_wait_for_what_they_asked<F, E>(
    runs: Seq<PipeSession>,
    events: Seq<PipeEvent<F, E>>,
    actions: Seq<PipeAction<F, E>>,
    n: int,
)
    requires
        is_run(runs, events, actions),
        0 <= n < runs.len(),
    ensures
        runs[n].wf(),
        runs[0].is_continued_by(runs[n]),
        waits_for(runs[n], asked(runs, actions, n)),
    decreases n,
{
    if n > 0 {
        runs_wait_for_what_they_asked(runs, events, actions, n - 1);
        assert(is_step(runs, events, actions, n - 1));
    }
}

/// A run on a file opens it and reads. A run at a device first waits for the user,
/// starts the recording, and sees whether it was stopped.
pub proof fn runs_begin_as_the_source_asks<F, E>(
    runs: Seq<PipeSession>,
    events: Seq<PipeEvent<F, E>>,
    actions: Seq<PipeAction<F, E>>,
    i: int,
)
    requires
        is_run(runs, events, actions),
        0 <= i < events.len(),
        events[i] is Done,
    ensures
        asked(runs, actions, i) is LoadBackend && runs[0].source is Device ==> actions[i]
            is WaitForEnter,
        asked(runs, actions, i) is LoadBackend && runs[0].source is File ==> actions[i]
            == PipeAction::<F, E>::OpenInput(runs[0].source),
        asked(runs, actions, i) is WaitForEnter ==> actions[i] == PipeAction::<F, E>::OpenInput(
            runs[0].source,
        ),
        asked(runs, actions, i) is OpenInput && runs[0].source is Device ==> actions[i]
            is StartInput,
        asked(runs, actions, i) is OpenInput && runs[0].source is File ==> actions[i]
            is ReadFrame,
        asked(runs, actions, i) is StartInput ==> actions[i] is CheckStop,
{
    runs_wait_for_what_they_asked(runs, events, actions, i);
    assert(is_step(runs, events, actions, i));
}

/// The processor is closed for two reasons and no other: the source is at its end, or
/// the user of a device stopped the recording. Both do close it.
pub proof fn only_an_end_closes_the_processor<F, E>(
    runs: Seq<PipeSession>,
    events: Seq<PipeEvent<F, E>>,
    actions: Seq<PipeAction<F, E>>,
    i: int,
)
    requires
        is_run(runs, events, actions),
        0 <= i < events.len(),
    ensures
        actions[i] is CloseProcessor <==> {
            ||| asked(runs, actions, i) is ReadFrame && events[i] == PipeEvent::<F, E>::Frame(None)
            ||| asked(runs, actions, i) is CheckStop && events[i] == PipeEvent::<F, E>::Stop(true)
        },
        asked(runs, actions, i) is CheckStop ==> runs[0].source is Device,
{
    runs_wait_for_what_they_asked(runs, events, actions, i);
    assert(is_step(runs, events, actions, i));
}

/// Behind every frame that was sent the run goes on to the next one, at a device by
/// way of the user. Every frame that is read is sent, that very frame, and none
/// else is.
pub proof fn frames_follow_one_another<F, E>(
    runs: Seq<PipeSession>,
    events: Seq<PipeEvent<F, E>>,
    actions: Seq<PipeAction<F, E>>,
    i: int,
    frame: F,
)
    requires
        is_run(runs, events, actions),
        0 <= i < events.len(),
    ensures
        asked(runs, actions, i) is Send && events[i] is Done && runs[0].source is File
            ==> actions[i] is ReadFrame,
        asked(runs, actions, i) is Send && events[i] is Done && runs[0].source is Device
            ==> actions[i] is CheckStop,
        asked(runs, actions, i) is CheckStop && events[i] == PipeEvent::<F, E>::Stop(false)
            ==> actions[i] is ReadFrame,
        actions[i] == PipeAction::<F, E>::Send(frame) <==> {
            &&& asked(runs, actions, i) is ReadFrame
            &&& events[i] == PipeEvent::<F, E>::Frame(Some(frame))
        },
{
    runs_wait_for_what_they_asked(runs, events, actions, i);
    assert(is_step(runs, events, actions, i));
}

/// Text is asked for once the processor is closed. Each text goes to the first target,
/// then to the next, and behind the last one the next text is asked for.
pub proof fn texts_go_round_the_targets<F, E>(
    runs: Seq<PipeSession>,
    events: Seq<PipeEvent<F, E>>,
    actions: Seq<PipeAction<F, E>>,
    i: int,
    output: usize,
    text: String,
)
    requires
        is_run(runs, events, actions),
        0 <= i < events.len(),
    ensures
        asked(runs, actions, i) is CloseProcessor && events[i] is Done ==> actions[i]
            is ReadResult,
        asked(runs, actions, i) is ReadResult && events[i] == PipeEvent::<F, E>::Text(Some(text))
            ==> if runs[0].outputs > 0 {
            actions[i] == PipeAction::<F, E>::Write { output: 0, text }
        } else {
            actions[i] is ReadResult
        },
        asked(runs, actions, i) == (PipeAction::<F, E>::Write { output, text })
            && events[i] is Done ==> if output + 1 < runs[0].outputs {
            actions[i] == PipeAction::<F, E>::Write { output: (output + 1) as usize, text }
        } else {
            actions[i] is ReadResult
        },
        actions[i] is Write ==> asked(runs, actions, i) is ReadResult || asked(
            runs,
            actions,
            i,
        ) is Write,
{
    runs_wait_for_what_they_asked(runs, events, actions, i);
    assert(is_step(runs, events, actions, i));
}

/// Only the end of the text closes the targets, one after the other, and behind the
/// last one the run ends.
pub proof fn the_end_of_text_closes_the_targets<F, E>(
    runs: Seq<PipeSession>,
    events: Seq<PipeEvent<F, E>>,
    actions: Seq<PipeAction<F, E>>,
    i: int,
    output: usize,
)
    requires
        is_run(runs, events, actions),
        0 <= i < events.len(),
    ensures
        asked(runs, actions, i) is ReadResult && events[i] == PipeEvent::<F, E>::Text(None)
            ==> if runs[0].outputs > 0 {
            actions[i] == PipeAction::<F, E>::CloseOutput(0)
        } else {
            actions[i] is Exit
        },
        asked(runs, actions, i) == PipeAction::<F, E>::CloseOutput(output) && events[i] is Done
            ==> if output + 1 < runs[0].outputs {
            actions[i] == PipeAction::<F, E>::CloseOutput((output + 1) as usize)
        } else {
            actions[i] is Exit
        },
        actions[i] is Exit || actions[i] is CloseOutput ==> {
            ||| asked(runs, actions, i) is CloseOutput && events[i] is Done
            ||| asked(runs, actions, i) is ReadResult && events[i] == PipeEvent::<F, E>::Text(None)
        },
{
    runs_wait_for_what_they_asked(runs, events, actions, i);
    assert(is_step(runs, events, actions, i));
}

/// The event is one that can come of the action.
pub open spec fn can_come_of<F, E>(action: PipeAction<F, E>, event: PipeEvent<F, E>) -> bool {
    match event {
        PipeEvent::Failed(_) => true,
        PipeEvent::Stop(_) => action is CheckStop,
        PipeEvent::Frame(_) => action is ReadFrame,
        PipeEvent::Text(_) => action is ReadResult,
        PipeEvent::Done => !(action is CheckStop || action is ReadFrame || action is ReadResult),
    }
}

/// A run fails for a failure and for nothing else, and with that very failure. Once it
/// has ended or failed, nothing more is asked for; and what cannot come of the last
/// action asks for nothing either.
pub proof fn runs_fail_for_failures_alone<F, E>(
    runs: Seq<PipeSession>,
    events: Seq<PipeEvent<F, E>>,
    actions: Seq<PipeAction<F, E>>,
    i: int,
    error: E,
)
    requires
        is_run(runs, events, actions),
        0 <= i < events.len(),
    ensures
        actions[i] == PipeAction::<F, E>::Fail(error) <==> {
            &&& events[i] == PipeEvent::<F, E>::Failed(error)
            &&& !(asked(runs, actions, i) is Exit || asked(runs, actions, i) is Fail)
        },
        actions[i] is Idle <==> {
            ||| asked(runs, actions, i) is Exit
            ||| asked(runs, actions, i) is Fail
            ||| !can_come_of(asked(runs, actions, i), events[i])
        },
{
    runs_wait_for_what_they_asked(runs, events, actions, i);
    assert(is_step(runs, events, actions, i));
}

proof fn files_are_read_on<F, E>(
    runs: Seq<PipeSession>,
    events: Seq<PipeEvent<F, E>>,
    actions: Seq<PipeAction<F, E>>,
    frames: Seq<F>,
    k: int,
)
    requires
        is_run(runs, events, actions),
        runs[0].source is File,
        events.len() == 2 * frames.len() + 3,
        events[0] is Done,
        events[1] is Done,
        forall|i: int|
            0 <= i < frames.len() ==> events[2 * i + 2] == PipeEvent::<F, E>::Frame(
                Some(#[trigger] frames[i]),
            ) && events[2 * i + 3] is Done,
        0 <= k <= frames.len(),
    ensures
        actions[2 * k + 1] is ReadFrame,
        k < frames.len() ==> actions[2 * k + 2] == PipeAction::<F, E>::Send(frames[k]),
    decreases k,
{
    if k == 0 {
        runs_begin_as_the_source_asks(runs, events, actions, 0);
        runs_begin_as_the_source_asks(runs, events, actions, 1);
    } else {
        files_are_read_on(runs, events, actions, frames, k - 1);
        let sent = frames[k - 1];
        assert(actions[2 * k] == PipeAction::<F, E>::Send(sent));
        assert(asked(runs, actions, 2 * k + 1) == actions[2 * k]);
        assert(events[2 * (k - 1) + 3] is Done);
        frames_follow_one_another(runs, events, actions, 2 * k + 1, sent);
    }
    if k < frames.len() {
        assert(asked(runs, actions, 2 * k + 2) == actions[2 * k + 1]);
        frames_follow_one_another(runs, events, actions, 2 * k + 2, frames[k]);
    }
}

/// A file is read to its end, however many frames it has: each of them, as frame `k`
/// here, is read and sent in its turn, and only then is the processor closed.
pub proof fn files_are_read_to_their_end<F, E>(
    runs: Seq<PipeSession>,
    events: Seq<PipeEvent<F, E>>,
    actions: Seq<PipeAction<F, E>>,
    frames: Seq<F>,
    k: int,
)
    requires
        is_run(runs, events, actions),
        runs[0].source is File,
        events.len() == 2 * frames.len() + 3,
        events[0] is Done,
        events[1] is Done,
        forall|i: int|
            0 <= i < frames.len() ==> events[2 * i + 2] == PipeEvent::<F, E>::Frame(
                Some(#[trigger] frames[i]),
            ) && events[2 * i + 3] is Done,
        events.last() == PipeEvent::<F, E>::Frame(None),
    ensures
        actions[0] == PipeAction::<F, E>::OpenInput(runs[0].source),
        0 <= k < frames.len() ==> {
            &&& actions[2 * k + 1] is ReadFrame
            &&& actions[2 * k + 2] == PipeAction::<F, E>::Send(frames[k])
        },
        actions[actions.len() - 2] is ReadFrame,
        actions.last() is CloseProcessor,
{
    let m = frames.len() as int;
    runs_begin_as_the_source_asks(runs, events, actions, 0);
    if 0 <= k < m {
        files_are_read_on(runs, events, actions, frames, k);
    }
    files_are_read_on(runs, events, actions, frames, m);
    assert(asked(runs, actions, 2 * m + 2) == actions[2 * m + 1]);
    only_an_end_closes_the_processor(runs, events, actions, 2 * m + 2);
}

proof fn devices_are_read_on<F, E>(
    runs: Seq<PipeSession>,
    events: Seq<PipeEvent<F, E>>,
    actions: Seq<PipeAction<F, E>>,
    frames: Seq<F>,
    k: int,
)
    requires
        is_run(runs, events, actions),
        runs[0].source is Device,
        events.len() == 3 * frames.len() + 5,
        forall|i: int| 0 <= i < 4 ==> #[trigger] events[i] is Done,
        forall|i: int|
            0 <= i < frames.len() ==> {
                &&& events[3 * i + 4] == PipeEvent::<F, E>::Stop(false)
                &&& events[3 * i + 5] == PipeEvent::<F, E>::Frame(Some(#[trigger] frames[i]))
                &&& events[3 * i + 6] is Done
            },
        0 <= k <= frames.len(),
    ensures
        actions[3 * k + 3] is CheckStop,
        k < frames.len() ==> {
            &&& actions[3 * k + 4] is ReadFrame
            &&& actions[3 * k + 5] == PipeAction::<F, E>::Send(frames[k])
        },
    decreases k,
{
    if k == 0 {
        assert(events[0] is Done && events[1] is Done && events[2] is Done && events[3] is Done);
        runs_begin_as_the_source_asks(runs, events, actions, 0);
        runs_begin_as_the_source_asks(runs, events, actions, 1);
        runs_begin_as_the_source_asks(runs, events, actions, 2);
        runs_begin_as_the_source_asks(runs, events, actions, 3);
    } else {
        devices_are_read_on(runs, events, actions, frames, k - 1);
        let sent = frames[k - 1];
        assert(asked(runs, actions, 3 * k + 3) == actions[3 * k + 2]);
        assert(events[3 * (k - 1) + 6] is Done);
        frames_follow_one_another(runs, events, actions, 3 * k + 3, sent);
    }
    if k < frames.len() {
        let frame = frames[k];
        assert(asked(runs, actions, 3 * k + 4) == actions[3 * k + 3]);
        frames_follow_one_another(runs, events, actions, 3 * k + 4, frame);
        assert(asked(runs, actions, 3 * k + 5) == actions[3 * k + 4]);
        frames_follow_one_another(runs, events, actions, 3 * k + 5, frame);
    }
}

/// A device is read for as long as the user lets it run, however many frames that
/// takes: each of them, as frame `k` here, is read and sent in its turn, and the
/// processor is closed when the user stops the recording.
pub proof fn devices_are_read_until_they_are_stopped<F, E>(
    runs: Seq<PipeSession>,
    events: Seq<PipeEvent<F, E>>,
    actions: Seq<PipeAction<F, E>>,
    frames: Seq<F>,
    k: int,
)
    requires
        is_run(runs, events, actions),
        runs[0].source is Device,
        events.len() == 3 * frames.len() + 5,
        forall|i: int| 0 <= i < 4 ==> #[trigger] events[i] is Done,
        forall|i: int|
            0 <= i < frames.len() ==> {
                &&& events[3 * i + 4] == PipeEvent::<F, E>::Stop(false)
                &&& events[3 * i + 5] == PipeEvent::<F, E>::Frame(Some(#[trigger] frames[i]))
                &&& events[3 * i + 6] is Done
            },
        events.last() == PipeEvent::<F, E>::Stop(true),
    ensures
        actions[0] is WaitForEnter,
        actions[1] == PipeAction::<F, E>::OpenInput(runs[0].source),
        actions[2] is StartInput,
        0 <= k < frames.len() ==> {
            &&& actions[3 * k + 3] is CheckStop
            &&& actions[3 * k + 4] is ReadFrame
            &&& actions[3 * k + 5] == PipeAction::<F, E>::Send(frames[k])
        },
        actions.last() is CloseProcessor,
{
    let m = frames.len() as int;
    assert(events[0] is Done && events[1] is Done && events[2] is Done);
    runs_begin_as_the_source_asks(runs, events, actions, 0);
    runs_begin_as_the_source_asks(runs, events, actions, 1);
    runs_begin_as_the_source_asks(runs, events, actions, 2);
    if 0 <= k < m {
        devices_are_read_on(runs, events, actions, frames, k);
    }
    devices_are_read_on(runs, events, actions, frames, m);
    assert(asked(runs, actions, 3 * m + 4) == actions[3 * m + 3]);
    only_an_end_closes_the_processor(runs, events, actions, 3 * m + 4);
}

} // verus!
