//! What holds of every run of `pipe`.

use vstd::prelude::*;

use crate::cli::TargetSpec;
use crate::pipe::{LineAction, PipeAction, PipeEvent, PipeSession, PipeState, TextSink};

verus! {

/// Event `i` turns `runs[i]` into `runs[i + 1]` and calls for action `i`.
pub open spec fn is_step<F, E>(
    runs: Seq<PipeSession>,
    events: Seq<PipeEvent<F, E>>,
    actions: Seq<PipeAction<F, E>>,
    i: int,
) -> bool {
    &&& (runs[i + 1].state, actions[i]) == runs[i].follow(events[i])
    &&& runs[i].is_continued_by(runs[i + 1])
}

/// The events lead from each of the runs to the next.
pub open spec fn are_steps<F, E>(
    runs: Seq<PipeSession>,
    events: Seq<PipeEvent<F, E>>,
    actions: Seq<PipeAction<F, E>>,
) -> bool {
    &&& runs.len() == events.len() + 1
    &&& actions.len() == events.len()
    &&& forall|i: int| 0 <= i < events.len() ==> #[trigger] is_step(runs, events, actions, i)
}

/// How far a run has come: before the recording, in it, past it, past the last
/// text, at an end.
pub open spec fn phase(state: PipeState) -> int {
    match state {
        PipeState::Loading => 0,
        PipeState::AwaitingStart => 1,
        PipeState::OpeningInput => 2,
        PipeState::StartingInput => 3,
        PipeState::CheckingStop => 4,
        PipeState::ReadingFrame => 4,
        PipeState::Sending => 4,
        PipeState::Closing => 5,
        PipeState::ReadingResult => 6,
        PipeState::Writing { .. } => 6,
        PipeState::ClosingOutput { .. } => 7,
        PipeState::Finished => 8,
        PipeState::Failed => 8,
    }
}

/// A run never goes back: no audio is read once the processor is closed, and no text
/// before that; no target is closed while text may come.
pub proof fn runs_never_go_back<F, E>(
    runs: Seq<PipeSession>,
    events: Seq<PipeEvent<F, E>>,
    actions: Seq<PipeAction<F, E>>,
    i: int,
    j: int,
)
    requires
        are_steps(runs, events, actions),
        0 <= i <= j < runs.len(),
    ensures
        phase(runs[i].state) <= phase(runs[j].state),
    decreases j - i,
{
    if i < j {
        runs_never_go_back(runs, events, actions, i, j - 1);
        assert(is_step(runs, events, actions, j - 1));
    }
}

/// What an action says of how far the run has come when it is called for.
pub proof fn actions_fit_their_phase<F, E>(run: PipeSession, event: PipeEvent<F, E>)
    ensures
        run.follow(event).1 is ReadFrame || run.follow(event).1 is Send || run.follow(
            event,
        ).1 is CheckStop ==> phase(run.follow(event).0) == 4,
        run.follow(event).1 is CloseProcessor ==> phase(run.follow(event).0) == 5,
        run.follow(event).1 is ReadResult || run.follow(event).1 is Write ==> phase(
            run.follow(event).0,
        ) == 6,
        run.follow(event).1 is CloseOutput ==> phase(run.follow(event).0) == 7,
        run.follow(event).1 is Exit || run.follow(event).1 is Fail ==> phase(
            run.follow(event).0,
        ) == 8,
{
}

proof fn runs_stay_sound<F, E>(
    runs: Seq<PipeSession>,
    events: Seq<PipeEvent<F, E>>,
    actions: Seq<PipeAction<F, E>>,
    j: int,
)
    requires
        are_steps(runs, events, actions),
        runs[0].wf(),
        0 <= j < runs.len(),
    ensures
        runs[j].wf(),
        runs[0].is_continued_by(runs[j]),
    decreases j,
{
    if j > 0 {
        runs_stay_sound(runs, events, actions, j - 1);
        assert(is_step(runs, events, actions, j - 1));
    }
}

/// A run begins by loading the backend that was asked for, loads nothing else after
/// that, and opens the source that was asked for and no other.
pub proof fn runs_use_what_was_asked_for<F, E>(
    runs: Seq<PipeSession>,
    events: Seq<PipeEvent<F, E>>,
    actions: Seq<PipeAction<F, E>>,
    i: int,
)
    requires
        are_steps(runs, events, actions),
        runs[0].wf(),
        runs[0].state is Loading,
        0 <= i < actions.len(),
    ensures
        runs[0].opening::<F, E>() == PipeAction::<F, E>::LoadBackend(runs[0].backend),
        !(actions[i] is LoadBackend),
        actions[i] is OpenInput ==> actions[i] == PipeAction::<F, E>::OpenInput(runs[0].source),
{
    runs_stay_sound(runs, events, actions, i);
    assert(is_step(runs, events, actions, i));
}

/// Once the processor is closed, it is not closed again, no frame is read and none is
/// sent.
pub proof fn the_processor_is_closed_once<F, E>(
    runs: Seq<PipeSession>,
    events: Seq<PipeEvent<F, E>>,
    actions: Seq<PipeAction<F, E>>,
    i: int,
    j: int,
)
    requires
        are_steps(runs, events, actions),
        0 <= i < j < actions.len(),
        actions[i] is CloseProcessor,
    ensures
        !(actions[j] is CloseProcessor),
        !(actions[j] is Send || actions[j] is ReadFrame || actions[j] is CheckStop),
{
    assert(is_step(runs, events, actions, i));
    assert(is_step(runs, events, actions, j));
    runs_never_go_back(runs, events, actions, i + 1, j);
}

/// The processor was closed, and has nothing more to do with audio.
pub open spec fn is_past_audio(state: PipeState) -> bool {
    state is Closing || state is ReadingResult || state is Writing || state is ClosingOutput
        || state is Finished
}

proof fn closed_on_the_way<F, E>(
    runs: Seq<PipeSession>,
    events: Seq<PipeEvent<F, E>>,
    actions: Seq<PipeAction<F, E>>,
    n: int,
) -> (i: int)
    requires
        are_steps(runs, events, actions),
        runs[0].state is Loading,
        0 <= n < runs.len(),
        is_past_audio(runs[n].state),
    ensures
        0 <= i < n,
        actions[i] is CloseProcessor,
    decreases n,
{
    assert(is_step(runs, events, actions, n - 1));
    if is_past_audio(runs[n - 1].state) {
        closed_on_the_way(runs, events, actions, n - 1)
    } else {
        n - 1
    }
}

/// Text is read and written, targets are closed and the run ends only behind the close
/// of the processor, which comes at action `closed`; all audio is sent before it.
pub proof fn text_comes_behind_the_close<F, E>(
    runs: Seq<PipeSession>,
    events: Seq<PipeEvent<F, E>>,
    actions: Seq<PipeAction<F, E>>,
    j: int,
) -> (closed: int)
    requires
        are_steps(runs, events, actions),
        runs[0].state is Loading,
        0 <= j < actions.len(),
        actions[j] is ReadResult || actions[j] is Write || actions[j] is CloseOutput
            || actions[j] is Exit,
    ensures
        0 <= closed < j,
        actions[closed] is CloseProcessor,
        forall|i: int|
            0 <= i < actions.len() && (#[trigger] actions[i]) is CloseProcessor ==> i == closed,
        forall|i: int| 0 <= i < actions.len() && (#[trigger] actions[i]) is Send ==> i < closed,
{
    assert(is_step(runs, events, actions, j));
    let closed = closed_on_the_way(runs, events, actions, j + 1);
    assert forall|i: int|
        0 <= i < actions.len() && (#[trigger] actions[i]) is CloseProcessor implies i
        == closed by {
        if i < closed {
            the_processor_is_closed_once(runs, events, actions, i, closed);
        } else if closed < i {
            the_processor_is_closed_once(runs, events, actions, closed, i);
        }
    }
    assert forall|i: int| 0 <= i < actions.len() && (#[trigger] actions[i]) is Send implies i
        < closed by {
        if closed < i {
            the_processor_is_closed_once(runs, events, actions, closed, i);
        }
    }
    closed
}

/// A run on a file asks nothing of the user.
pub proof fn files_need_no_user<F, E>(
    runs: Seq<PipeSession>,
    events: Seq<PipeEvent<F, E>>,
    actions: Seq<PipeAction<F, E>>,
    i: int,
)
    requires
        are_steps(runs, events, actions),
        runs[0].wf(),
        !runs[0].device(),
        0 <= i < actions.len(),
    ensures
        !(actions[i] is WaitForEnter || actions[i] is StartInput || actions[i] is CheckStop),
{
    runs_stay_sound(runs, events, actions, i);
    assert(is_step(runs, events, actions, i));
}

/// A run at a device sees before every frame whether the user stopped the recording,
/// and reads no further frame once that is so.
pub proof fn devices_can_be_stopped<F, E>(run: PipeSession, event: PipeEvent<F, E>)
    requires
        run.wf(),
        run.device(),
    ensures
        run.follow(event).1 is ReadFrame ==> run.state is CheckingStop,
        run.state is CheckingStop && event == PipeEvent::<F, E>::Stop(true) ==> run.follow(
            event,
        ).1 is CloseProcessor,
{
}

/// Every text reaches every target: a text that was read is written to the targets
/// in their order, and only then the next one is read.
pub proof fn every_target_gets_every_text<F, E>(
    runs: Seq<PipeSession>,
    events: Seq<PipeEvent<F, E>>,
    actions: Seq<PipeAction<F, E>>,
    text: String,
    k: int,
)
    requires
        are_steps(runs, events, actions),
        runs[0].state is ReadingResult,
        events.len() == runs[0].outputs + 1,
        events[0] == PipeEvent::<F, E>::Text(Some(text)),
        forall|i: int| 1 <= i < events.len() ==> #[trigger] events[i] == PipeEvent::<F, E>::Done,
        0 <= k < events.len(),
    ensures
        k < runs[0].outputs ==> {
            &&& actions[k] == PipeAction::<F, E>::Write { output: k as usize, text }
            &&& runs[k + 1].state == PipeState::Writing { output: k as usize, text }
        },
        k == runs[0].outputs ==> {
            &&& actions[k] is ReadResult
            &&& runs[k + 1].state is ReadingResult
        },
        runs[k + 1].outputs == runs[0].outputs,
    decreases k,
{
    assert(is_step(runs, events, actions, k));
    if k > 0 {
        every_target_gets_every_text(runs, events, actions, text, k - 1);
        assert(events[k] == PipeEvent::<F, E>::Done);
    }
}

/// The frames among the first `n` events that a run was waiting for.
pub open spec fn frames_read<F, E>(
    runs: Seq<PipeSession>,
    events: Seq<PipeEvent<F, E>>,
    n: int,
) -> Seq<F>
    decreases n,
{
    if n <= 0 {
        Seq::empty()
    } else {
        let earlier = frames_read(runs, events, n - 1);
        match events[n - 1] {
            PipeEvent::Frame(Some(frame)) if runs[n - 1].state is ReadingFrame => earlier.push(
                frame,
            ),
            _ => earlier,
        }
    }
}

/// The frames that the first `n` actions send.
pub open spec fn frames_sent<F, E>(actions: Seq<PipeAction<F, E>>, n: int) -> Seq<F>
    decreases n,
{
    if n <= 0 {
        Seq::empty()
    } else {
        let earlier = frames_sent(actions, n - 1);
        match actions[n - 1] {
            PipeAction::Send(frame) => earlier.push(frame),
            _ => earlier,
        }
    }
}

/// The processor gets exactly the frames that were read, in their order.
pub proof fn every_frame_is_sent<F, E>(
    runs: Seq<PipeSession>,
    events: Seq<PipeEvent<F, E>>,
    actions: Seq<PipeAction<F, E>>,
    n: int,
)
    requires
        are_steps(runs, events, actions),
        0 <= n <= events.len(),
    ensures
        frames_sent(actions, n) == frames_read(runs, events, n),
    decreases n,
{
    if n > 0 {
        every_frame_is_sent(runs, events, actions, n - 1);
        assert(is_step(runs, events, actions, n - 1));
    }
}

/// The texts among the first `n` events that a run was waiting for.
pub open spec fn texts_read<F, E>(
    runs: Seq<PipeSession>,
    events: Seq<PipeEvent<F, E>>,
    n: int,
) -> Seq<String>
    decreases n,
{
    if n <= 0 {
        Seq::empty()
    } else {
        let earlier = texts_read(runs, events, n - 1);
        match events[n - 1] {
            PipeEvent::Text(Some(text)) if runs[n - 1].state is ReadingResult => earlier.push(
                text,
            ),
            _ => earlier,
        }
    }
}

/// The texts that the first `n` actions write to a target.
pub open spec fn texts_written<F, E>(
    actions: Seq<PipeAction<F, E>>,
    n: int,
    target: usize,
) -> Seq<String>
    decreases n,
{
    if n <= 0 {
        Seq::empty()
    } else {
        let earlier = texts_written(actions, n - 1, target);
        match actions[n - 1] {
            PipeAction::Write { output, text } if output == target => earlier.push(text),
            _ => earlier,
        }
    }
}

/// Every target gets exactly the texts that were read, in their order. While a text
/// is being handed round, the targets whose turn is still to come lack that one.
pub proof fn targets_get_what_was_read<F, E>(
    runs: Seq<PipeSession>,
    events: Seq<PipeEvent<F, E>>,
    actions: Seq<PipeAction<F, E>>,
    n: int,
    target: usize,
)
    requires
        are_steps(runs, events, actions),
        runs[0].wf(),
        runs[0].state is Loading,
        target < runs[0].outputs,
        0 <= n <= events.len(),
        !(runs[n].state is Failed),
    ensures
        match runs[n].state {
            PipeState::Writing { output, text } if output < target => texts_read(runs, events, n)
                == texts_written(actions, n, target).push(text),
            _ => texts_read(runs, events, n) == texts_written(actions, n, target),
        },
    decreases n,
{
    if n > 0 {
        runs_stay_sound(runs, events, actions, n - 1);
        assert(is_step(runs, events, actions, n - 1));
        targets_get_what_was_read(runs, events, actions, n - 1, target);
    }
}

/// When the text is over, every target is closed, in their order, and then the run
/// ends.
pub proof fn every_target_is_closed<F, E>(
    runs: Seq<PipeSession>,
    events: Seq<PipeEvent<F, E>>,
    actions: Seq<PipeAction<F, E>>,
    k: int,
)
    requires
        are_steps(runs, events, actions),
        runs[0].state is ReadingResult,
        events.len() == runs[0].outputs + 1,
        events[0] == PipeEvent::<F, E>::Text(None),
        forall|i: int| 1 <= i < events.len() ==> #[trigger] events[i] == PipeEvent::<F, E>::Done,
        0 <= k < events.len(),
    ensures
        k < runs[0].outputs ==> {
            &&& actions[k] == PipeAction::<F, E>::CloseOutput(k as usize)
            &&& runs[k + 1].state == PipeState::ClosingOutput { output: k as usize }
        },
        k == runs[0].outputs ==> {
            &&& actions[k] is Exit
            &&& runs[k + 1].state is Finished
        },
        runs[k + 1].outputs == runs[0].outputs,
    decreases k,
{
    assert(is_step(runs, events, actions, k));
    if k > 0 {
        every_target_is_closed(runs, events, actions, k - 1);
        assert(events[k] == PipeEvent::<F, E>::Done);
    }
}

/// A failure of any action breaks the run off with that error, and nothing is done
/// after it.
pub proof fn failures_end_the_run<F, E>(
    run: PipeSession,
    error: E,
    after: PipeSession,
    event: PipeEvent<F, E>,
)
    requires
        run.is_under_way(),
        after.state == run.follow(PipeEvent::<F, E>::Failed(error)).0,
    ensures
        run.follow(PipeEvent::<F, E>::Failed(error)).1 == PipeAction::<F, E>::Fail(error),
        after.follow(event) == (after.state, PipeAction::<F, E>::Idle),
{
}

/// Text `i` is sent to `sinks[i]`, which becomes `sinks[i + 1]` when action `i` is
/// carried out: a file that was created is open from then on, and stays open while it
/// is written to and flushed.
pub open spec fn is_line<H>(
    sinks: Seq<TextSink<H>>,
    items: Seq<Seq<char>>,
    actions: Seq<LineAction>,
    i: int,
) -> bool {
    &&& sinks[i].sends(items[i], actions[i])
    &&& sinks[i + 1].target == sinks[i].target
    &&& (sinks[i + 1].file is Some) == (sinks[i].file is Some || actions[i] is CreateAndAppend)
}

/// The texts are sent one after the other, and all actions are carried out.
pub open spec fn are_lines<H>(
    sinks: Seq<TextSink<H>>,
    items: Seq<Seq<char>>,
    actions: Seq<LineAction>,
) -> bool {
    &&& sinks.len() == items.len() + 1
    &&& actions.len() == items.len()
    &&& forall|i: int| 0 <= i < items.len() ==> #[trigger] is_line(sinks, items, actions, i)
}

/// The texts, each with a line feed behind it, joined.
pub open spec fn lines_of(items: Seq<Seq<char>>) -> Seq<char> {
    items.map_values(|item: Seq<char>| item + "\n"@).flatten()
}

/// What the file `path` holds when the first `n` actions have been carried out,
/// `before` being what it held at first. `None` stands for a file that does not exist.
pub open spec fn file_after(
    path: Seq<char>,
    before: Option<Seq<char>>,
    actions: Seq<LineAction>,
    n: int,
) -> Option<Seq<char>>
    decreases n,
{
    if n <= 0 {
        before
    } else {
        let earlier = file_after(path, before, actions, n - 1);
        match actions[n - 1] {
            LineAction::Print(_) => earlier,
            LineAction::CreateAndAppend { path: created, line } => if created@ == path {
                Some(line@)
            } else {
                earlier
            },
            LineAction::Append(line) => match earlier {
                Some(content) => Some(content + line@),
                None => None,
            },
        }
    }
}

proof fn files_stay_open<H>(
    sinks: Seq<TextSink<H>>,
    items: Seq<Seq<char>>,
    actions: Seq<LineAction>,
    n: int,
)
    requires
        are_lines(sinks, items, actions),
        0 <= n <= items.len(),
    ensures
        sinks[n].target == sinks[0].target,
        sinks[0].target is File ==> (sinks[n].file is Some) == (sinks[0].file is Some || n > 0),
    decreases n,
{
    if n > 0 {
        files_stay_open(sinks, items, actions, n - 1);
        assert(is_line(sinks, items, actions, n - 1));
    }
}

/// A file is created for the first text that is sent to it and for no other: every
/// text behind that one is appended.
pub proof fn files_are_created_once<H>(
    sinks: Seq<TextSink<H>>,
    items: Seq<Seq<char>>,
    actions: Seq<LineAction>,
    path: String,
    i: int,
)
    requires
        are_lines(sinks, items, actions),
        sinks[0].target == TargetSpec::File(path),
        sinks[0].file is None,
        0 <= i < actions.len(),
    ensures
        actions[i] is CreateAndAppend <==> i == 0,
        actions[i] is Append <==> i > 0,
        actions[i] matches LineAction::CreateAndAppend { path: created, .. } ==> created@ == path@,
{
    files_stay_open(sinks, items, actions, i);
    assert(is_line(sinks, items, actions, i));
}

/// Standard output is printed to, and never created as a file.
pub proof fn stdout_is_printed_to<H>(
    sinks: Seq<TextSink<H>>,
    items: Seq<Seq<char>>,
    actions: Seq<LineAction>,
    i: int,
)
    requires
        are_lines(sinks, items, actions),
        sinks[0].target is Stdout,
        0 <= i < actions.len(),
    ensures
        actions[i] is Print,
{
    files_stay_open(sinks, items, actions, i);
    assert(is_line(sinks, items, actions, i));
}

proof fn lines_of_one_more(items: Seq<Seq<char>>, n: int)
    requires
        0 < n <= items.len(),
    ensures
        lines_of(items.take(n)) == lines_of(items.take(n - 1)) + (items[n - 1] + "\n"@),
{
    let lines = items.take(n - 1).map_values(|item: Seq<char>| item + "\n"@);
    lines.lemma_flatten_push(items[n - 1] + "\n"@);
    assert(items.take(n).map_values(|item: Seq<char>| item + "\n"@) =~= lines.push(
        items[n - 1] + "\n"@,
    ));
}

/// Whatever the target is, the lines that are handed out for it are the texts, each
/// with a line feed behind it.
pub proof fn every_text_becomes_a_line<H>(
    sinks: Seq<TextSink<H>>,
    items: Seq<Seq<char>>,
    actions: Seq<LineAction>,
)
    requires
        are_lines(sinks, items, actions),
    ensures
        actions.map_values(|action: LineAction| action.line()).flatten() == lines_of(items),
{
    let lines = actions.map_values(|action: LineAction| action.line());
    assert forall|i: int| 0 <= i < items.len() implies #[trigger] lines[i] == items[i] + "\n"@ by {
        assert(is_line(sinks, items, actions, i));
    }
    assert(lines =~= items.map_values(|item: Seq<char>| item + "\n"@));
}

proof fn file_so_far<H>(
    sinks: Seq<TextSink<H>>,
    items: Seq<Seq<char>>,
    actions: Seq<LineAction>,
    path: String,
    before: Option<Seq<char>>,
    n: int,
)
    requires
        are_lines(sinks, items, actions),
        sinks[0].target == TargetSpec::File(path),
        sinks[0].file is None,
        0 < n <= items.len(),
    ensures
        file_after(path@, before, actions, n) == Some(lines_of(items.take(n))),
    decreases n,
{
    files_are_created_once(sinks, items, actions, path, n - 1);
    assert(is_line(sinks, items, actions, n - 1));
    files_stay_open(sinks, items, actions, n - 1);
    lines_of_one_more(items, n);
    if n == 1 {
        assert(items.take(0).map_values(|item: Seq<char>| item + "\n"@) =~= Seq::empty());
        assert(lines_of(items.take(0)) =~= Seq::empty());
        assert(lines_of(items.take(1)) =~= items[0] + "\n"@);
    } else {
        file_so_far(sinks, items, actions, path, before, n - 1);
    }
}

/// In the end a file holds exactly the texts that were sent to it, each with a line
/// feed behind it; what it held before is gone. Where nothing was sent, it was neither
/// created nor changed. Closing hands out the file if something was sent, and closing
/// again hands out nothing and changes nothing.
pub proof fn files_hold_exactly_the_lines<H>(
    sinks: Seq<TextSink<H>>,
    items: Seq<Seq<char>>,
    actions: Seq<LineAction>,
    path: String,
    before: Option<Seq<char>>,
    closed: TextSink<H>,
    file: Option<H>,
    closed_again: TextSink<H>,
    file_again: Option<H>,
)
    requires
        are_lines(sinks, items, actions),
        sinks[0].target == TargetSpec::File(path),
        sinks[0].file is None,
        sinks.last().closes(closed, file),
        closed.closes(closed_again, file_again),
    ensures
        file_after(path@, before, actions, actions.len() as int) == if items.len() == 0 {
            before
        } else {
            Some(lines_of(items))
        },
        file is Some <==> items.len() > 0,
        file_again is None,
        closed.file is None,
        closed_again == closed,
{
    let n = items.len() as int;
    files_stay_open(sinks, items, actions, n);
    if n > 0 {
        file_so_far(sinks, items, actions, path, before, n);
        assert(items.take(n) =~= items);
    }
}

/// The characters of each text.
pub open spec fn text_views(texts: Seq<String>) -> Seq<Seq<char>> {
    texts.map_values(|text: String| text@)
}

/// A run that is over leaves in the file of a target exactly the texts that were read,
/// each with a line feed behind it, where no other target is the same file; without
/// any text the file is as it was. `lines` is what was done to send the texts that
/// were written to the target.
pub proof fn transcripts_hold_what_was_read<F, E, H>(
    runs: Seq<PipeSession>,
    events: Seq<PipeEvent<F, E>>,
    actions: Seq<PipeAction<F, E>>,
    target: usize,
    sinks: Seq<TextSink<H>>,
    lines: Seq<LineAction>,
    path: String,
    before: Option<Seq<char>>,
)
    requires
        are_steps(runs, events, actions),
        runs[0].wf(),
        runs[0].state is Loading,
        runs.last().state is Finished,
        target < runs[0].outputs,
        are_lines(
            sinks,
            text_views(texts_written(actions, actions.len() as int, target)),
            lines,
        ),
        sinks[0].target == TargetSpec::File(path),
        sinks[0].file is None,
    ensures
        file_after(path@, before, lines, lines.len() as int) == if texts_read(
            runs,
            events,
            events.len() as int,
        ).len() == 0 {
            before
        } else {
            Some(lines_of(text_views(texts_read(runs, events, events.len() as int))))
        },
{
    let n = events.len() as int;
    targets_get_what_was_read(runs, events, actions, n, target);
    let items = text_views(texts_written(actions, n, target));
    if items.len() > 0 {
        file_so_far(sinks, items, lines, path, before, items.len() as int);
        assert(items.take(items.len() as int) =~= items);
    }
}

} // verus!
