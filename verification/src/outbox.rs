//! The results that a stream has ready for its reader.

use std::collections::VecDeque;

use vstd::prelude::*;

use crate::error::AsrError;

verus! {

/// The answer to a reader that does not block.
pub enum Poll<T> {
    Ready(T),
    Pending,
}

/// What a reader gets: a result, or `None` at the end.
pub type NextResult = Poll<Option<Result<String, AsrError>>>;

/// Results that wait for their reader, or a reader that waits for results.
pub struct Outbox<W> {
    pub pending: VecDeque<Result<String, AsrError>>,
    pub closed: bool,
    pub waker: Option<W>,
}

impl<W> Outbox<W> {
    /// An open outbox without results and without a reader.
    pub fn new() -> (outbox: Self)
        ensures
            outbox.pending@ == Seq::<Result<String, AsrError>>::empty(),
            !outbox.closed,
            outbox.waker is None,
    {
        Outbox { pending: VecDeque::new(), closed: false, waker: None }
    }

    /// Queueing `result` turns `self` into `after` and calls for `woken` to be woken.
    pub open spec fn queues(
        self,
        result: Result<String, AsrError>,
        after: Self,
        woken: Option<W>,
    ) -> bool {
        &&& after.pending@ == self.pending@.push(result)
        &&& after.closed == self.closed
        &&& after.waker is None
        &&& woken == self.waker
    }

    /// A reader that can be woken by `waker` gets `answer` from `self` and leaves
    /// `after` behind.
    pub open spec fn hands_out(self, waker: W, after: Self, answer: NextResult) -> bool {
        &&& after.closed == self.closed
        &&& if self.pending@.len() > 0 {
            &&& answer == Poll::Ready(Some(self.pending@[0]))
            &&& after.pending@ == self.pending@.skip(1)
            &&& after.waker == self.waker
        } else if self.closed {
            &&& answer == Poll::Ready(None::<Result<String, AsrError>>)
            &&& after.pending@ == self.pending@
            &&& after.waker == self.waker
        } else {
            &&& answer is Pending
            &&& after.pending@ == self.pending@
            &&& after.waker == Some(waker)
        }
    }

    /// Queues a result. Hands back the waker of the reader that waits for it.
    pub fn push_result(&mut self, result: Result<String, AsrError>) -> (woken: Option<W>)
        ensures
            old(self).queues(result, *final(self), woken),
    {
        self.pending.push_back(result);
        self.waker.take()
    }

    /// The next result. Where there is none yet, `waker` is kept for the moment
    /// when there is.
    pub fn poll_next(&mut self, waker: W) -> (answer: NextResult)
        ensures
            old(self).hands_out(waker, *final(self), answer),
    {
        match self.pending.pop_front() {
            Some(result) => {
                assert(old(self).pending@.subrange(1, old(self).pending@.len() as int)
                    =~= old(self).pending@.skip(1));
                Poll::Ready(Some(result))
            },
            None => {
                if self.closed {
                    return Poll::Ready(None);
                }
                self.waker = Some(waker);
                Poll::Pending
            },
        }
    }
}

/// A reader that was told to wait is woken by the next result, and then reads that
/// very result.
pub proof fn waiting_reader_is_woken<W>(
    first: Outbox<W>,
    waker: W,
    second: Outbox<W>,
    result: Result<String, AsrError>,
    third: Outbox<W>,
    woken: Option<W>,
    waker_then: W,
    fourth: Outbox<W>,
    answer: NextResult,
)
    requires
        first.hands_out(waker, second, Poll::Pending),
        second.queues(result, third, woken),
        third.hands_out(waker_then, fourth, answer),
    ensures
        woken == Some(waker),
        answer == Poll::Ready(Some(result)),
        fourth.pending@.len() == 0,
{
}

/// A reader is woken once: results behind the first wake nobody.
pub proof fn nobody_is_woken_twice<W>(
    first: Outbox<W>,
    result: Result<String, AsrError>,
    second: Outbox<W>,
    woken: Option<W>,
    another: Result<String, AsrError>,
    third: Outbox<W>,
    woken_then: Option<W>,
)
    requires
        first.queues(result, second, woken),
        second.queues(another, third, woken_then),
    ensures
        woken_then is None,
{
}

/// The end is final: a closed outbox without results stays so, and every further
/// read finds the end.
pub proof fn the_end_is_final<W>(
    first: Outbox<W>,
    waker: W,
    second: Outbox<W>,
    answer: NextResult,
    waker_then: W,
    third: Outbox<W>,
    answer_then: NextResult,
)
    requires
        first.hands_out(waker, second, answer),
        answer == Poll::Ready(None::<Result<String, AsrError>>),
        second.hands_out(waker_then, third, answer_then),
    ensures
        first.closed,
        answer_then == Poll::Ready(None::<Result<String, AsrError>>),
        third.closed && third.pending@.len() == 0,
{
}

/// Read `i` turns `boxes[i]` into `boxes[i + 1]`.
pub open spec fn is_read<W>(
    boxes: Seq<Outbox<W>>,
    wakers: Seq<W>,
    answers: Seq<NextResult>,
    i: int,
) -> bool {
    boxes[i].hands_out(wakers[i], boxes[i + 1], answers[i])
}

/// Results are read in the order in which they were queued. `boxes[i]` is the
/// outbox before read `i`.
pub proof fn results_come_in_order<W>(
    boxes: Seq<Outbox<W>>,
    wakers: Seq<W>,
    answers: Seq<NextResult>,
)
    requires
        boxes.len() == answers.len() + 1,
        wakers.len() == answers.len(),
        answers.len() <= boxes[0].pending@.len(),
        forall|i: int|
            0 <= i < answers.len() ==> #[trigger] is_read(boxes, wakers, answers, i),
    ensures
        forall|i: int|
            0 <= i < answers.len() ==> #[trigger] answers[i] == Poll::Ready(
                Some(boxes[0].pending@[i]),
            ),
        boxes.last().pending@ == boxes[0].pending@.skip(answers.len() as int),
    decreases answers.len(),
{
    if answers.len() == 0 {
        assert(boxes[0].pending@.skip(0) =~= boxes[0].pending@);
    } else {
        let n = answers.len() as int;
        assert forall|i: int| 0 <= i < n - 1 implies #[trigger] is_read(
            boxes.drop_last(),
            wakers.drop_last(),
            answers.drop_last(),
            i,
        ) by {
            assert(is_read(boxes, wakers, answers, i));
        }
        results_come_in_order(boxes.drop_last(), wakers.drop_last(), answers.drop_last());
        let before = boxes[n - 1];
        assert(boxes.drop_last().last() == before);
        assert(before.pending@ == boxes[0].pending@.skip(n - 1));
        assert(is_read(boxes, wakers, answers, n - 1));
        assert(before.pending@.skip(1) =~= boxes[0].pending@.skip(n));
        assert forall|i: int| 0 <= i < n implies #[trigger] answers[i] == Poll::Ready(
            Some(boxes[0].pending@[i]),
        ) by {
            if i < n - 1 {
                assert(answers.drop_last()[i] == answers[i]);
            }
        }
    }
}

/// A result that is queued goes behind all that wait, whatever their number, and
/// nothing else changes but that the reader who waits, if one does, is to be woken.
pub proof fn queued_results_go_last<W>(
    before: Outbox<W>,
    result: Result<String, AsrError>,
    after: Outbox<W>,
    woken: Option<W>,
    i: int,
)
    requires
        before.queues(result, after, woken),
    ensures
        after.pending@.len() == before.pending@.len() + 1,
        after.pending@.last() == result,
        0 <= i < before.pending@.len() ==> after.pending@[i] == before.pending@[i],
        after.closed == before.closed,
        woken == before.waker,
        after.waker is None,
{
}

/// A reader waits exactly when there is nothing to read and more may come, and can be
/// woken then. It finds the end exactly when there is nothing to read and nothing will
/// come. Otherwise it gets the first result, and only that one is gone.
pub proof fn readers_get_what_there_is<W>(
    before: Outbox<W>,
    waker: W,
    after: Outbox<W>,
    answer: NextResult,
    i: int,
)
    requires
        before.hands_out(waker, after, answer),
    ensures
        answer is Pending <==> before.pending@.len() == 0 && !before.closed,
        answer is Pending ==> after.waker == Some(waker) && after.pending@.len() == 0,
        answer == Poll::Ready(None::<Result<String, AsrError>>) <==> before.pending@.len() == 0
            && before.closed,
        before.pending@.len() > 0 ==> {
            &&& answer == Poll::Ready(Some(before.pending@[0]))
            &&& after.pending@.len() == before.pending@.len() - 1
            &&& 0 <= i < after.pending@.len() ==> after.pending@[i] == before.pending@[i + 1]
        },
        !(answer is Pending) ==> after.waker == before.waker,
        after.closed == before.closed,
{
}

} // verus!
