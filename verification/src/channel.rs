//! The queue that carries finished results from the workers to the display,
//! and the slot in which the display keeps the latest of them.

use crate::pipeline::ProcessingResult;
use crate::pipeline::ResultView;
use std::collections::VecDeque;
use vstd::prelude::*;

verus! {

/// The queue after each of `sent` was sent in turn onto `queue`.
pub open spec fn after_sends(queue: Seq<ResultView>, sent: Seq<ResultView>) -> Seq<ResultView>
    decreases sent.len(),
{
    if sent.len() == 0 {
        queue
    } else {
        after_sends(queue.push(sent.first()), sent.drop_first())
    }
}

/// The queue after `count` results were received from `queue`.
pub open spec fn after_recvs(queue: Seq<ResultView>, count: nat) -> Seq<ResultView>
    decreases count,
{
    if count == 0 || queue.len() == 0 {
        queue
    } else {
        after_recvs(queue.drop_first(), (count - 1) as nat)
    }
}

/// An unbounded first-in first-out queue of results. Sending never waits
/// and receiving never waits: an empty queue answers `None`. The queue keeps
/// the order of arrival and adds no order of its own between requests.
#[derive(Debug)]
pub struct ResultChannel {
    queue: VecDeque<ProcessingResult>,
}

impl View for ResultChannel {
    type V = Seq<ResultView>;

    /// The results that wait in the queue, the oldest first.
    closed spec fn view(&self) -> Seq<ResultView> {
        self.queue@.map_values(|r: ProcessingResult| r@)
    }
}

impl ResultChannel {
    /// An empty queue.
    pub fn new() -> (channel: ResultChannel)
        ensures
            channel@ == Seq::<ResultView>::empty(),
    {
        let channel = ResultChannel { queue: VecDeque::new() };
        assert(channel@ =~= Seq::<ResultView>::empty());
        channel
    }

    /// Number of results that wait.
    pub fn len(&self) -> (n: usize)
        ensures
            n == self@.len(),
    {
        self.queue.len()
    }

    /// Whether no result waits.
    pub fn is_empty(&self) -> (empty: bool)
        ensures
            empty <==> self@.len() == 0,
    {
        self.queue.len() == 0
    }

    /// Puts a result at the end of the queue.
    pub fn send(&mut self, result: ProcessingResult)
        ensures
            final(self)@ == old(self)@.push(result@),
    {
        self.queue.push_back(result);
        assert(self@ =~= old(self)@.push(result@));
    }

    /// Takes the oldest result out of the queue, if there is one.
    pub fn try_recv(&mut self) -> (received: Option<ProcessingResult>)
        ensures
            received is Some <==> old(self)@.len() > 0,
            received matches Some(result) ==> result@ == old(self)@.first() && final(self)@ == old(
                self,
            )@.drop_first(),
            received is None ==> final(self)@ == old(self)@,
    {
        let received = self.queue.pop_front();
        assert(received is Some ==> self@ =~= old(self)@.drop_first());
        received
    }

    /// Takes out every result that waits, the oldest first.
    pub fn drain(&mut self) -> (received: Vec<ProcessingResult>)
        ensures
            received@.map_values(|r: ProcessingResult| r@) == old(self)@,
            final(self)@ == Seq::<ResultView>::empty(),
    {
        let mut received: Vec<ProcessingResult> = Vec::new();
        loop
            invariant
                received@.map_values(|r: ProcessingResult| r@) + self@ == old(self)@,
            ensures
                self@.len() == 0,
                received@.map_values(|r: ProcessingResult| r@) + self@ == old(self)@,
            decreases self@.len(),
        {
            let ghost before = received@.map_values(|r: ProcessingResult| r@);
            let ghost waiting = self@;
            match self.try_recv() {
                Some(result) => {
                    received.push(result);
                    assert(received@.map_values(|r: ProcessingResult| r@) =~= before.push(waiting.first()));
                    assert(before.push(waiting.first()) + waiting.drop_first() =~= before + waiting);
                },
                None => {
                    break ;
                },
            }
        }
        assert(received@.map_values(|r: ProcessingResult| r@) =~= old(self)@);
        assert(self@ =~= Seq::<ResultView>::empty());
        received
    }
}

/// The place where the display keeps the result it shows. A result that
/// arrives takes the place of the one before it, whichever request was
/// issued first.
#[derive(Debug)]
pub struct DisplaySlot {
    latest: Option<ProcessingResult>,
}

impl View for DisplaySlot {
    type V = Option<ResultView>;

    /// The result that is shown, if any has arrived.
    closed spec fn view(&self) -> Option<ResultView> {
        match self.latest {
            Some(result) => Some(result@),
            None => None,
        }
    }
}

impl DisplaySlot {
    /// A slot that shows nothing yet.
    pub fn new() -> (slot: DisplaySlot)
        ensures
            slot@ is None,
    {
        DisplaySlot { latest: None }
    }

    /// The result that is shown, if any has arrived.
    pub fn latest(&self) -> (latest: Option<&ProcessingResult>)
        ensures
            latest is Some <==> self@ is Some,
            latest matches Some(result) ==> Some(result@) == self@,
    {
        self.latest.as_ref()
    }

    /// One tick of the display: takes at most one result from the channel,
    /// without waiting, and shows it in place of the one before. With an
    /// empty channel nothing changes. Returns whether a result arrived.
    pub fn poll(&mut self, channel: &mut ResultChannel) -> (arrived: bool)
        ensures
            arrived <==> old(channel)@.len() > 0,
            arrived ==> final(self)@ == Some(old(channel)@.first()) && final(channel)@ == old(
                channel,
            )@.drop_first(),
            !arrived ==> final(self)@ == old(self)@ && final(channel)@ == old(channel)@,
    {
        match channel.try_recv() {
            Some(result) => {
                self.latest = Some(result);
                true
            },
            None => false,
        }
    }
}

/// No result is lost and none is made up: after any run of sends the queue
/// holds what it held before, followed by what was sent, in the order of
/// sending.
pub proof fn lemma_sends_are_kept(queue: Seq<ResultView>, sent: Seq<ResultView>)
    ensures
        after_sends(queue, sent) == queue + sent,
    decreases sent.len(),
{
    if sent.len() == 0 {
        assert(queue + sent =~= queue);
    } else {
        lemma_sends_are_kept(queue.push(sent.first()), sent.drop_first());
        assert(queue.push(sent.first()) + sent.drop_first() =~= queue + sent);
    }
}

/// Receiving gives the results back in the order in which they were queued:
/// after `count` receptions the queue has lost exactly its first `count`
/// results, or all of them if it held fewer.
pub proof fn lemma_recvs_take_the_oldest(queue: Seq<ResultView>, count: nat)
    ensures
        after_recvs(queue, count) == queue.skip(if count <= queue.len() {
            count as int
        } else {
            queue.len() as int
        }),
    decreases count,
{
    if count == 0 || queue.len() == 0 {
        assert(queue.skip(0) =~= queue);
    } else {
        lemma_recvs_take_the_oldest(queue.drop_first(), (count - 1) as nat);
        let rest = queue.drop_first();
        let k = if count - 1 <= rest.len() {
            count - 1
        } else {
            rest.len() as int
        };
        assert(rest.skip(k) =~= queue.skip(k + 1));
    }
}

} // verus!
