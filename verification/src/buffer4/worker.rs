//! The decisions of the worker that serves the four queues of a buffer, and
//! the handle through which the queues learn why the worker stopped.

use vstd::prelude::*;

verus! {

/// What polling the receiving end of one queue gives.
#[derive(Clone, Copy, Debug, PartialEq, Eq, Structural)]
pub enum ChannelPoll {
    /// No request has arrived yet.
    Pending,
    /// A request is there to be taken.
    Message,
    /// Every sender is gone and the queue is empty.
    Closed,
}

/// What the worker does next.
#[derive(Clone, Copy, Debug, PartialEq, Eq, Structural)]
pub enum WorkerAction {
    /// The service failed: answer every request still queued with the
    /// failure that the handle reports, close the queues and stop.
    FlushAndShutdown,
    /// Take the request from this queue and hand it to the service.
    Process(usize),
    /// This queue is closed: stop receiving from it.
    CloseQueue(usize),
    /// This queue is closed and it was the last one open: close and stop.
    CloseQueueAndShutdown(usize),
    /// No open queue has anything: wait until one has.
    Wait,
}

/// The worker as its decisions see it: which of the four queues it still
/// receives from, whether the service failed (after which the queues take no
/// new requests and the service is not called again), and whether it stopped.
pub struct WorkerView {
    pub open: Seq<bool>,
    pub failed: bool,
    pub stopped: bool,
}

/// The worker of a new buffer: all four queues open, no failure.
pub open spec fn initial_worker() -> WorkerView {
    WorkerView { open: seq![true, true, true, true], failed: false, stopped: false }
}

/// Whether queue `i` takes part in the select and is ready: it is open and
/// polling it gives a request or its closing.
pub open spec fn branch_ready(open: Seq<bool>, polls: Seq<ChannelPoll>, i: int) -> bool {
    open[i] && polls[i] != ChannelPoll::Pending
}

/// The first queue, from `i` on, that is open and ready.
pub open spec fn first_ready_from(open: Seq<bool>, polls: Seq<ChannelPoll>, i: nat) -> Option<nat>
    decreases 4 - i,
{
    if i >= 4 {
        None
    } else if branch_ready(open, polls, i as int) {
        Some(i)
    } else {
        first_ready_from(open, polls, i + 1)
    }
}

/// How many of the four queues are open.
pub open spec fn open_count(open: Seq<bool>) -> nat {
    (if open[0] { 1nat } else { 0nat }) + (if open[1] { 1nat } else { 0nat }) + (if open[2] {
        1nat
    } else {
        0nat
    }) + (if open[3] { 1nat } else { 0nat })
}

/// One decision of the worker, given what polling each queue gives: the
/// worker after it, and what it does. Only open queues take part, in priority
/// order; the first that is ready is taken.
pub open spec fn worker_step(v: WorkerView, polls: Seq<ChannelPoll>) -> (WorkerView, WorkerAction) {
    if v.failed {
        (WorkerView { open: seq![false, false, false, false], failed: true, stopped: true }, WorkerAction::FlushAndShutdown)
    } else {
        match first_ready_from(v.open, polls, 0) {
            None => (v, WorkerAction::Wait),
            Some(i) => if polls[i as int] == ChannelPoll::Message {
                (v, WorkerAction::Process(i as usize))
            } else {
                let open = v.open.update(i as int, false);
                if open_count(open) == 0 {
                    (WorkerView { open, failed: false, stopped: true }, WorkerAction::CloseQueueAndShutdown(i as usize))
                } else {
                    (WorkerView { open, failed: false, stopped: false }, WorkerAction::CloseQueue(i as usize))
                }
            },
        }
    }
}

/// `n` decisions of a worker whose every remaining sender is gone, with
/// nothing left in the queues.
pub open spec fn run_senders_gone(v: WorkerView, n: nat) -> WorkerView
    decreases n,
{
    if n == 0 || v.stopped {
        v
    } else {
        run_senders_gone(worker_step(v, seq![ChannelPoll::Closed, ChannelPoll::Closed, ChannelPoll::Closed, ChannelPoll::Closed]).0, (n - 1) as nat)
    }
}

/// Closing a queue drops exactly that open queue, and the worker stops
/// exactly when no queue is left open.
pub proof fn lemma_close_drops_one_queue(v: WorkerView, polls: Seq<ChannelPoll>)
    requires
        v.open.len() == 4,
        polls.len() == 4,
        !v.failed,
    ensures
        ({
            let (v2, a) = worker_step(v, polls);
            &&& (a matches WorkerAction::CloseQueue(i) ==> i < 4 && v.open[i as int] && !v2.open[i as int]
                && open_count(v2.open) + 1 == open_count(v.open) && !v2.stopped && open_count(v2.open) > 0)
            &&& (a matches WorkerAction::CloseQueueAndShutdown(i) ==> i < 4 && v.open[i as int]
                && open_count(v.open) == 1 && open_count(v2.open) == 0 && v2.stopped)
            &&& (a is Wait ==> forall|j: int| 0 <= j < 4 && v.open[j] ==> polls[j] == ChannelPoll::Pending)
        }),
{
    lemma_first_ready_is_first(v.open, polls, 0);
    if let Some(i) = first_ready_from(v.open, polls, 0) {
        let open = v.open.update(i as int, false);
        assert(open[0] == (v.open[0] && i != 0));
        assert(open[1] == (v.open[1] && i != 1));
        assert(open[2] == (v.open[2] && i != 2));
        assert(open[3] == (v.open[3] && i != 3));
    } else {
        assert forall|j: int| 0 <= j < 4 && v.open[j] implies polls[j] == ChannelPoll::Pending by {
            assert(!branch_ready(v.open, polls, j));
        }
    }
}

/// Once every sender is gone and the queues are empty, a worker that has not
/// failed stops within as many decisions as it has open queues, whatever
/// queues closed before.
pub proof fn lemma_stops_when_senders_gone(v: WorkerView)
    requires
        v.open.len() == 4,
        !v.failed,
        !v.stopped ==> open_count(v.open) > 0,
    ensures
        run_senders_gone(v, open_count(v.open)).stopped,
    decreases open_count(v.open),
{
    if !v.stopped {
        let polls = seq![ChannelPoll::Closed, ChannelPoll::Closed, ChannelPoll::Closed, ChannelPoll::Closed];
        let (v2, a) = worker_step(v, polls);
        lemma_first_ready_is_first(v.open, polls, 0);
        if first_ready_from(v.open, polls, 0) is None {
            assert(!branch_ready(v.open, polls, 0));
            assert(!branch_ready(v.open, polls, 1));
            assert(!branch_ready(v.open, polls, 2));
            assert(!branch_ready(v.open, polls, 3));
        }
        lemma_close_drops_one_queue(v, polls);
        lemma_stops_when_senders_gone(v2);
        assert((open_count(v.open) - 1) as nat == open_count(v2.open));
    }
}

/// Handing a request to the service changes nothing in the worker: the same
/// queues stay open and it goes on. A queue stops being received from only
/// when polling it gives its closing, or when the service has failed; a
/// closed queue never opens again; and the worker stops only when the service
/// has failed or its last open queue closes.
pub proof fn lemma_queues_close_only_when_closed(v: WorkerView, polls: Seq<ChannelPoll>)
    requires
        v.open.len() == 4,
        polls.len() == 4,
    ensures
        ({
            let (v2, a) = worker_step(v, polls);
            &&& (a matches WorkerAction::Process(i) ==> v2 == v && i < 4 && v.open[i as int]
                && polls[i as int] == ChannelPoll::Message)
            &&& (a is Wait ==> v2 == v)
            &&& v2.open.len() == 4
            &&& forall|j: int| 0 <= j < 4 && v.open[j] && !v2.open[j] ==> v.failed || (polls[j]
                == ChannelPoll::Closed && (a == WorkerAction::CloseQueue(j as usize) || a
                == WorkerAction::CloseQueueAndShutdown(j as usize)))
            &&& forall|j: int| 0 <= j < 4 && !v.open[j] ==> !v2.open[j]
            &&& v2.failed == v.failed
            &&& (v2.stopped && !v.stopped ==> v.failed || open_count(v2.open) == 0)
        }),
{
    lemma_first_ready_is_first(v.open, polls, 0);
    if !v.failed {
        if let Some(i) = first_ready_from(v.open, polls, 0) {
            assert(branch_ready(v.open, polls, i as int));
        }
    }
}

/// The decisions of the worker, and the handle it leaves the queues.
pub struct WorkerState<E> {
    open: [bool; 4],
    stopped: bool,
    handle: Handle<E>,
}

impl<E> WorkerState<E> {
    /// The worker as its decisions see it.
    pub closed spec fn view(&self) -> WorkerView {
        WorkerView { open: self.open@, failed: self.handle.inner is Some, stopped: self.stopped }
    }

    /// The error the service failed with, once it has failed.
    pub closed spec fn failure(&self) -> Option<E> {
        self.handle.inner
    }

    /// A worker that receives from all four queues, and its handle, which
    /// records no failure.
    pub fn new() -> (r: Self)
        ensures
            r.view() == initial_worker(),
            r.failure() is None,
    {
        let r = WorkerState { open: [true, true, true, true], stopped: false, handle: Handle { inner: None } };
        assert(r.open@ =~= seq![true, true, true, true]);
        r
    }

    /// The handle through which the queues learn why the worker stopped; it
    /// reports the worker's failure.
    pub fn handle(&self) -> (r: &Handle<E>)
        ensures
            r.failure() == self.failure(),
    {
        &self.handle
    }

    /// Whether the worker stopped.
    pub fn is_stopped(&self) -> (r: bool)
        ensures
            r == self.view().stopped,
    {
        self.stopped
    }

    /// The first open queue that is ready, given what polling each gives.
    fn first_ready(&self, polls: &[ChannelPoll; 4]) -> (r: Option<usize>)
        ensures
            match first_ready_from(self.open@, polls@, 0) {
                Some(i) => r == Some(i as usize),
                None => r is None,
            },
    {
        let mut i: usize = 0;
        while i < 4
            invariant
                i <= 4,
                first_ready_from(self.open@, polls@, 0) == first_ready_from(self.open@, polls@, i as nat),
            decreases 4 - i,
        {
            if self.open[i] && polls[i] != ChannelPoll::Pending {
                return Some(i);
            }
            i = i + 1;
        }
        None
    }

    /// Decides what to do next. A request is taken from a queue only when
    /// every open queue of higher priority has nothing ready; the worker waits
    /// only when no open queue has anything.
    pub fn next(&mut self, polls: &[ChannelPoll; 4]) -> (r: WorkerAction)
        requires
            !old(self).view().stopped,
        ensures
            (final(self).view(), r) == worker_step(old(self).view(), polls@),
            final(self).failure() == old(self).failure(),
            r matches WorkerAction::Process(i) ==> i < 4 && old(self).view().open[i as int]
                && polls@[i as int] == ChannelPoll::Message
                && forall|j: int| 0 <= j < i ==> !old(self).view().open[j] || polls@[j] == ChannelPoll::Pending,
            r is Wait ==> forall|j: int| 0 <= j < 4 && old(self).view().open[j] ==> polls@[j] == ChannelPoll::Pending,
    {
        if self.handle.inner.is_some() {
            self.open = [false, false, false, false];
            self.stopped = true;
            assert(self.open@ =~= seq![false, false, false, false]);
            return WorkerAction::FlushAndShutdown;
        }
        proof {
            lemma_close_drops_one_queue(self.view(), polls@);
        }
        match self.first_ready(polls) {
            None => WorkerAction::Wait,
            Some(i) => {
                proof {
                    lemma_first_ready_is_first(self.open@, polls@, 0);
                }
                if polls[i] == ChannelPoll::Message {
                    assert forall|j: int| 0 <= j < i implies !self.open@[j] || polls@[j]
                        == ChannelPoll::Pending by {
                        assert(!branch_ready(self.open@, polls@, j));
                    }
                    WorkerAction::Process(i)
                } else {
                    self.open.set(i, false);
                    if !self.open[0] && !self.open[1] && !self.open[2] && !self.open[3] {
                        self.stopped = true;
                        WorkerAction::CloseQueueAndShutdown(i)
                    } else {
                        WorkerAction::CloseQueue(i)
                    }
                }
            },
        }
    }

    /// The service failed with `error` while the worker handed it a request.
    /// In one step the handle records the error, which the failing request
    /// and every request still queued are then answered with; the queues take
    /// no new requests; and the service is not called again. A worker fails
    /// only once.
    pub fn fail(&mut self, error: E)
        requires
            !old(self).view().failed,
            !old(self).view().stopped,
        ensures
            final(self).view() == (WorkerView { failed: true, ..old(self).view() }),
            final(self).failure() == Some(error),
    {
        self.handle.inner = Some(error);
    }
}

/// The queue found first is open and ready, and no queue before it is.
proof fn lemma_first_ready_is_first(open: Seq<bool>, polls: Seq<ChannelPoll>, i: nat)
    ensures
        first_ready_from(open, polls, i) matches Some(k) ==> i <= k < 4 && branch_ready(open, polls, k as int)
            && forall|j: int| i <= j < k ==> !branch_ready(open, polls, j),
        first_ready_from(open, polls, i) is None ==> forall|j: int| i <= j < 4 ==> !branch_ready(open, polls, j),
    decreases 4 - i,
{
    if i < 4 {
        lemma_first_ready_is_first(open, polls, i + 1);
    }
}

/// Why the queues of a buffer no longer take requests.
pub enum ClosedError<E> {
    /// The service failed with this error.
    Failed(E),
    /// The worker stopped without a failure.
    Closed,
}

/// What the worker leaves for the queues: the error the service failed with,
/// once it has failed.
pub struct Handle<E> {
    inner: Option<E>,
}

impl<E> Handle<E> {
    /// The error recorded, if any.
    pub closed spec fn failure(&self) -> Option<E> {
        self.inner
    }

    /// Why the queues no longer take requests: the recorded failure, or that
    /// they were closed.
    pub fn get_error_on_closed(&self) -> (r: ClosedError<&E>)
        ensures
            match self.failure() {
                Some(e) => r == ClosedError::Failed(&e),
                None => r == ClosedError::<&E>::Closed,
            },
    {
        match &self.inner {
            Some(e) => ClosedError::Failed(e),
            None => ClosedError::Closed,
        }
    }
}

} // verus!
