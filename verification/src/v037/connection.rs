//! The decisions of a server connection. A connection reads requests and
//! hands each to the service of its category; the responses go back in the
//! order of the requests. A flush request is not handed to any service: it is
//! answered once every response pending before it has been sent.

use vstd::prelude::*;

verus! {

/// The category of an ABCI method, which says which service answers it.
#[derive(Clone, Copy, Debug, PartialEq, Eq, Structural)]
pub enum MethodKind {
    Consensus,
    Mempool,
    Snapshot,
    Info,
    Flush,
}

/// What becomes of a response that came back from a service.
#[derive(Clone, Copy, Debug, PartialEq, Eq, Structural)]
pub enum Disposition {
    /// Send the response.
    Send,
    /// The service failed: send an exception that carries its error message.
    Exception,
    /// The service failed: end the connection with its error.
    Fail,
}

/// What the connection does next.
#[derive(Clone, Copy, Debug, PartialEq, Eq, Structural)]
pub enum Action {
    /// Hand the request to the service of this category, and queue its response.
    Dispatch(MethodKind),
    /// A flush waits for the pending responses.
    AwaitResponses,
    /// Nothing is pending: answer the flush.
    SendFlush,
    /// The oldest pending response, to a request of this category, came back.
    Reply(MethodKind, Disposition),
    /// As `Reply`, and it was the last response a flush waited for: answer
    /// the flush after it.
    ReplyThenFlush(MethodKind, Disposition),
}

/// Something that happens to a connection.
#[derive(Clone, Copy, Debug, PartialEq, Eq, Structural)]
pub enum Event {
    /// A request of this category arrives.
    Request(MethodKind),
    /// The oldest pending response comes back, successful or not.
    Response(bool),
}

/// A connection as the decisions see it: the categories of the requests whose
/// responses are pending, oldest first, and whether a flush waits for them.
pub struct ConnView {
    pub pending: Seq<MethodKind>,
    pub flushing: bool,
}

/// A new connection: nothing pending, no flush waiting.
pub open spec fn initial_view() -> ConnView {
    ConnView { pending: Seq::empty(), flushing: false }
}

/// What becomes of a response to a request of `kind`: a successful one is
/// sent; a failed one becomes an exception for an info request, and ends the
/// connection otherwise.
pub open spec fn disposition(kind: MethodKind, ok: bool) -> Disposition {
    if ok {
        Disposition::Send
    } else if kind == MethodKind::Info {
        Disposition::Exception
    } else {
        Disposition::Fail
    }
}

/// Whether `e` can happen to `v`: no request is read while a flush waits, and
/// a response comes back only while one is pending.
pub open spec fn allowed(v: ConnView, e: Event) -> bool {
    match e {
        Event::Request(_) => !v.flushing,
        Event::Response(_) => v.pending.len() > 0,
    }
}

/// One decision: the connection after `e`, and what it does.
pub open spec fn step(v: ConnView, e: Event) -> (ConnView, Action) {
    match e {
        Event::Request(kind) => if kind != MethodKind::Flush {
            (ConnView { pending: v.pending.push(kind), flushing: v.flushing }, Action::Dispatch(kind))
        } else if v.pending.len() == 0 {
            (v, Action::SendFlush)
        } else {
            (ConnView { pending: v.pending, flushing: true }, Action::AwaitResponses)
        },
        Event::Response(ok) => {
            let kind = v.pending[0];
            let rest = v.pending.drop_first();
            let d = disposition(kind, ok);
            if v.flushing && rest.len() == 0 {
                (ConnView { pending: rest, flushing: false }, Action::ReplyThenFlush(kind, d))
            } else {
                (ConnView { pending: rest, flushing: v.flushing }, Action::Reply(kind, d))
            }
        },
    }
}

/// The decisions of the connection for a sequence of events, from a new
/// connection: the connection at the end, and the actions in order.
pub open spec fn run(events: Seq<Event>) -> (ConnView, Seq<Action>)
    decreases events.len(),
{
    if events.len() == 0 {
        (initial_view(), Seq::empty())
    } else {
        let (v, acts) = run(events.drop_last());
        let (v2, a) = step(v, events.last());
        (v2, acts.push(a))
    }
}

/// Whether every event of the sequence can happen where it does.
pub open spec fn admissible(events: Seq<Event>) -> bool
    decreases events.len(),
{
    events.len() == 0 || (admissible(events.drop_last()) && allowed(
        run(events.drop_last()).0,
        events.last(),
    ))
}

/// The categories of the requests handed to services, in order.
pub open spec fn dispatched(acts: Seq<Action>) -> Seq<MethodKind>
    decreases acts.len(),
{
    if acts.len() == 0 {
        Seq::empty()
    } else {
        match acts.last() {
            Action::Dispatch(k) => dispatched(acts.drop_last()).push(k),
            _ => dispatched(acts.drop_last()),
        }
    }
}

/// The categories of the requests whose responses came back, in order.
pub open spec fn replied(acts: Seq<Action>) -> Seq<MethodKind>
    decreases acts.len(),
{
    if acts.len() == 0 {
        Seq::empty()
    } else {
        match acts.last() {
            Action::Reply(k, _) => replied(acts.drop_last()).push(k),
            Action::ReplyThenFlush(k, _) => replied(acts.drop_last()).push(k),
            _ => replied(acts.drop_last()),
        }
    }
}

/// Whether each flush was answered only when every request dispatched before
/// it had its response back.
pub open spec fn flushes_complete(acts: Seq<Action>) -> bool
    decreases acts.len(),
{
    acts.len() == 0 || (flushes_complete(acts.drop_last()) && (match acts.last() {
        Action::SendFlush => replied(acts) == dispatched(acts),
        Action::ReplyThenFlush(_, _) => replied(acts) == dispatched(acts),
        _ => true,
    }))
}

/// Responses come back in the order of their requests: over any possible run,
/// the responses dealt with are to the oldest requests dispatched, in order,
/// and the rest are pending. A flush waits only while something is pending,
/// and is answered only when every request before it has its response.
pub proof fn lemma_responses_in_request_order(events: Seq<Event>)
    requires
        admissible(events),
    ensures
        ({
            let (v, acts) = run(events);
            &&& replied(acts) + v.pending == dispatched(acts)
            &&& (v.flushing ==> v.pending.len() > 0)
            &&& flushes_complete(acts)
        }),
    decreases events.len(),
{
    if events.len() > 0 {
        let prev = events.drop_last();
        lemma_responses_in_request_order(prev);
        let (v, acts) = run(prev);
        let e = events.last();
        let (v2, a) = step(v, e);
        let acts2 = acts.push(a);
        assert(acts2.drop_last() =~= acts);
        match e {
            Event::Request(kind) => {
                if kind != MethodKind::Flush {
                    assert(replied(acts2) + v2.pending =~= (replied(acts) + v.pending).push(kind));
                }
            },
            Event::Response(ok) => {
                assert(replied(acts2) + v2.pending =~= replied(acts) + v.pending);
            },
        }
    }
}

/// What becomes of a response depends only on whether the service succeeded
/// and on the category of the oldest pending request, which it answers: a
/// successful response is sent; a failed one becomes an exception when that
/// request was an info request, and ends the connection for a consensus,
/// mempool or snapshot request. The response is taken off the pending ones.
pub proof fn lemma_response_outcome(v: ConnView, ok: bool)
    requires
        v.pending.len() > 0,
    ensures
        ({
            let (v2, a) = step(v, Event::Response(ok));
            &&& v2.pending == v.pending.drop_first()
            &&& match a {
                Action::Reply(k, d) => k == v.pending[0] && !(v.flushing && v2.pending.len() == 0) && (ok
                    ==> d == Disposition::Send) && (!ok && k == MethodKind::Info ==> d
                    == Disposition::Exception) && (!ok && k != MethodKind::Info ==> d == Disposition::Fail),
                Action::ReplyThenFlush(k, d) => k == v.pending[0] && v.flushing && v2.pending.len() == 0
                    && (ok ==> d == Disposition::Send) && (!ok && k == MethodKind::Info ==> d
                    == Disposition::Exception) && (!ok && k != MethodKind::Info ==> d == Disposition::Fail),
                _ => false,
            }
        }),
{
}

/// A request of a service's category is handed to that service and waits
/// for its response; a flush is answered at once when nothing is pending, and
/// otherwise waits.
pub proof fn lemma_request_outcome(v: ConnView, kind: MethodKind)
    requires
        !v.flushing,
    ensures
        ({
            let (v2, a) = step(v, Event::Request(kind));
            &&& kind != MethodKind::Flush ==> a == Action::Dispatch(kind) && v2.pending == v.pending.push(kind)
                && !v2.flushing
            &&& kind == MethodKind::Flush && v.pending.len() == 0 ==> a == Action::SendFlush && v2 == v
            &&& kind == MethodKind::Flush && v.pending.len() > 0 ==> a == Action::AwaitResponses
                && v2.pending == v.pending && v2.flushing
        }),
{
}

/// The decisions of one connection.
pub struct ConnectionState {
    pending: Vec<MethodKind>,
    flushing: bool,
}

impl ConnectionState {
    /// The connection as the decisions see it.
    pub closed spec fn view(&self) -> ConnView {
        ConnView { pending: self.pending@, flushing: self.flushing }
    }

    #[verifier::type_invariant]
    closed spec fn flush_waits_for_something(&self) -> bool {
        self.flushing ==> self.pending.len() > 0
    }

    /// A new connection.
    pub fn new() -> (r: Self)
        ensures
            r.view() == initial_view(),
    {
        ConnectionState { pending: Vec::new(), flushing: false }
    }

    /// Whether a flush waits for pending responses; no request is read then.
    pub fn is_flushing(&self) -> (r: bool)
        ensures
            r == self.view().flushing,
    {
        self.flushing
    }

    /// Whether any response is pending.
    pub fn has_pending(&self) -> (r: bool)
        ensures
            r == (self.view().pending.len() > 0),
    {
        self.pending.len() > 0
    }

    /// A request of category `kind` arrives.
    pub fn on_request(&mut self, kind: MethodKind) -> (r: Action)
        requires
            allowed(old(self).view(), Event::Request(kind)),
        ensures
            (final(self).view(), r) == step(old(self).view(), Event::Request(kind)),
    {
        proof {
            use_type_invariant(&*self);
        }
        if kind != MethodKind::Flush {
            let mut pending = Vec::new();
            std::mem::swap(&mut pending, &mut self.pending);
            pending.push(kind);
            self.pending = pending;
            Action::Dispatch(kind)
        } else if self.pending.len() == 0 {
            Action::SendFlush
        } else {
            self.flushing = true;
            Action::AwaitResponses
        }
    }

    /// The oldest pending response comes back; `ok` says whether the service
    /// succeeded.
    pub fn on_response(&mut self, ok: bool) -> (r: Action)
        requires
            allowed(old(self).view(), Event::Response(ok)),
        ensures
            (final(self).view(), r) == step(old(self).view(), Event::Response(ok)),
    {
        proof {
            use_type_invariant(&*self);
        }
        let flushing = self.flushing;
        self.flushing = false;
        let mut pending = Vec::new();
        std::mem::swap(&mut pending, &mut self.pending);
        let kind = pending.remove(0);
        let d = if ok {
            Disposition::Send
        } else if kind == MethodKind::Info {
            Disposition::Exception
        } else {
            Disposition::Fail
        };
        if flushing && pending.len() == 0 {
            self.pending = pending;
            Action::ReplyThenFlush(kind, d)
        } else {
            *self = ConnectionState { pending, flushing };
            Action::Reply(kind, d)
        }
    }
}

} // verus!
