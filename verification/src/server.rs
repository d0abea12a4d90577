//! The ABCI server and its builder: a server holds one service for each of
//! the four categories of requests, and a builder collects them.

use vstd::prelude::*;

verus! {

/// An ABCI server, which listens for connections and forwards requests to
/// four component services.
pub struct Server<C, M, I, S> {
    consensus: C,
    mempool: M,
    info: I,
    snapshot: S,
}

/// Collects the four component services of a server.
pub struct ServerBuilder<C, M, I, S> {
    consensus: Option<C>,
    mempool: Option<M>,
    info: Option<I>,
    snapshot: Option<S>,
}

impl<C, M, I, S> Server<C, M, I, S> {
    /// The consensus, mempool, info and snapshot services, in that order.
    pub closed spec fn services(&self) -> (C, M, I, S) {
        (self.consensus, self.mempool, self.info, self.snapshot)
    }

    /// A builder with no service set.
    pub fn builder() -> (r: ServerBuilder<C, M, I, S>)
        ensures
            r.slots() == (None::<C>, None::<M>, None::<I>, None::<S>),
    {
        ServerBuilder::default()
    }

    /// Hands out the four services, consensus, mempool, info and snapshot.
    pub fn into_parts(self) -> (r: (C, M, I, S))
        ensures
            r == self.services(),
    {
        (self.consensus, self.mempool, self.info, self.snapshot)
    }
}

impl<C, M, I, S> ServerBuilder<C, M, I, S> {
    /// The consensus, mempool, info and snapshot services set so far.
    pub closed spec fn slots(&self) -> (Option<C>, Option<M>, Option<I>, Option<S>) {
        (self.consensus, self.mempool, self.info, self.snapshot)
    }

    /// Sets the consensus service, in place of any set before.
    pub fn consensus(self, consensus: C) -> (r: Self)
        ensures
            r.slots() == (Some(consensus), self.slots().1, self.slots().2, self.slots().3),
    {
        ServerBuilder { consensus: Some(consensus), ..self }
    }

    /// Sets the mempool service, in place of any set before.
    pub fn mempool(self, mempool: M) -> (r: Self)
        ensures
            r.slots() == (self.slots().0, Some(mempool), self.slots().2, self.slots().3),
    {
        ServerBuilder { mempool: Some(mempool), ..self }
    }

    /// Sets the info service, in place of any set before.
    pub fn info(self, info: I) -> (r: Self)
        ensures
            r.slots() == (self.slots().0, self.slots().1, Some(info), self.slots().3),
    {
        ServerBuilder { info: Some(info), ..self }
    }

    /// Sets the snapshot service, in place of any set before.
    pub fn snapshot(self, snapshot: S) -> (r: Self)
        ensures
            r.slots() == (self.slots().0, self.slots().1, self.slots().2, Some(snapshot)),
    {
        ServerBuilder { snapshot: Some(snapshot), ..self }
    }

    /// The server with the four services set, or `None` while any of them is
    /// not set.
    pub fn finish(self) -> (r: Option<Server<C, M, I, S>>)
        ensures
            match self.slots() {
                (Some(c), Some(m), Some(i), Some(s)) => r matches Some(srv) && srv.services() == (c, m, i, s),
                _ => r is None,
            },
    {
        let consensus = if let Some(consensus) = self.consensus {
            consensus
        } else {
            return None;
        };
        let mempool = if let Some(mempool) = self.mempool {
            mempool
        } else {
            return None;
        };
        let info = if let Some(info) = self.info {
            info
        } else {
            return None;
        };
        let snapshot = if let Some(snapshot) = self.snapshot {
            snapshot
        } else {
            return None;
        };
        Some(Server { consensus, mempool, info, snapshot })
    }
}

impl<C, M, I, S> Default for ServerBuilder<C, M, I, S> {
    fn default() -> (r: Self)
        ensures
            r.slots() == (None::<C>, None::<M>, None::<I>, None::<S>),
    {
        Self { consensus: None, mempool: None, info: None, snapshot: None }
    }
}

} // verus!
