//! ABCI requests: the request of any kind, and the requests of each of the four
//! categories, each carried by its own connection.

use vstd::prelude::*;

pub use tendermint_proto::v0_34::abci::RequestEcho as Echo;
pub use tendermint_proto::v0_34::abci::RequestFlush as Flush;
pub use tendermint_proto::v0_34::abci::RequestInfo as Info;
pub use tendermint_proto::v0_34::abci::RequestSetOption as SetOption;
pub use tendermint_proto::v0_34::abci::RequestInitChain as InitChain;
pub use tendermint_proto::v0_34::abci::RequestQuery as Query;
pub use tendermint_proto::v0_34::abci::RequestBeginBlock as BeginBlock;
pub use tendermint_proto::v0_34::abci::RequestCheckTx as CheckTx;
pub use tendermint_proto::v0_34::abci::RequestDeliverTx as DeliverTx;
pub use tendermint_proto::v0_34::abci::RequestEndBlock as EndBlock;
pub use tendermint_proto::v0_34::abci::RequestCommit as Commit;
pub use tendermint_proto::v0_34::abci::RequestListSnapshots as ListSnapshots;
pub use tendermint_proto::v0_34::abci::RequestOfferSnapshot as OfferSnapshot;
pub use tendermint_proto::v0_34::abci::RequestLoadSnapshotChunk as LoadSnapshotChunk;
pub use tendermint_proto::v0_34::abci::RequestApplySnapshotChunk as ApplySnapshotChunk;

verus! {

/// The protobuf message `tendermint_proto::v0_34::abci::RequestEcho`, carried through unread.
#[verifier::external_type_specification]
#[verifier::external_body]
pub struct ExRequestEcho(tendermint_proto::v0_34::abci::RequestEcho);

/// The protobuf message `tendermint_proto::v0_34::abci::RequestFlush`, carried through unread.
#[verifier::external_type_specification]
#[verifier::external_body]
pub struct ExRequestFlush(tendermint_proto::v0_34::abci::RequestFlush);

/// The protobuf message `tendermint_proto::v0_34::abci::RequestInfo`, carried through unread.
#[verifier::external_type_specification]
#[verifier::external_body]
pub struct ExRequestInfo(tendermint_proto::v0_34::abci::RequestInfo);

/// The protobuf message `tendermint_proto::v0_34::abci::RequestSetOption`, carried through unread.
#[verifier::external_type_specification]
#[verifier::external_body]
pub struct ExRequestSetOption(tendermint_proto::v0_34::abci::RequestSetOption);

/// The protobuf message `tendermint_proto::v0_34::abci::RequestInitChain`, carried through unread.
#[verifier::external_type_specification]
#[verifier::external_body]
pub struct ExRequestInitChain(tendermint_proto::v0_34::abci::RequestInitChain);

/// The protobuf message `tendermint_proto::v0_34::abci::RequestQuery`, carried through unread.
#[verifier::external_type_specification]
#[verifier::external_body]
pub struct ExRequestQuery(tendermint_proto::v0_34::abci::RequestQuery);

/// The protobuf message `tendermint_proto::v0_34::abci::RequestBeginBlock`, carried through unread.
#[verifier::external_type_specification]
#[verifier::external_body]
pub struct ExRequestBeginBlock(tendermint_proto::v0_34::abci::RequestBeginBlock);

/// The protobuf message `tendermint_proto::v0_34::abci::RequestCheckTx`, carried through unread.
#[verifier::external_type_specification]
#[verifier::external_body]
pub struct ExRequestCheckTx(tendermint_proto::v0_34::abci::RequestCheckTx);

/// The protobuf message `tendermint_proto::v0_34::abci::RequestDeliverTx`, carried through unread.
#[verifier::external_type_specification]
#[verifier::external_body]
pub struct ExRequestDeliverTx(tendermint_proto::v0_34::abci::RequestDeliverTx);

/// The protobuf message `tendermint_proto::v0_34::abci::RequestEndBlock`, carried through unread.
#[verifier::external_type_specification]
#[verifier::external_body]
pub struct ExRequestEndBlock(tendermint_proto::v0_34::abci::RequestEndBlock);

/// The protobuf message `tendermint_proto::v0_34::abci::RequestCommit`, carried through unread.
#[verifier::external_type_specification]
#[verifier::external_body]
pub struct ExRequestCommit(tendermint_proto::v0_34::abci::RequestCommit);

/// The protobuf message `tendermint_proto::v0_34::abci::RequestListSnapshots`, carried through unread.
#[verifier::external_type_specification]
#[verifier::external_body]
pub struct ExRequestListSnapshots(tendermint_proto::v0_34::abci::RequestListSnapshots);

/// The protobuf message `tendermint_proto::v0_34::abci::RequestOfferSnapshot`, carried through unread.
#[verifier::external_type_specification]
#[verifier::external_body]
pub struct ExRequestOfferSnapshot(tendermint_proto::v0_34::abci::RequestOfferSnapshot);

/// The protobuf message `tendermint_proto::v0_34::abci::RequestLoadSnapshotChunk`, carried through unread.
#[verifier::external_type_specification]
#[verifier::external_body]
pub struct ExRequestLoadSnapshotChunk(tendermint_proto::v0_34::abci::RequestLoadSnapshotChunk);

/// The protobuf message `tendermint_proto::v0_34::abci::RequestApplySnapshotChunk`, carried through unread.
#[verifier::external_type_specification]
#[verifier::external_body]
pub struct ExRequestApplySnapshotChunk(tendermint_proto::v0_34::abci::RequestApplySnapshotChunk);

/// `Clone::clone` of `RequestEcho`, which `derive` wrote: nothing is stated of the copy.
pub assume_specification [<tendermint_proto::v0_34::abci::RequestEcho as Clone>::clone](x: &tendermint_proto::v0_34::abci::RequestEcho) -> tendermint_proto::v0_34::abci::RequestEcho;

/// `Clone::clone` of `RequestFlush`, which `derive` wrote: nothing is stated of the copy.
pub assume_specification [<tendermint_proto::v0_34::abci::RequestFlush as Clone>::clone](x: &tendermint_proto::v0_34::abci::RequestFlush) -> tendermint_proto::v0_34::abci::RequestFlush;

/// `Clone::clone` of `RequestInfo`, which `derive` wrote: nothing is stated of the copy.
pub assume_specification [<tendermint_proto::v0_34::abci::RequestInfo as Clone>::clone](x: &tendermint_proto::v0_34::abci::RequestInfo) -> tendermint_proto::v0_34::abci::RequestInfo;

/// `Clone::clone` of `RequestSetOption`, which `derive` wrote: nothing is stated of the copy.
pub assume_specification [<tendermint_proto::v0_34::abci::RequestSetOption as Clone>::clone](x: &tendermint_proto::v0_34::abci::RequestSetOption) -> tendermint_proto::v0_34::abci::RequestSetOption;

/// `Clone::clone` of `RequestInitChain`, which `derive` wrote: nothing is stated of the copy.
pub assume_specification [<tendermint_proto::v0_34::abci::RequestInitChain as Clone>::clone](x: &tendermint_proto::v0_34::abci::RequestInitChain) -> tendermint_proto::v0_34::abci::RequestInitChain;

/// `Clone::clone` of `RequestQuery`, which `derive` wrote: nothing is stated of the copy.
pub assume_specification [<tendermint_proto::v0_34::abci::RequestQuery as Clone>::clone](x: &tendermint_proto::v0_34::abci::RequestQuery) -> tendermint_proto::v0_34::abci::RequestQuery;

/// `Clone::clone` of `RequestBeginBlock`, which `derive` wrote: nothing is stated of the copy.
pub assume_specification [<tendermint_proto::v0_34::abci::RequestBeginBlock as Clone>::clone](x: &tendermint_proto::v0_34::abci::RequestBeginBlock) -> tendermint_proto::v0_34::abci::RequestBeginBlock;

/// `Clone::clone` of `RequestCheckTx`, which `derive` wrote: nothing is stated of the copy.
pub assume_specification [<tendermint_proto::v0_34::abci::RequestCheckTx as Clone>::clone](x: &tendermint_proto::v0_34::abci::RequestCheckTx) -> tendermint_proto::v0_34::abci::RequestCheckTx;

/// `Clone::clone` of `RequestDeliverTx`, which `derive` wrote: nothing is stated of the copy.
pub assume_specification [<tendermint_proto::v0_34::abci::RequestDeliverTx as Clone>::clone](x: &tendermint_proto::v0_34::abci::RequestDeliverTx) -> tendermint_proto::v0_34::abci::RequestDeliverTx;

/// `Clone::clone` of `RequestEndBlock`, which `derive` wrote: nothing is stated of the copy.
pub assume_specification [<tendermint_proto::v0_34::abci::RequestEndBlock as Clone>::clone](x: &tendermint_proto::v0_34::abci::RequestEndBlock) -> tendermint_proto::v0_34::abci::RequestEndBlock;

/// `Clone::clone` of `RequestCommit`, which `derive` wrote: nothing is stated of the copy.
pub assume_specification [<tendermint_proto::v0_34::abci::RequestCommit as Clone>::clone](x: &tendermint_proto::v0_34::abci::RequestCommit) -> tendermint_proto::v0_34::abci::RequestCommit;

/// `Clone::clone` of `RequestListSnapshots`, which `derive` wrote: nothing is stated of the copy.
pub assume_specification [<tendermint_proto::v0_34::abci::RequestListSnapshots as Clone>::clone](x: &tendermint_proto::v0_34::abci::RequestListSnapshots) -> tendermint_proto::v0_34::abci::RequestListSnapshots;

/// `Clone::clone` of `RequestOfferSnapshot`, which `derive` wrote: nothing is stated of the copy.
pub assume_specification [<tendermint_proto::v0_34::abci::RequestOfferSnapshot as Clone>::clone](x: &tendermint_proto::v0_34::abci::RequestOfferSnapshot) -> tendermint_proto::v0_34::abci::RequestOfferSnapshot;

/// `Clone::clone` of `RequestLoadSnapshotChunk`, which `derive` wrote: nothing is stated of the copy.
pub assume_specification [<tendermint_proto::v0_34::abci::RequestLoadSnapshotChunk as Clone>::clone](x: &tendermint_proto::v0_34::abci::RequestLoadSnapshotChunk) -> tendermint_proto::v0_34::abci::RequestLoadSnapshotChunk;

/// `Clone::clone` of `RequestApplySnapshotChunk`, which `derive` wrote: nothing is stated of the copy.
pub assume_specification [<tendermint_proto::v0_34::abci::RequestApplySnapshotChunk as Clone>::clone](x: &tendermint_proto::v0_34::abci::RequestApplySnapshotChunk) -> tendermint_proto::v0_34::abci::RequestApplySnapshotChunk;

/// An ABCI request.
#[derive(Clone, PartialEq, Debug)]
pub enum Request {
    Echo(Echo),
    Flush(Flush),
    Info(Info),
    SetOption(SetOption),
    InitChain(InitChain),
    Query(Query),
    BeginBlock(BeginBlock),
    CheckTx(CheckTx),
    DeliverTx(DeliverTx),
    EndBlock(EndBlock),
    Commit(Commit),
    ListSnapshots(ListSnapshots),
    OfferSnapshot(OfferSnapshot),
    LoadSnapshotChunk(LoadSnapshotChunk),
    ApplySnapshotChunk(ApplySnapshotChunk),
}

/// An ABCI request sent over the consensus connection.
#[derive(Clone, PartialEq, Debug)]
pub enum ConsensusRequest {
    InitChain(InitChain),
    BeginBlock(BeginBlock),
    DeliverTx(DeliverTx),
    EndBlock(EndBlock),
    Commit(Commit),
}

/// An ABCI request sent over the mempool connection.
#[derive(Clone, PartialEq, Debug)]
pub enum MempoolRequest {
    CheckTx(CheckTx),
}

/// An ABCI request sent over the info connection.
#[derive(Clone, PartialEq, Debug)]
pub enum InfoRequest {
    Info(Info),
    Query(Query),
}

/// An ABCI request sent over the snapshot connection.
#[derive(Clone, PartialEq, Debug)]
pub enum SnapshotRequest {
    ListSnapshots(ListSnapshots),
    OfferSnapshot(OfferSnapshot),
    LoadSnapshotChunk(LoadSnapshotChunk),
    ApplySnapshotChunk(ApplySnapshotChunk),
}

impl ConsensusRequest {
    /// The request of any kind that this one is.
    pub open spec fn as_request(self) -> Request {
        match self {
            ConsensusRequest::InitChain(x) => Request::InitChain(x),
            ConsensusRequest::BeginBlock(x) => Request::BeginBlock(x),
            ConsensusRequest::DeliverTx(x) => Request::DeliverTx(x),
            ConsensusRequest::EndBlock(x) => Request::EndBlock(x),
            ConsensusRequest::Commit(x) => Request::Commit(x),
        }
    }

    /// The request of this category that `r` is, if it is one.
    pub open spec fn of_request(r: Request) -> Option<ConsensusRequest> {
        match r {
            Request::InitChain(x) => Some(ConsensusRequest::InitChain(x)),
            Request::BeginBlock(x) => Some(ConsensusRequest::BeginBlock(x)),
            Request::DeliverTx(x) => Some(ConsensusRequest::DeliverTx(x)),
            Request::EndBlock(x) => Some(ConsensusRequest::EndBlock(x)),
            Request::Commit(x) => Some(ConsensusRequest::Commit(x)),
            _ => None,
        }
    }
}

impl From<ConsensusRequest> for Request {
    fn from(req: ConsensusRequest) -> (r: Self) {
        match req {
            ConsensusRequest::InitChain(x) => Self::InitChain(x),
            ConsensusRequest::BeginBlock(x) => Self::BeginBlock(x),
            ConsensusRequest::DeliverTx(x) => Self::DeliverTx(x),
            ConsensusRequest::EndBlock(x) => Self::EndBlock(x),
            ConsensusRequest::Commit(x) => Self::Commit(x),
        }
    }
}

impl vstd::std_specs::convert::FromSpecImpl<ConsensusRequest> for Request {
    open spec fn obeys_from_spec() -> bool {
        true
    }

    open spec fn from_spec(v: ConsensusRequest) -> Self {
        v.as_request()
    }
}

impl TryFrom<Request> for ConsensusRequest {
    type Error = &'static str;

    fn try_from(req: Request) -> (r: Result<Self, Self::Error>) {
        match req {
            Request::InitChain(x) => Ok(Self::InitChain(x)),
            Request::BeginBlock(x) => Ok(Self::BeginBlock(x)),
            Request::DeliverTx(x) => Ok(Self::DeliverTx(x)),
            Request::EndBlock(x) => Ok(Self::EndBlock(x)),
            Request::Commit(x) => Ok(Self::Commit(x)),
            _ => Err("wrong request type"),
        }
    }
}

impl vstd::std_specs::convert::TryFromSpecImpl<Request> for ConsensusRequest {
    open spec fn obeys_try_from_spec() -> bool {
        true
    }

    open spec fn try_from_spec(v: Request) -> Result<Self, &'static str> {
        match ConsensusRequest::of_request(v) {
            Some(x) => Ok(x),
            None => Err("wrong request type"),
        }
    }
}

impl MempoolRequest {
    /// The request of any kind that this one is.
    pub open spec fn as_request(self) -> Request {
        match self {
            MempoolRequest::CheckTx(x) => Request::CheckTx(x),
        }
    }

    /// The request of this category that `r` is, if it is one.
    pub open spec fn of_request(r: Request) -> Option<MempoolRequest> {
        match r {
            Request::CheckTx(x) => Some(MempoolRequest::CheckTx(x)),
            _ => None,
        }
    }
}

impl From<MempoolRequest> for Request {
    fn from(req: MempoolRequest) -> (r: Self) {
        match req {
            MempoolRequest::CheckTx(x) => Self::CheckTx(x),
        }
    }
}

impl vstd::std_specs::convert::FromSpecImpl<MempoolRequest> for Request {
    open spec fn obeys_from_spec() -> bool {
        true
    }

    open spec fn from_spec(v: MempoolRequest) -> Self {
        v.as_request()
    }
}

impl TryFrom<Request> for MempoolRequest {
    type Error = &'static str;

    fn try_from(req: Request) -> (r: Result<Self, Self::Error>) {
        match req {
            Request::CheckTx(x) => Ok(Self::CheckTx(x)),
            _ => Err("wrong request type"),
        }
    }
}

impl vstd::std_specs::convert::TryFromSpecImpl<Request> for MempoolRequest {
    open spec fn obeys_try_from_spec() -> bool {
        true
    }

    open spec fn try_from_spec(v: Request) -> Result<Self, &'static str> {
        match MempoolRequest::of_request(v) {
            Some(x) => Ok(x),
            None => Err("wrong request type"),
        }
    }
}

impl InfoRequest {
    /// The request of any kind that this one is.
    pub open spec fn as_request(self) -> Request {
        match self {
            InfoRequest::Info(x) => Request::Info(x),
            InfoRequest::Query(x) => Request::Query(x),
        }
    }

    /// The request of this category that `r` is, if it is one.
    pub open spec fn of_request(r: Request) -> Option<InfoRequest> {
        match r {
            Request::Info(x) => Some(InfoRequest::Info(x)),
            Request::Query(x) => Some(InfoRequest::Query(x)),
            _ => None,
        }
    }
}

impl From<InfoRequest> for Request {
    fn from(req: InfoRequest) -> (r: Self) {
        match req {
            InfoRequest::Info(x) => Self::Info(x),
            InfoRequest::Query(x) => Self::Query(x),
        }
    }
}

impl vstd::std_specs::convert::FromSpecImpl<InfoRequest> for Request {
    open spec fn obeys_from_spec() -> bool {
        true
    }

    open spec fn from_spec(v: InfoRequest) -> Self {
        v.as_request()
    }
}

impl TryFrom<Request> for InfoRequest {
    type Error = &'static str;

    fn try_from(req: Request) -> (r: Result<Self, Self::Error>) {
        match req {
            Request::Info(x) => Ok(Self::Info(x)),
            Request::Query(x) => Ok(Self::Query(x)),
            _ => Err("wrong request type"),
        }
    }
}

impl vstd::std_specs::convert::TryFromSpecImpl<Request> for InfoRequest {
    open spec fn obeys_try_from_spec() -> bool {
        true
    }

    open spec fn try_from_spec(v: Request) -> Result<Self, &'static str> {
        match InfoRequest::of_request(v) {
            Some(x) => Ok(x),
            None => Err("wrong request type"),
        }
    }
}

impl SnapshotRequest {
    /// The request of any kind that this one is.
    pub open spec fn as_request(self) -> Request {
        match self {
            SnapshotRequest::ListSnapshots(x) => Request::ListSnapshots(x),
            SnapshotRequest::OfferSnapshot(x) => Request::OfferSnapshot(x),
            SnapshotRequest::LoadSnapshotChunk(x) => Request::LoadSnapshotChunk(x),
            SnapshotRequest::ApplySnapshotChunk(x) => Request::ApplySnapshotChunk(x),
        }
    }

    /// The request of this category that `r` is, if it is one.
    pub open spec fn of_request(r: Request) -> Option<SnapshotRequest> {
        match r {
            Request::ListSnapshots(x) => Some(SnapshotRequest::ListSnapshots(x)),
            Request::OfferSnapshot(x) => Some(SnapshotRequest::OfferSnapshot(x)),
            Request::LoadSnapshotChunk(x) => Some(SnapshotRequest::LoadSnapshotChunk(x)),
            Request::ApplySnapshotChunk(x) => Some(SnapshotRequest::ApplySnapshotChunk(x)),
            _ => None,
        }
    }
}

impl From<SnapshotRequest> for Request {
    fn from(req: SnapshotRequest) -> (r: Self) {
        match req {
            SnapshotRequest::ListSnapshots(x) => Self::ListSnapshots(x),
            SnapshotRequest::OfferSnapshot(x) => Self::OfferSnapshot(x),
            SnapshotRequest::LoadSnapshotChunk(x) => Self::LoadSnapshotChunk(x),
            SnapshotRequest::ApplySnapshotChunk(x) => Self::ApplySnapshotChunk(x),
        }
    }
}

impl vstd::std_specs::convert::FromSpecImpl<SnapshotRequest> for Request {
    open spec fn obeys_from_spec() -> bool {
        true
    }

    open spec fn from_spec(v: SnapshotRequest) -> Self {
        v.as_request()
    }
}

impl TryFrom<Request> for SnapshotRequest {
    type Error = &'static str;

    fn try_from(req: Request) -> (r: Result<Self, Self::Error>) {
        match req {
            Request::ListSnapshots(x) => Ok(Self::ListSnapshots(x)),
            Request::OfferSnapshot(x) => Ok(Self::OfferSnapshot(x)),
            Request::LoadSnapshotChunk(x) => Ok(Self::LoadSnapshotChunk(x)),
            Request::ApplySnapshotChunk(x) => Ok(Self::ApplySnapshotChunk(x)),
            _ => Err("wrong request type"),
        }
    }
}

impl vstd::std_specs::convert::TryFromSpecImpl<Request> for SnapshotRequest {
    open spec fn obeys_try_from_spec() -> bool {
        true
    }

    open spec fn try_from_spec(v: Request) -> Result<Self, &'static str> {
        match SnapshotRequest::of_request(v) {
            Some(x) => Ok(x),
            None => Err("wrong request type"),
        }
    }
}

/// A request of a category, taken as a request of any kind and back, is the same
/// request; and a request of any kind that belongs to a category is the one it
/// belongs as.
pub proof fn lemma_request_category_roundtrip(consensus: ConsensusRequest, mempool: MempoolRequest, info: InfoRequest, snapshot: SnapshotRequest, r: Request)
    ensures
        ConsensusRequest::of_request(consensus.as_request()) == Some(consensus),
        MempoolRequest::of_request(mempool.as_request()) == Some(mempool),
        InfoRequest::of_request(info.as_request()) == Some(info),
        SnapshotRequest::of_request(snapshot.as_request()) == Some(snapshot),
        ConsensusRequest::of_request(r) matches Some(x) ==> x.as_request() == r,
        MempoolRequest::of_request(r) matches Some(x) ==> x.as_request() == r,
        InfoRequest::of_request(r) matches Some(x) ==> x.as_request() == r,
        SnapshotRequest::of_request(r) matches Some(x) ==> x.as_request() == r,
{
}

/// Every request belongs to at most one category, and to none exactly when it is
/// Echo, Flush or SetOption.
pub proof fn lemma_request_category_unique(r: Request)
    ensures
        !(ConsensusRequest::of_request(r) is Some && MempoolRequest::of_request(r) is Some),
        !(ConsensusRequest::of_request(r) is Some && InfoRequest::of_request(r) is Some),
        !(ConsensusRequest::of_request(r) is Some && SnapshotRequest::of_request(r) is Some),
        !(MempoolRequest::of_request(r) is Some && InfoRequest::of_request(r) is Some),
        !(MempoolRequest::of_request(r) is Some && SnapshotRequest::of_request(r) is Some),
        !(InfoRequest::of_request(r) is Some && SnapshotRequest::of_request(r) is Some),
        (r is Echo || r is Flush || r is SetOption) <==> (ConsensusRequest::of_request(r) is None && MempoolRequest::of_request(r) is None && InfoRequest::of_request(r) is None && SnapshotRequest::of_request(r) is None),
{
}

/// Converting a request of any kind into a consensus request succeeds exactly for
/// the InitChain, BeginBlock, DeliverTx, EndBlock or Commit requests, and keeps the message they carry; every other request
/// is refused with "wrong request type". Converting a consensus request to a
/// request of any kind and back gives it unchanged.
pub proof fn lemma_consensus_request_conversion(r: Request, x: ConsensusRequest)
    ensures
        r matches Request::InitChain(p) ==> <ConsensusRequest as vstd::std_specs::convert::TryFromSpec<Request>>::try_from_spec(r) == Ok::<ConsensusRequest, &'static str>(ConsensusRequest::InitChain(p)),
        r matches Request::BeginBlock(p) ==> <ConsensusRequest as vstd::std_specs::convert::TryFromSpec<Request>>::try_from_spec(r) == Ok::<ConsensusRequest, &'static str>(ConsensusRequest::BeginBlock(p)),
        r matches Request::DeliverTx(p) ==> <ConsensusRequest as vstd::std_specs::convert::TryFromSpec<Request>>::try_from_spec(r) == Ok::<ConsensusRequest, &'static str>(ConsensusRequest::DeliverTx(p)),
        r matches Request::EndBlock(p) ==> <ConsensusRequest as vstd::std_specs::convert::TryFromSpec<Request>>::try_from_spec(r) == Ok::<ConsensusRequest, &'static str>(ConsensusRequest::EndBlock(p)),
        r matches Request::Commit(p) ==> <ConsensusRequest as vstd::std_specs::convert::TryFromSpec<Request>>::try_from_spec(r) == Ok::<ConsensusRequest, &'static str>(ConsensusRequest::Commit(p)),
        !(r is InitChain || r is BeginBlock || r is DeliverTx || r is EndBlock || r is Commit) ==> <ConsensusRequest as vstd::std_specs::convert::TryFromSpec<Request>>::try_from_spec(r) == Err::<ConsensusRequest, &'static str>("wrong request type"),
        <ConsensusRequest as vstd::std_specs::convert::TryFromSpec<Request>>::try_from_spec(<Request as vstd::std_specs::convert::FromSpec<ConsensusRequest>>::from_spec(x)) == Ok::<ConsensusRequest, &'static str>(x),
        <ConsensusRequest as vstd::std_specs::convert::TryFromSpec<Request>>::try_from_spec(r) matches Ok(y) ==> <Request as vstd::std_specs::convert::FromSpec<ConsensusRequest>>::from_spec(y) == r,
{
}

/// Converting a request of any kind into a mempool request succeeds exactly for
/// the CheckTx requests, and keeps the message they carry; every other request
/// is refused with "wrong request type". Converting a mempool request to a
/// request of any kind and back gives it unchanged.
pub proof fn lemma_mempool_request_conversion(r: Request, x: MempoolRequest)
    ensures
        r matches Request::CheckTx(p) ==> <MempoolRequest as vstd::std_specs::convert::TryFromSpec<Request>>::try_from_spec(r) == Ok::<MempoolRequest, &'static str>(MempoolRequest::CheckTx(p)),
        !(r is CheckTx) ==> <MempoolRequest as vstd::std_specs::convert::TryFromSpec<Request>>::try_from_spec(r) == Err::<MempoolRequest, &'static str>("wrong request type"),
        <MempoolRequest as vstd::std_specs::convert::TryFromSpec<Request>>::try_from_spec(<Request as vstd::std_specs::convert::FromSpec<MempoolRequest>>::from_spec(x)) == Ok::<MempoolRequest, &'static str>(x),
        <MempoolRequest as vstd::std_specs::convert::TryFromSpec<Request>>::try_from_spec(r) matches Ok(y) ==> <Request as vstd::std_specs::convert::FromSpec<MempoolRequest>>::from_spec(y) == r,
{
}

/// Converting a request of any kind into a info request succeeds exactly for
/// the Info or Query requests, and keeps the message they carry; every other request
/// is refused with "wrong request type". Converting a info request to a
/// request of any kind and back gives it unchanged.
pub proof fn lemma_info_request_conversion(r: Request, x: InfoRequest)
    ensures
        r matches Request::Info(p) ==> <InfoRequest as vstd::std_specs::convert::TryFromSpec<Request>>::try_from_spec(r) == Ok::<InfoRequest, &'static str>(InfoRequest::Info(p)),
        r matches Request::Query(p) ==> <InfoRequest as vstd::std_specs::convert::TryFromSpec<Request>>::try_from_spec(r) == Ok::<InfoRequest, &'static str>(InfoRequest::Query(p)),
        !(r is Info || r is Query) ==> <InfoRequest as vstd::std_specs::convert::TryFromSpec<Request>>::try_from_spec(r) == Err::<InfoRequest, &'static str>("wrong request type"),
        <InfoRequest as vstd::std_specs::convert::TryFromSpec<Request>>::try_from_spec(<Request as vstd::std_specs::convert::FromSpec<InfoRequest>>::from_spec(x)) == Ok::<InfoRequest, &'static str>(x),
        <InfoRequest as vstd::std_specs::convert::TryFromSpec<Request>>::try_from_spec(r) matches Ok(y) ==> <Request as vstd::std_specs::convert::FromSpec<InfoRequest>>::from_spec(y) == r,
{
}

/// Converting a request of any kind into a snapshot request succeeds exactly for
/// the ListSnapshots, OfferSnapshot, LoadSnapshotChunk or ApplySnapshotChunk requests, and keeps the message they carry; every other request
/// is refused with "wrong request type". Converting a snapshot request to a
/// request of any kind and back gives it unchanged.
pub proof fn lemma_snapshot_request_conversion(r: Request, x: SnapshotRequest)
    ensures
        r matches Request::ListSnapshots(p) ==> <SnapshotRequest as vstd::std_specs::convert::TryFromSpec<Request>>::try_from_spec(r) == Ok::<SnapshotRequest, &'static str>(SnapshotRequest::ListSnapshots(p)),
        r matches Request::OfferSnapshot(p) ==> <SnapshotRequest as vstd::std_specs::convert::TryFromSpec<Request>>::try_from_spec(r) == Ok::<SnapshotRequest, &'static str>(SnapshotRequest::OfferSnapshot(p)),
        r matches Request::LoadSnapshotChunk(p) ==> <SnapshotRequest as vstd::std_specs::convert::TryFromSpec<Request>>::try_from_spec(r) == Ok::<SnapshotRequest, &'static str>(SnapshotRequest::LoadSnapshotChunk(p)),
        r matches Request::ApplySnapshotChunk(p) ==> <SnapshotRequest as vstd::std_specs::convert::TryFromSpec<Request>>::try_from_spec(r) == Ok::<SnapshotRequest, &'static str>(SnapshotRequest::ApplySnapshotChunk(p)),
        !(r is ListSnapshots || r is OfferSnapshot || r is LoadSnapshotChunk || r is ApplySnapshotChunk) ==> <SnapshotRequest as vstd::std_specs::convert::TryFromSpec<Request>>::try_from_spec(r) == Err::<SnapshotRequest, &'static str>("wrong request type"),
        <SnapshotRequest as vstd::std_specs::convert::TryFromSpec<Request>>::try_from_spec(<Request as vstd::std_specs::convert::FromSpec<SnapshotRequest>>::from_spec(x)) == Ok::<SnapshotRequest, &'static str>(x),
        <SnapshotRequest as vstd::std_specs::convert::TryFromSpec<Request>>::try_from_spec(r) matches Ok(y) ==> <Request as vstd::std_specs::convert::FromSpec<SnapshotRequest>>::from_spec(y) == r,
{
}

} // verus!
