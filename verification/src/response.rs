//! ABCI responses: the response of any kind, and the responses of each of the four
//! categories, each carried by its own connection.

use vstd::prelude::*;

pub use tendermint_proto::v0_34::abci::ResponseException as Exception;
pub use tendermint_proto::v0_34::abci::ResponseEcho as Echo;
pub use tendermint_proto::v0_34::abci::ResponseFlush as Flush;
pub use tendermint_proto::v0_34::abci::ResponseInfo as Info;
pub use tendermint_proto::v0_34::abci::ResponseSetOption as SetOption;
pub use tendermint_proto::v0_34::abci::ResponseInitChain as InitChain;
pub use tendermint_proto::v0_34::abci::ResponseQuery as Query;
pub use tendermint_proto::v0_34::abci::ResponseBeginBlock as BeginBlock;
pub use tendermint_proto::v0_34::abci::ResponseCheckTx as CheckTx;
pub use tendermint_proto::v0_34::abci::ResponseDeliverTx as DeliverTx;
pub use tendermint_proto::v0_34::abci::ResponseEndBlock as EndBlock;
pub use tendermint_proto::v0_34::abci::ResponseCommit as Commit;
pub use tendermint_proto::v0_34::abci::ResponseListSnapshots as ListSnapshots;
pub use tendermint_proto::v0_34::abci::ResponseOfferSnapshot as OfferSnapshot;
pub use tendermint_proto::v0_34::abci::ResponseLoadSnapshotChunk as LoadSnapshotChunk;
pub use tendermint_proto::v0_34::abci::ResponseApplySnapshotChunk as ApplySnapshotChunk;

verus! {

/// The protobuf message `tendermint_proto::v0_34::abci::ResponseException`, carried through unread.
#[verifier::external_type_specification]
#[verifier::external_body]
pub struct ExResponseException(tendermint_proto::v0_34::abci::ResponseException);

/// The protobuf message `tendermint_proto::v0_34::abci::ResponseEcho`, carried through unread.
#[verifier::external_type_specification]
#[verifier::external_body]
pub struct ExResponseEcho(tendermint_proto::v0_34::abci::ResponseEcho);

/// The protobuf message `tendermint_proto::v0_34::abci::ResponseFlush`, carried through unread.
#[verifier::external_type_specification]
#[verifier::external_body]
pub struct ExResponseFlush(tendermint_proto::v0_34::abci::ResponseFlush);

/// The protobuf message `tendermint_proto::v0_34::abci::ResponseInfo`, carried through unread.
#[verifier::external_type_specification]
#[verifier::external_body]
pub struct ExResponseInfo(tendermint_proto::v0_34::abci::ResponseInfo);

/// The protobuf message `tendermint_proto::v0_34::abci::ResponseSetOption`, carried through unread.
#[verifier::external_type_specification]
#[verifier::external_body]
pub struct ExResponseSetOption(tendermint_proto::v0_34::abci::ResponseSetOption);

/// The protobuf message `tendermint_proto::v0_34::abci::ResponseInitChain`, carried through unread.
#[verifier::external_type_specification]
#[verifier::external_body]
pub struct ExResponseInitChain(tendermint_proto::v0_34::abci::ResponseInitChain);

/// The protobuf message `tendermint_proto::v0_34::abci::ResponseQuery`, carried through unread.
#[verifier::external_type_specification]
#[verifier::external_body]
pub struct ExResponseQuery(tendermint_proto::v0_34::abci::ResponseQuery);

/// The protobuf message `tendermint_proto::v0_34::abci::ResponseBeginBlock`, carried through unread.
#[verifier::external_type_specification]
#[verifier::external_body]
pub struct ExResponseBeginBlock(tendermint_proto::v0_34::abci::ResponseBeginBlock);

/// The protobuf message `tendermint_proto::v0_34::abci::ResponseCheckTx`, carried through unread.
#[verifier::external_type_specification]
#[verifier::external_body]
pub struct ExResponseCheckTx(tendermint_proto::v0_34::abci::ResponseCheckTx);

/// The protobuf message `tendermint_proto::v0_34::abci::ResponseDeliverTx`, carried through unread.
#[verifier::external_type_specification]
#[verifier::external_body]
pub struct ExResponseDeliverTx(tendermint_proto::v0_34::abci::ResponseDeliverTx);

/// The protobuf message `tendermint_proto::v0_34::abci::ResponseEndBlock`, carried through unread.
#[verifier::external_type_specification]
#[verifier::external_body]
pub struct ExResponseEndBlock(tendermint_proto::v0_34::abci::ResponseEndBlock);

/// The protobuf message `tendermint_proto::v0_34::abci::ResponseCommit`, carried through unread.
#[verifier::external_type_specification]
#[verifier::external_body]
pub struct ExResponseCommit(tendermint_proto::v0_34::abci::ResponseCommit);

/// The protobuf message `tendermint_proto::v0_34::abci::ResponseListSnapshots`, carried through unread.
#[verifier::external_type_specification]
#[verifier::external_body]
pub struct ExResponseListSnapshots(tendermint_proto::v0_34::abci::ResponseListSnapshots);

/// The protobuf message `tendermint_proto::v0_34::abci::ResponseOfferSnapshot`, carried through unread.
#[verifier::external_type_specification]
#[verifier::external_body]
pub struct ExResponseOfferSnapshot(tendermint_proto::v0_34::abci::ResponseOfferSnapshot);

/// The protobuf message `tendermint_proto::v0_34::abci::ResponseLoadSnapshotChunk`, carried through unread.
#[verifier::external_type_specification]
#[verifier::external_body]
pub struct ExResponseLoadSnapshotChunk(tendermint_proto::v0_34::abci::ResponseLoadSnapshotChunk);

/// The protobuf message `tendermint_proto::v0_34::abci::ResponseApplySnapshotChunk`, carried through unread.
#[verifier::external_type_specification]
#[verifier::external_body]
pub struct ExResponseApplySnapshotChunk(tendermint_proto::v0_34::abci::ResponseApplySnapshotChunk);

/// `Clone::clone` of `ResponseInitChain`, which `derive` wrote: nothing is stated of the copy.
pub assume_specification [<tendermint_proto::v0_34::abci::ResponseInitChain as Clone>::clone](x: &tendermint_proto::v0_34::abci::ResponseInitChain) -> tendermint_proto::v0_34::abci::ResponseInitChain;

/// `Clone::clone` of `ResponseBeginBlock`, which `derive` wrote: nothing is stated of the copy.
pub assume_specification [<tendermint_proto::v0_34::abci::ResponseBeginBlock as Clone>::clone](x: &tendermint_proto::v0_34::abci::ResponseBeginBlock) -> tendermint_proto::v0_34::abci::ResponseBeginBlock;

/// `Clone::clone` of `ResponseDeliverTx`, which `derive` wrote: nothing is stated of the copy.
pub assume_specification [<tendermint_proto::v0_34::abci::ResponseDeliverTx as Clone>::clone](x: &tendermint_proto::v0_34::abci::ResponseDeliverTx) -> tendermint_proto::v0_34::abci::ResponseDeliverTx;

/// `Clone::clone` of `ResponseEndBlock`, which `derive` wrote: nothing is stated of the copy.
pub assume_specification [<tendermint_proto::v0_34::abci::ResponseEndBlock as Clone>::clone](x: &tendermint_proto::v0_34::abci::ResponseEndBlock) -> tendermint_proto::v0_34::abci::ResponseEndBlock;

/// `Clone::clone` of `ResponseCommit`, which `derive` wrote: nothing is stated of the copy.
pub assume_specification [<tendermint_proto::v0_34::abci::ResponseCommit as Clone>::clone](x: &tendermint_proto::v0_34::abci::ResponseCommit) -> tendermint_proto::v0_34::abci::ResponseCommit;

/// `Clone::clone` of `ResponseCheckTx`, which `derive` wrote: nothing is stated of the copy.
pub assume_specification [<tendermint_proto::v0_34::abci::ResponseCheckTx as Clone>::clone](x: &tendermint_proto::v0_34::abci::ResponseCheckTx) -> tendermint_proto::v0_34::abci::ResponseCheckTx;

/// `Clone::clone` of `ResponseInfo`, which `derive` wrote: nothing is stated of the copy.
pub assume_specification [<tendermint_proto::v0_34::abci::ResponseInfo as Clone>::clone](x: &tendermint_proto::v0_34::abci::ResponseInfo) -> tendermint_proto::v0_34::abci::ResponseInfo;

/// `Clone::clone` of `ResponseQuery`, which `derive` wrote: nothing is stated of the copy.
pub assume_specification [<tendermint_proto::v0_34::abci::ResponseQuery as Clone>::clone](x: &tendermint_proto::v0_34::abci::ResponseQuery) -> tendermint_proto::v0_34::abci::ResponseQuery;

/// `Clone::clone` of `ResponseListSnapshots`, which `derive` wrote: nothing is stated of the copy.
pub assume_specification [<tendermint_proto::v0_34::abci::ResponseListSnapshots as Clone>::clone](x: &tendermint_proto::v0_34::abci::ResponseListSnapshots) -> tendermint_proto::v0_34::abci::ResponseListSnapshots;

/// `Clone::clone` of `ResponseOfferSnapshot`, which `derive` wrote: nothing is stated of the copy.
pub assume_specification [<tendermint_proto::v0_34::abci::ResponseOfferSnapshot as Clone>::clone](x: &tendermint_proto::v0_34::abci::ResponseOfferSnapshot) -> tendermint_proto::v0_34::abci::ResponseOfferSnapshot;

/// `Clone::clone` of `ResponseLoadSnapshotChunk`, which `derive` wrote: nothing is stated of the copy.
pub assume_specification [<tendermint_proto::v0_34::abci::ResponseLoadSnapshotChunk as Clone>::clone](x: &tendermint_proto::v0_34::abci::ResponseLoadSnapshotChunk) -> tendermint_proto::v0_34::abci::ResponseLoadSnapshotChunk;

/// `Clone::clone` of `ResponseApplySnapshotChunk`, which `derive` wrote: nothing is stated of the copy.
pub assume_specification [<tendermint_proto::v0_34::abci::ResponseApplySnapshotChunk as Clone>::clone](x: &tendermint_proto::v0_34::abci::ResponseApplySnapshotChunk) -> tendermint_proto::v0_34::abci::ResponseApplySnapshotChunk;

/// An ABCI response.
pub enum Response {
    Exception(Exception),
    Echo(Echo),
    Flush(Flush),
    Info(Info),
    SetOption(SetOption),
    InitChain(InitChain),
    Query(Query),
    BeginBlock(BeginBlock),
    CheckTx(CheckTx),
    DeliverTx(DeliverTx),
    EndBlock(EndBlock),
    Commit(Commit),
    ListSnapshots(ListSnapshots),
    OfferSnapshot(OfferSnapshot),
    LoadSnapshotChunk(LoadSnapshotChunk),
    ApplySnapshotChunk(ApplySnapshotChunk),
}

/// An ABCI response sent over the consensus connection.
#[derive(Clone, PartialEq, Debug)]
pub enum ConsensusResponse {
    InitChain(InitChain),
    BeginBlock(BeginBlock),
    DeliverTx(DeliverTx),
    EndBlock(EndBlock),
    Commit(Commit),
}

/// An ABCI response sent over the mempool connection.
#[derive(Clone, PartialEq, Debug)]
pub enum MempoolResponse {
    CheckTx(CheckTx),
}

/// An ABCI response sent over the info connection.
#[derive(Clone, PartialEq, Debug)]
pub enum InfoResponse {
    Info(Info),
    Query(Query),
}

/// An ABCI response sent over the snapshot connection.
#[derive(Clone, PartialEq, Debug)]
pub enum SnapshotResponse {
    ListSnapshots(ListSnapshots),
    OfferSnapshot(OfferSnapshot),
    LoadSnapshotChunk(LoadSnapshotChunk),
    ApplySnapshotChunk(ApplySnapshotChunk),
}

impl ConsensusResponse {
    /// The response of any kind that this one is.
    pub open spec fn as_response(self) -> Response {
        match self {
            ConsensusResponse::InitChain(x) => Response::InitChain(x),
            ConsensusResponse::BeginBlock(x) => Response::BeginBlock(x),
            ConsensusResponse::DeliverTx(x) => Response::DeliverTx(x),
            ConsensusResponse::EndBlock(x) => Response::EndBlock(x),
            ConsensusResponse::Commit(x) => Response::Commit(x),
        }
    }

    /// The response of this category that `r` is, if it is one.
    pub open spec fn of_response(r: Response) -> Option<ConsensusResponse> {
        match r {
            Response::InitChain(x) => Some(ConsensusResponse::InitChain(x)),
            Response::BeginBlock(x) => Some(ConsensusResponse::BeginBlock(x)),
            Response::DeliverTx(x) => Some(ConsensusResponse::DeliverTx(x)),
            Response::EndBlock(x) => Some(ConsensusResponse::EndBlock(x)),
            Response::Commit(x) => Some(ConsensusResponse::Commit(x)),
            _ => None,
        }
    }
}

impl From<ConsensusResponse> for Response {
    fn from(req: ConsensusResponse) -> (r: Self) {
        match req {
            ConsensusResponse::InitChain(x) => Self::InitChain(x),
            ConsensusResponse::BeginBlock(x) => Self::BeginBlock(x),
            ConsensusResponse::DeliverTx(x) => Self::DeliverTx(x),
            ConsensusResponse::EndBlock(x) => Self::EndBlock(x),
            ConsensusResponse::Commit(x) => Self::Commit(x),
        }
    }
}

impl vstd::std_specs::convert::FromSpecImpl<ConsensusResponse> for Response {
    open spec fn obeys_from_spec() -> bool {
        true
    }

    open spec fn from_spec(v: ConsensusResponse) -> Self {
        v.as_response()
    }
}

impl TryFrom<Response> for ConsensusResponse {
    type Error = &'static str;

    fn try_from(req: Response) -> (r: Result<Self, Self::Error>) {
        match req {
            Response::InitChain(x) => Ok(Self::InitChain(x)),
            Response::BeginBlock(x) => Ok(Self::BeginBlock(x)),
            Response::DeliverTx(x) => Ok(Self::DeliverTx(x)),
            Response::EndBlock(x) => Ok(Self::EndBlock(x)),
            Response::Commit(x) => Ok(Self::Commit(x)),
            _ => Err("wrong request type"),
        }
    }
}

impl vstd::std_specs::convert::TryFromSpecImpl<Response> for ConsensusResponse {
    open spec fn obeys_try_from_spec() -> bool {
        true
    }

    open spec fn try_from_spec(v: Response) -> Result<Self, &'static str> {
        match ConsensusResponse::of_response(v) {
            Some(x) => Ok(x),
            None => Err("wrong request type"),
        }
    }
}

impl MempoolResponse {
    /// The response of any kind that this one is.
    pub open spec fn as_response(self) -> Response {
        match self {
            MempoolResponse::CheckTx(x) => Response::CheckTx(x),
        }
    }

    /// The response of this category that `r` is, if it is one.
    pub open spec fn of_response(r: Response) -> Option<MempoolResponse> {
        match r {
            Response::CheckTx(x) => Some(MempoolResponse::CheckTx(x)),
            _ => None,
        }
    }
}

impl From<MempoolResponse> for Response {
    fn from(req: MempoolResponse) -> (r: Self) {
        match req {
            MempoolResponse::CheckTx(x) => Self::CheckTx(x),
        }
    }
}

impl vstd::std_specs::convert::FromSpecImpl<MempoolResponse> for Response {
    open spec fn obeys_from_spec() -> bool {
        true
    }

    open spec fn from_spec(v: MempoolResponse) -> Self {
        v.as_response()
    }
}

impl TryFrom<Response> for MempoolResponse {
    type Error = &'static str;

    fn try_from(req: Response) -> (r: Result<Self, Self::Error>) {
        match req {
            Response::CheckTx(x) => Ok(Self::CheckTx(x)),
            _ => Err("wrong request type"),
        }
    }
}

impl vstd::std_specs::convert::TryFromSpecImpl<Response> for MempoolResponse {
    open spec fn obeys_try_from_spec() -> bool {
        true
    }

    open spec fn try_from_spec(v: Response) -> Result<Self, &'static str> {
        match MempoolResponse::of_response(v) {
            Some(x) => Ok(x),
            None => Err("wrong request type"),
        }
    }
}

impl InfoResponse {
    /// The response of any kind that this one is.
    pub open spec fn as_response(self) -> Response {
        match self {
            InfoResponse::Info(x) => Response::Info(x),
            InfoResponse::Query(x) => Response::Query(x),
        }
    }

    /// The response of this category that `r` is, if it is one.
    pub open spec fn of_response(r: Response) -> Option<InfoResponse> {
        match r {
            Response::Info(x) => Some(InfoResponse::Info(x)),
            Response::Query(x) => Some(InfoResponse::Query(x)),
            _ => None,
        }
    }
}

impl From<InfoResponse> for Response {
    fn from(req: InfoResponse) -> (r: Self) {
        match req {
            InfoResponse::Info(x) => Self::Info(x),
            InfoResponse::Query(x) => Self::Query(x),
        }
    }
}

impl vstd::std_specs::convert::FromSpecImpl<InfoResponse> for Response {
    open spec fn obeys_from_spec() -> bool {
        true
    }

    open spec fn from_spec(v: InfoResponse) -> Self {
        v.as_response()
    }
}

impl TryFrom<Response> for InfoResponse {
    type Error = &'static str;

    fn try_from(req: Response) -> (r: Result<Self, Self::Error>) {
        match req {
            Response::Info(x) => Ok(Self::Info(x)),
            Response::Query(x) => Ok(Self::Query(x)),
            _ => Err("wrong request type"),
        }
    }
}

impl vstd::std_specs::convert::TryFromSpecImpl<Response> for InfoResponse {
    open spec fn obeys_try_from_spec() -> bool {
        true
    }

    open spec fn try_from_spec(v: Response) -> Result<Self, &'static str> {
        match InfoResponse::of_response(v) {
            Some(x) => Ok(x),
            None => Err("wrong request type"),
        }
    }
}

impl SnapshotResponse {
    /// The response of any kind that this one is.
    pub open spec fn as_response(self) -> Response {
        match self {
            SnapshotResponse::ListSnapshots(x) => Response::ListSnapshots(x),
            SnapshotResponse::OfferSnapshot(x) => Response::OfferSnapshot(x),
            SnapshotResponse::LoadSnapshotChunk(x) => Response::LoadSnapshotChunk(x),
            SnapshotResponse::ApplySnapshotChunk(x) => Response::ApplySnapshotChunk(x),
        }
    }

    /// The response of this category that `r` is, if it is one.
    pub open spec fn of_response(r: Response) -> Option<SnapshotResponse> {
        match r {
            Response::ListSnapshots(x) => Some(SnapshotResponse::ListSnapshots(x)),
            Response::OfferSnapshot(x) => Some(SnapshotResponse::OfferSnapshot(x)),
            Response::LoadSnapshotChunk(x) => Some(SnapshotResponse::LoadSnapshotChunk(x)),
            Response::ApplySnapshotChunk(x) => Some(SnapshotResponse::ApplySnapshotChunk(x)),
            _ => None,
        }
    }
}

impl From<SnapshotResponse> for Response {
    fn from(req: SnapshotResponse) -> (r: Self) {
        match req {
            SnapshotResponse::ListSnapshots(x) => Self::ListSnapshots(x),
            SnapshotResponse::OfferSnapshot(x) => Self::OfferSnapshot(x),
            SnapshotResponse::LoadSnapshotChunk(x) => Self::LoadSnapshotChunk(x),
            SnapshotResponse::ApplySnapshotChunk(x) => Self::ApplySnapshotChunk(x),
        }
    }
}

impl vstd::std_specs::convert::FromSpecImpl<SnapshotResponse> for Response {
    open spec fn obeys_from_spec() -> bool {
        true
    }

    open spec fn from_spec(v: SnapshotResponse) -> Self {
        v.as_response()
    }
}

impl TryFrom<Response> for SnapshotResponse {
    type Error = &'static str;

    fn try_from(req: Response) -> (r: Result<Self, Self::Error>) {
        match req {
            Response::ListSnapshots(x) => Ok(Self::ListSnapshots(x)),
            Response::OfferSnapshot(x) => Ok(Self::OfferSnapshot(x)),
            Response::LoadSnapshotChunk(x) => Ok(Self::LoadSnapshotChunk(x)),
            Response::ApplySnapshotChunk(x) => Ok(Self::ApplySnapshotChunk(x)),
            _ => Err("wrong request type"),
        }
    }
}

impl vstd::std_specs::convert::TryFromSpecImpl<Response> for SnapshotResponse {
    open spec fn obeys_try_from_spec() -> bool {
        true
    }

    open spec fn try_from_spec(v: Response) -> Result<Self, &'static str> {
        match SnapshotResponse::of_response(v) {
            Some(x) => Ok(x),
            None => Err("wrong request type"),
        }
    }
}

/// A response of a category, taken as a response of any kind and back, is the same
/// response; and a response of any kind that belongs to a category is the one it
/// belongs as.
pub proof fn lemma_response_category_roundtrip(consensus: ConsensusResponse, mempool: MempoolResponse, info: InfoResponse, snapshot: SnapshotResponse, r: Response)
    ensures
        ConsensusResponse::of_response(consensus.as_response()) == Some(consensus),
        MempoolResponse::of_response(mempool.as_response()) == Some(mempool),
        InfoResponse::of_response(info.as_response()) == Some(info),
        SnapshotResponse::of_response(snapshot.as_response()) == Some(snapshot),
        ConsensusResponse::of_response(r) matches Some(x) ==> x.as_response() == r,
        MempoolResponse::of_response(r) matches Some(x) ==> x.as_response() == r,
        InfoResponse::of_response(r) matches Some(x) ==> x.as_response() == r,
        SnapshotResponse::of_response(r) matches Some(x) ==> x.as_response() == r,
{
}

/// Every response belongs to at most one category, and to none exactly when it is
/// Exception, Echo, Flush or SetOption.
pub proof fn lemma_response_category_unique(r: Response)
    ensures
        !(ConsensusResponse::of_response(r) is Some && MempoolResponse::of_response(r) is Some),
        !(ConsensusResponse::of_response(r) is Some && InfoResponse::of_response(r) is Some),
        !(ConsensusResponse::of_response(r) is Some && SnapshotResponse::of_response(r) is Some),
        !(MempoolResponse::of_response(r) is Some && InfoResponse::of_response(r) is Some),
        !(MempoolResponse::of_response(r) is Some && SnapshotResponse::of_response(r) is Some),
        !(InfoResponse::of_response(r) is Some && SnapshotResponse::of_response(r) is Some),
        (r is Exception || r is Echo || r is Flush || r is SetOption) <==> (ConsensusResponse::of_response(r) is None && MempoolResponse::of_response(r) is None && InfoResponse::of_response(r) is None && SnapshotResponse::of_response(r) is None),
{
}

/// Converting a response of any kind into a consensus response succeeds exactly for
/// the InitChain, BeginBlock, DeliverTx, EndBlock or Commit responses, and keeps the message they carry; every other response
/// is refused with "wrong request type". Converting a consensus response to a
/// response of any kind and back gives it unchanged.
pub proof fn lemma_consensus_response_conversion(r: Response, x: ConsensusResponse)
    ensures
        r matches Response::InitChain(p) ==> <ConsensusResponse as vstd::std_specs::convert::TryFromSpec<Response>>::try_from_spec(r) == Ok::<ConsensusResponse, &'static str>(ConsensusResponse::InitChain(p)),
        r matches Response::BeginBlock(p) ==> <ConsensusResponse as vstd::std_specs::convert::TryFromSpec<Response>>::try_from_spec(r) == Ok::<ConsensusResponse, &'static str>(ConsensusResponse::BeginBlock(p)),
        r matches Response::DeliverTx(p) ==> <ConsensusResponse as vstd::std_specs::convert::TryFromSpec<Response>>::try_from_spec(r) == Ok::<ConsensusResponse, &'static str>(ConsensusResponse::DeliverTx(p)),
        r matches Response::EndBlock(p) ==> <ConsensusResponse as vstd::std_specs::convert::TryFromSpec<Response>>::try_from_spec(r) == Ok::<ConsensusResponse, &'static str>(ConsensusResponse::EndBlock(p)),
        r matches Response::Commit(p) ==> <ConsensusResponse as vstd::std_specs::convert::TryFromSpec<Response>>::try_from_spec(r) == Ok::<ConsensusResponse, &'static str>(ConsensusResponse::Commit(p)),
        !(r is InitChain || r is BeginBlock || r is DeliverTx || r is EndBlock || r is Commit) ==> <ConsensusResponse as vstd::std_specs::convert::TryFromSpec<Response>>::try_from_spec(r) == Err::<ConsensusResponse, &'static str>("wrong request type"),
        <ConsensusResponse as vstd::std_specs::convert::TryFromSpec<Response>>::try_from_spec(<Response as vstd::std_specs::convert::FromSpec<ConsensusResponse>>::from_spec(x)) == Ok::<ConsensusResponse, &'static str>(x),
        <ConsensusResponse as vstd::std_specs::convert::TryFromSpec<Response>>::try_from_spec(r) matches Ok(y) ==> <Response as vstd::std_specs::convert::FromSpec<ConsensusResponse>>::from_spec(y) == r,
{
}

/// Converting a response of any kind into a mempool response succeeds exactly for
/// the CheckTx responses, and keeps the message they carry; every other response
/// is refused with "wrong request type". Converting a mempool response to a
/// response of any kind and back gives it unchanged.
pub proof fn lemma_mempool_response_conversion(r: Response, x: MempoolResponse)
    ensures
        r matches Response::CheckTx(p) ==> <MempoolResponse as vstd::std_specs::convert::TryFromSpec<Response>>::try_from_spec(r) == Ok::<MempoolResponse, &'static str>(MempoolResponse::CheckTx(p)),
        !(r is CheckTx) ==> <MempoolResponse as vstd::std_specs::convert::TryFromSpec<Response>>::try_from_spec(r) == Err::<MempoolResponse, &'static str>("wrong request type"),
        <MempoolResponse as vstd::std_specs::convert::TryFromSpec<Response>>::try_from_spec(<Response as vstd::std_specs::convert::FromSpec<MempoolResponse>>::from_spec(x)) == Ok::<MempoolResponse, &'static str>(x),
        <MempoolResponse as vstd::std_specs::convert::TryFromSpec<Response>>::try_from_spec(r) matches Ok(y) ==> <Response as vstd::std_specs::convert::FromSpec<MempoolResponse>>::from_spec(y) == r,
{
}

/// Converting a response of any kind into a info response succeeds exactly for
/// the Info or Query responses, and keeps the message they carry; every other response
/// is refused with "wrong request type". Converting a info response to a
/// response of any kind and back gives it unchanged.
pub proof fn lemma_info_response_conversion(r: Response, x: InfoResponse)
    ensures
        r matches Response::Info(p) ==> <InfoResponse as vstd::std_specs::convert::TryFromSpec<Response>>::try_from_spec(r) == Ok::<InfoResponse, &'static str>(InfoResponse::Info(p)),
        r matches Response::Query(p) ==> <InfoResponse as vstd::std_specs::convert::TryFromSpec<Response>>::try_from_spec(r) == Ok::<InfoResponse, &'static str>(InfoResponse::Query(p)),
        !(r is Info || r is Query) ==> <InfoResponse as vstd::std_specs::convert::TryFromSpec<Response>>::try_from_spec(r) == Err::<InfoResponse, &'static str>("wrong request type"),
        <InfoResponse as vstd::std_specs::convert::TryFromSpec<Response>>::try_from_spec(<Response as vstd::std_specs::convert::FromSpec<InfoResponse>>::from_spec(x)) == Ok::<InfoResponse, &'static str>(x),
        <InfoResponse as vstd::std_specs::convert::TryFromSpec<Response>>::try_from_spec(r) matches Ok(y) ==> <Response as vstd::std_specs::convert::FromSpec<InfoResponse>>::from_spec(y) == r,
{
}

/// Converting a response of any kind into a snapshot response succeeds exactly for
/// the ListSnapshots, OfferSnapshot, LoadSnapshotChunk or ApplySnapshotChunk responses, and keeps the message they carry; every other response
/// is refused with "wrong request type". Converting a snapshot response to a
/// response of any kind and back gives it unchanged.
pub proof fn lemma_snapshot_response_conversion(r: Response, x: SnapshotResponse)
    ensures
        r matches Response::ListSnapshots(p) ==> <SnapshotResponse as vstd::std_specs::convert::TryFromSpec<Response>>::try_from_spec(r) == Ok::<SnapshotResponse, &'static str>(SnapshotResponse::ListSnapshots(p)),
        r matches Response::OfferSnapshot(p) ==> <SnapshotResponse as vstd::std_specs::convert::TryFromSpec<Response>>::try_from_spec(r) == Ok::<SnapshotResponse, &'static str>(SnapshotResponse::OfferSnapshot(p)),
        r matches Response::LoadSnapshotChunk(p) ==> <SnapshotResponse as vstd::std_specs::convert::TryFromSpec<Response>>::try_from_spec(r) == Ok::<SnapshotResponse, &'static str>(SnapshotResponse::LoadSnapshotChunk(p)),
        r matches Response::ApplySnapshotChunk(p) ==> <SnapshotResponse as vstd::std_specs::convert::TryFromSpec<Response>>::try_from_spec(r) == Ok::<SnapshotResponse, &'static str>(SnapshotResponse::ApplySnapshotChunk(p)),
        !(r is ListSnapshots || r is OfferSnapshot || r is LoadSnapshotChunk || r is ApplySnapshotChunk) ==> <SnapshotResponse as vstd::std_specs::convert::TryFromSpec<Response>>::try_from_spec(r) == Err::<SnapshotResponse, &'static str>("wrong request type"),
        <SnapshotResponse as vstd::std_specs::convert::TryFromSpec<Response>>::try_from_spec(<Response as vstd::std_specs::convert::FromSpec<SnapshotResponse>>::from_spec(x)) == Ok::<SnapshotResponse, &'static str>(x),
        <SnapshotResponse as vstd::std_specs::convert::TryFromSpec<Response>>::try_from_spec(r) matches Ok(y) ==> <Response as vstd::std_specs::convert::FromSpec<SnapshotResponse>>::from_spec(y) == r,
{
}

} // verus!
