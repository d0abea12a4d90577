use std::convert::TryFrom;
use tendermint_proto::v0_34::abci as tpa;
use tower_abci::request::{
    ConsensusRequest, InfoRequest, MempoolRequest, Request, SnapshotRequest,
};
use tower_abci::response::{
    ConsensusResponse, InfoResponse, MempoolResponse, Response, SnapshotResponse,
};

#[test]
fn consensus_request_roundtrip() {
    let commit = tpa::RequestCommit::default();
    let req: Request = ConsensusRequest::Commit(commit.clone()).into();
    assert_eq!(req, Request::Commit(commit.clone()));
    assert_eq!(ConsensusRequest::try_from(req), Ok(ConsensusRequest::Commit(commit)));
}

#[test]
fn mempool_request_roundtrip() {
    let tx = tpa::RequestCheckTx { tx: vec![1, 2, 3].into(), ..Default::default() };
    let req = Request::from(MempoolRequest::CheckTx(tx.clone()));
    assert_eq!(req, Request::CheckTx(tx.clone()));
    assert_eq!(MempoolRequest::try_from(req), Ok(MempoolRequest::CheckTx(tx)));
}

#[test]
fn info_request_roundtrip() {
    let q = tpa::RequestQuery { path: "/key".to_string(), ..Default::default() };
    let req = Request::from(InfoRequest::Query(q.clone()));
    assert_eq!(InfoRequest::try_from(req), Ok(InfoRequest::Query(q)));
}

#[test]
fn snapshot_request_roundtrip() {
    let l = tpa::RequestListSnapshots::default();
    let req = Request::from(SnapshotRequest::ListSnapshots(l.clone()));
    assert_eq!(SnapshotRequest::try_from(req), Ok(SnapshotRequest::ListSnapshots(l)));
}

#[test]
fn request_of_another_category_is_refused() {
    let req = Request::CheckTx(tpa::RequestCheckTx::default());
    assert_eq!(ConsensusRequest::try_from(req.clone()), Err("wrong request type"));
    assert_eq!(InfoRequest::try_from(req.clone()), Err("wrong request type"));
    assert_eq!(SnapshotRequest::try_from(req), Err("wrong request type"));
}

#[test]
fn echo_flush_set_option_belong_to_no_category() {
    let reqs = vec![
        Request::Echo(tpa::RequestEcho::default()),
        Request::Flush(tpa::RequestFlush::default()),
        Request::SetOption(tpa::RequestSetOption::default()),
    ];
    for r in reqs {
        assert!(ConsensusRequest::try_from(r.clone()).is_err());
        assert!(MempoolRequest::try_from(r.clone()).is_err());
        assert!(InfoRequest::try_from(r.clone()).is_err());
        assert!(SnapshotRequest::try_from(r).is_err());
    }
}

#[test]
fn consensus_response_roundtrip() {
    let c = tpa::ResponseCommit { data: vec![7].into(), retain_height: 3 };
    let rsp = Response::from(ConsensusResponse::Commit(c.clone()));
    assert!(matches!(rsp, Response::Commit(ref x) if *x == c));
    assert_eq!(ConsensusResponse::try_from(rsp), Ok(ConsensusResponse::Commit(c)));
}

#[test]
fn mempool_info_snapshot_responses_roundtrip() {
    let ct = tpa::ResponseCheckTx { code: 1, ..Default::default() };
    assert_eq!(
        MempoolResponse::try_from(Response::from(MempoolResponse::CheckTx(ct.clone()))),
        Ok(MempoolResponse::CheckTx(ct))
    );
    let info = tpa::ResponseInfo { data: "app".to_string(), ..Default::default() };
    assert_eq!(
        InfoResponse::try_from(Response::from(InfoResponse::Info(info.clone()))),
        Ok(InfoResponse::Info(info))
    );
    let offer = tpa::ResponseOfferSnapshot { result: 1 };
    assert_eq!(
        SnapshotResponse::try_from(Response::from(SnapshotResponse::OfferSnapshot(offer.clone()))),
        Ok(SnapshotResponse::OfferSnapshot(offer))
    );
}

#[test]
fn exception_response_belongs_to_no_category() {
    let e = || Response::Exception(tpa::ResponseException { error: "boom".to_string() });
    assert!(ConsensusResponse::try_from(e()).is_err());
    assert!(MempoolResponse::try_from(e()).is_err());
    assert!(InfoResponse::try_from(e()).is_err());
    assert_eq!(SnapshotResponse::try_from(e()).err(), Some("wrong request type"));
}
