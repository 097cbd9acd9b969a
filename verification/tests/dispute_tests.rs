use agentfund::errors::AgentFundError;
use agentfund::dispute::{
    initiate_dispute, resolve_dispute, DisputeResolution, DisputeStatus,
};
use agentfund::service::{RequestStatus, ServiceRequest};

fn id(b: u8) -> [u8; 32] {
    [b; 32]
}

fn pending_request(amount: u64, created_at: i64) -> ServiceRequest {
    ServiceRequest {
        id: id(6),
        requester: id(5),
        provider: id(1),
        capability: b"sentiment".to_vec(),
        amount,
        status: RequestStatus::Pending,
        created_at,
        completed_at: None,
        result_hash: None,
    }
}

#[test]
fn split_resolution_pays_forty_sixty() {
    let mut request = pending_request(100, 1000);
    let (mut dispute, ev) =
        initiate_dispute(&mut request, id(5), b"late delivery".to_vec(), 1500).unwrap();
    assert_eq!(request.status, RequestStatus::Disputed);
    assert_eq!(dispute.status, DisputeStatus::Open);
    assert_eq!(dispute.request_id, id(6));
    assert_eq!(dispute.initiator, id(5));
    assert_eq!(dispute.created_at, 1500);
    assert_eq!(ev.reason, b"late delivery".to_vec());

    let (payout, resolved) = resolve_dispute(
        &mut dispute,
        &mut request,
        id(1),
        DisputeResolution::Split { requester_pct: 40 },
        1600,
    )
    .unwrap();
    assert_eq!(payout.to_requester, 40);
    assert_eq!(payout.to_provider, 60);
    assert_eq!(request.status, RequestStatus::Completed);
    assert_eq!(dispute.status, DisputeStatus::Resolved);
    assert_eq!(dispute.resolved_at, Some(1600));
    assert_eq!(
        dispute.resolution,
        Some(DisputeResolution::Split { requester_pct: 40 })
    );
    assert_eq!(resolved.request_id, id(6));
    assert_eq!(
        resolved.resolution,
        DisputeResolution::Split { requester_pct: 40 }
    );
}

#[test]
fn window_open_at_exactly_one_day() {
    let mut request = pending_request(100, 1000);
    let r = initiate_dispute(&mut request, id(5), vec![], 1000 + 86400);
    assert!(r.is_ok());
}

#[test]
fn window_closed_one_second_past_one_day() {
    let mut request = pending_request(100, 1000);
    let r = initiate_dispute(&mut request, id(5), vec![], 1000 + 86401);
    assert_eq!(r.unwrap_err(), AgentFundError::DisputeWindowClosed);
    assert_eq!(request.status, RequestStatus::Pending);
}

#[test]
fn window_runs_from_completion_when_completed() {
    let mut request = pending_request(100, 1000);
    request.status = RequestStatus::Completed;
    request.completed_at = Some(90000);
    // Far past creation, but within a day of completion.
    let r = initiate_dispute(&mut request, id(1), vec![], 90000 + 86400);
    assert!(r.is_ok());
}

#[test]
fn dispute_rejects_stranger() {
    let mut request = pending_request(100, 1000);
    let r = initiate_dispute(&mut request, id(9), vec![], 1500);
    assert_eq!(r.unwrap_err(), AgentFundError::Unauthorized);
    assert_eq!(request.status, RequestStatus::Pending);
}

#[test]
fn dispute_rejects_refunded_request() {
    let mut request = pending_request(100, 1000);
    request.status = RequestStatus::Refunded;
    let r = initiate_dispute(&mut request, id(5), vec![], 1500);
    assert_eq!(r.unwrap_err(), AgentFundError::CannotDispute);
}

#[test]
fn refund_resolution_returns_everything_to_requester() {
    let mut request = pending_request(100, 1000);
    let (mut dispute, _) = initiate_dispute(&mut request, id(5), vec![], 1500).unwrap();
    let (payout, _) = resolve_dispute(
        &mut dispute,
        &mut request,
        id(5),
        DisputeResolution::RefundRequester,
        1600,
    )
    .unwrap();
    assert_eq!(payout.to_requester, 100);
    assert_eq!(payout.to_provider, 0);
    assert_eq!(request.status, RequestStatus::Refunded);
}

#[test]
fn pay_resolution_releases_everything_to_provider() {
    let mut request = pending_request(100, 1000);
    let (mut dispute, _) = initiate_dispute(&mut request, id(5), vec![], 1500).unwrap();
    let (payout, _) = resolve_dispute(
        &mut dispute,
        &mut request,
        id(5),
        DisputeResolution::PayProvider,
        1600,
    )
    .unwrap();
    assert_eq!(payout.to_requester, 0);
    assert_eq!(payout.to_provider, 100);
    assert_eq!(request.status, RequestStatus::Completed);
}

#[test]
fn split_edges_and_rounding_conserve_the_escrow() {
    for (amount, pct, to_requester) in
        [(100u64, 0u8, 0u64), (100, 100, 100), (101, 50, 50), (1, 99, 0)]
    {
        let mut request = pending_request(amount, 1000);
        let (mut dispute, _) = initiate_dispute(&mut request, id(5), vec![], 1500).unwrap();
        let (payout, _) = resolve_dispute(
            &mut dispute,
            &mut request,
            id(1),
            DisputeResolution::Split { requester_pct: pct },
            1600,
        )
        .unwrap();
        assert_eq!(payout.to_requester, to_requester);
        assert_eq!(payout.to_requester + payout.to_provider, amount);
    }
}

#[test]
fn resolve_rejects_invalid_split_percentage() {
    let mut request = pending_request(100, 1000);
    let (mut dispute, _) = initiate_dispute(&mut request, id(5), vec![], 1500).unwrap();
    let r = resolve_dispute(
        &mut dispute,
        &mut request,
        id(1),
        DisputeResolution::Split { requester_pct: 101 },
        1600,
    );
    assert_eq!(r.unwrap_err(), AgentFundError::InvalidSplitPct);
    assert_eq!(dispute.status, DisputeStatus::Open);
    assert_eq!(request.status, RequestStatus::Disputed);
}

#[test]
fn resolve_rejects_stranger() {
    let mut request = pending_request(100, 1000);
    let (mut dispute, _) = initiate_dispute(&mut request, id(5), vec![], 1500).unwrap();
    let r = resolve_dispute(
        &mut dispute,
        &mut request,
        id(9),
        DisputeResolution::PayProvider,
        1600,
    );
    assert_eq!(r.unwrap_err(), AgentFundError::Unauthorized);
    assert_eq!(dispute.status, DisputeStatus::Open);
}

#[test]
fn resolve_rejects_second_resolution() {
    let mut request = pending_request(100, 1000);
    let (mut dispute, _) = initiate_dispute(&mut request, id(5), vec![], 1500).unwrap();
    resolve_dispute(
        &mut dispute,
        &mut request,
        id(5),
        DisputeResolution::RefundRequester,
        1600,
    )
    .unwrap();
    let again = resolve_dispute(
        &mut dispute,
        &mut request,
        id(5),
        DisputeResolution::PayProvider,
        1700,
    );
    assert_eq!(again.unwrap_err(), AgentFundError::DisputeNotOpen);
    assert_eq!(request.status, RequestStatus::Refunded);
    assert_eq!(
        dispute.resolution,
        Some(DisputeResolution::RefundRequester)
    );
}

#[test]
fn default_dispute_status_is_open() {
    assert_eq!(DisputeStatus::default(), DisputeStatus::Open);
}
