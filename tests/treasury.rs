use multisig_treasury::{
    Address, Approval, DataKey, MultisigError, MultisigTreasury, Proposal, TransferOrder,
    WithdrawalRequest,
};

const S1: &str = "GS1AAAAAAAAAAAAAAAAAAAAAAAAAAAAAAAAAAAAAAAAAAAAAAAAAAAAA";
const S2: &str = "GS2AAAAAAAAAAAAAAAAAAAAAAAAAAAAAAAAAAAAAAAAAAAAAAAAAAAAA";
const S3: &str = "GS3AAAAAAAAAAAAAAAAAAAAAAAAAAAAAAAAAAAAAAAAAAAAAAAAAAAAA";
const OUTSIDER: &str = "GOUTSIDERAAAAAAAAAAAAAAAAAAAAAAAAAAAAAAAAAAAAAAAAAAAAAAA";
const ADMIN: &str = "GADMINAAAAAAAAAAAAAAAAAAAAAAAAAAAAAAAAAAAAAAAAAAAAAAAAAA";
const ASSET: &str = "CASSETAAAAAAAAAAAAAAAAAAAAAAAAAAAAAAAAAAAAAAAAAAAAAAAAAA";

fn addr(key: &str) -> Address {
    Address::new(key.to_string())
}

fn signers() -> Vec<Address> {
    vec![addr(S1), addr(S2), addr(S3)]
}

fn treasury(threshold: u32) -> MultisigTreasury {
    let mut t = MultisigTreasury::new();
    t.init(addr(ADMIN), addr(ASSET), signers(), threshold, "Ops".to_string())
        .unwrap();
    t
}

fn order(to: &str, amount: i128) -> Option<TransferOrder> {
    Some(TransferOrder { asset: addr(ASSET), to: addr(to), amount })
}

fn keys(request: &WithdrawalRequest) -> Vec<String> {
    request.approvals.iter().map(|a| a.to_display()).collect()
}

fn same_request(a: &WithdrawalRequest, b: &WithdrawalRequest) -> bool {
    a.id == b.id
        && a.to == b.to
        && a.amount == b.amount
        && a.approvals == b.approvals
        && a.executed == b.executed
        && a.initiator == b.initiator
        && a.created_at == b.created_at
        && a.completed_at == b.completed_at
}

#[test]
fn init_accepts_every_threshold_from_one_to_signer_count() {
    for threshold in 1..=3u32 {
        let mut t = MultisigTreasury::new();
        let r = t.init(addr(ADMIN), addr(ASSET), signers(), threshold, "Ops".to_string());
        assert_eq!(r, Ok(()));
        assert_eq!(t.get_summary().unwrap().threshold, threshold);
        assert_eq!(t.next_request_id, 0);
    }
}

#[test]
fn init_rejects_zero_threshold_too_large_threshold_and_no_signers() {
    for (list, threshold) in [(signers(), 0u32), (signers(), 4), (Vec::new(), 0), (Vec::new(), 1)] {
        let mut t = MultisigTreasury::new();
        let r = t.init(addr(ADMIN), addr(ASSET), list, threshold, "Ops".to_string());
        assert_eq!(r, Err(MultisigError::InvalidThreshold));
        assert!(t.config.is_none());
        assert_eq!(t.get_summary(), Err(MultisigError::NotInitialized));
    }
}

#[test]
fn reads_before_init_fail_with_not_initialized() {
    let t = MultisigTreasury::new();
    assert_eq!(t.get_summary(), Err(MultisigError::NotInitialized));
    assert_eq!(t.get_signers(), Err(MultisigError::NotInitialized));
    assert!(t.list_requests().is_empty());
    assert!(!t.is_eligible(&addr(S1)));
    assert!(t.check_well_formed());
}

#[test]
fn operations_before_init_fail_with_not_initialized() {
    let mut t = MultisigTreasury::new();
    assert_eq!(
        t.propose_withdraw(addr(S1), addr(S2), 100, 1),
        Err(MultisigError::NotInitialized)
    );
    assert_eq!(t.approve_withdraw(addr(S1), 0, 1), Err(MultisigError::NotInitialized));
    assert_eq!(t.next_request_id, 0);
}

#[test]
fn summary_and_signers_report_the_configuration() {
    let t = treasury(2);
    let summary = t.get_summary().unwrap();
    assert_eq!(summary.threshold, 2);
    assert_eq!(summary.signer_count, 3);
    assert_eq!(summary.label, "Ops");
    let listed: Vec<String> = t.get_signers().unwrap().iter().map(|a| a.to_display()).collect();
    assert_eq!(listed, vec![S1.to_string(), S2.to_string(), S3.to_string()]);
    assert!(t.is_eligible(&addr(S3)));
    assert!(!t.is_eligible(&addr(OUTSIDER)));
}

#[test]
fn scenario_threshold_two_executes_on_second_approval() {
    let mut t = treasury(2);
    let p = t.propose_withdraw(addr(S1), addr(S2), 100, 10).unwrap();
    assert_eq!(p, Proposal { id: 0, transfer: None });
    let req = t.get_request(0).unwrap();
    assert_eq!(keys(req), vec![S1.to_string()]);
    assert!(!req.executed);
    assert_eq!(req.initiator.as_str(), S1);
    assert_eq!(req.created_at, 10);
    assert_eq!(req.completed_at, 0);

    let a = t.approve_withdraw(addr(S2), 0, 20).unwrap();
    assert_eq!(a, Approval { executed: true, transfer: order(S2, 100) });
    let req = t.get_request(0).unwrap();
    assert!(req.executed);
    assert_eq!(keys(req), vec![S1.to_string(), S2.to_string()]);
    assert_eq!(req.completed_at, 20);

    // A later approval orders no second transfer.
    let again = t.approve_withdraw(addr(S3), 0, 30).unwrap();
    assert_eq!(again, Approval { executed: true, transfer: None });
    assert!(t.check_well_formed());
}

#[test]
fn scenario_threshold_one_executes_on_proposal() {
    let mut t = treasury(1);
    let p = t.propose_withdraw(addr(S1), addr(S2), 50, 5).unwrap();
    assert_eq!(p, Proposal { id: 0, transfer: order(S2, 50) });
    let req = t.get_request(0).unwrap();
    assert!(req.executed);
    assert_eq!(req.completed_at, 5);
}

#[test]
fn scenario_outsider_destination_is_refused() {
    let mut t = treasury(2);
    assert_eq!(
        t.propose_withdraw(addr(S1), addr(OUTSIDER), 10, 1),
        Err(MultisigError::DestinationNotAllowed)
    );
    assert_eq!(t.next_request_id, 0);
    assert!(t.requests.is_empty());
}

#[test]
fn scenario_second_approval_by_same_signer_is_duplicate() {
    let mut t = treasury(3);
    t.propose_withdraw(addr(S2), addr(S3), 70, 1).unwrap();
    let first = t.approve_withdraw(addr(S1), 0, 2).unwrap();
    assert_eq!(first, Approval { executed: false, transfer: None });
    let after_first = t.get_request(0).unwrap().clone();
    assert_eq!(t.approve_withdraw(addr(S1), 0, 3), Err(MultisigError::DuplicateApproval));
    assert!(same_request(t.get_request(0).unwrap(), &after_first));
    assert_eq!(keys(&after_first), vec![S2.to_string(), S1.to_string()]);
}

#[test]
fn scenario_zero_amount_uses_no_request_id() {
    let mut t = treasury(2);
    assert_eq!(t.propose_withdraw(addr(S1), addr(S2), 0, 1), Err(MultisigError::InvalidAmount));
    assert_eq!(t.next_request_id, 0);
    assert_eq!(t.propose_withdraw(addr(S1), addr(S2), -5, 1), Err(MultisigError::InvalidAmount));
    let p = t.propose_withdraw(addr(S1), addr(S2), 1, 1).unwrap();
    assert_eq!(p.id, 0);
    assert_eq!(t.next_request_id, 1);
}

#[test]
fn proposer_must_be_a_signer() {
    let mut t = treasury(2);
    assert_eq!(
        t.propose_withdraw(addr(OUTSIDER), addr(S2), 10, 1),
        Err(MultisigError::SignerNotAllowed)
    );
    assert_eq!(t.next_request_id, 0);
}

#[test]
fn proposal_checks_run_in_order() {
    let mut t = treasury(2);
    // Amount first, then destination, then proposer.
    assert_eq!(
        t.propose_withdraw(addr(OUTSIDER), addr(OUTSIDER), 0, 1),
        Err(MultisigError::InvalidAmount)
    );
    assert_eq!(
        t.propose_withdraw(addr(OUTSIDER), addr(OUTSIDER), 3, 1),
        Err(MultisigError::DestinationNotAllowed)
    );
}

#[test]
fn approver_must_be_a_signer_and_request_must_exist() {
    let mut t = treasury(2);
    t.propose_withdraw(addr(S1), addr(S2), 10, 1).unwrap();
    assert_eq!(t.approve_withdraw(addr(OUTSIDER), 0, 2), Err(MultisigError::SignerNotAllowed));
    assert_eq!(t.approve_withdraw(addr(S2), 1, 2), Err(MultisigError::RequestNotFound));
    assert_eq!(t.approve_withdraw(addr(OUTSIDER), 7, 2), Err(MultisigError::SignerNotAllowed));
    assert_eq!(t.get_request(1).err(), Some(MultisigError::RequestNotFound));
    assert!(!t.get_request(0).unwrap().executed);
}

#[test]
fn proposer_approving_again_is_duplicate() {
    let mut t = treasury(2);
    t.propose_withdraw(addr(S1), addr(S2), 10, 1).unwrap();
    assert_eq!(t.approve_withdraw(addr(S1), 0, 2), Err(MultisigError::DuplicateApproval));
    assert_eq!(t.get_request(0).unwrap().approvals.len(), 1);
}

#[test]
fn executed_request_approval_is_idempotent() {
    let mut t = treasury(1);
    t.propose_withdraw(addr(S1), addr(S3), 40, 1).unwrap();
    let before = t.get_request(0).unwrap().clone();
    // Even the proposer gets `true` and no transfer.
    for caller in [S1, S2, S3] {
        let r = t.approve_withdraw(addr(caller), 0, 99).unwrap();
        assert_eq!(r, Approval { executed: true, transfer: None });
        assert!(same_request(t.get_request(0).unwrap(), &before));
    }
    assert_eq!(t.next_request_id, 1);
}

#[test]
fn each_request_orders_its_transfer_once() {
    let mut t = treasury(2);
    t.propose_withdraw(addr(S1), addr(S2), 100, 1).unwrap();
    t.propose_withdraw(addr(S2), addr(S3), 200, 2).unwrap();
    let mut orders: Vec<(u32, TransferOrder)> = Vec::new();
    let calls = [(S2, 0u32), (S3, 0), (S1, 1), (S1, 1), (S3, 1), (S2, 0), (S1, 0)];
    for (caller, id) in calls {
        if let Ok(Approval { transfer: Some(o), .. }) = t.approve_withdraw(addr(caller), id, 3) {
            orders.push((id, o));
        }
    }
    assert_eq!(orders.len(), 2);
    assert_eq!(orders[0], (0, order(S2, 100).unwrap()));
    assert_eq!(orders[1], (1, order(S3, 200).unwrap()));
}

#[test]
fn approval_count_never_exceeds_distinct_approvers() {
    let mut t = treasury(3);
    t.propose_withdraw(addr(S1), addr(S2), 5, 1).unwrap();
    for caller in [S1, S2, S2, S1] {
        let _ = t.approve_withdraw(addr(caller), 0, 2);
    }
    let req = t.get_request(0).unwrap();
    assert_eq!(keys(req), vec![S1.to_string(), S2.to_string()]);
    assert!(!req.executed);
    let done = t.approve_withdraw(addr(S3), 0, 3).unwrap();
    assert_eq!(done.transfer, order(S2, 5));
    assert_eq!(t.get_request(0).unwrap().approvals.len(), 3);
}

#[test]
fn ids_are_sequential_and_listed_in_order() {
    let mut t = treasury(3);
    for (i, amount) in [10i128, 20, 30].iter().enumerate() {
        let p = t.propose_withdraw(addr(S1), addr(S2), *amount, i as u64).unwrap();
        assert_eq!(p.id, i as u32);
    }
    t.approve_withdraw(addr(S3), 1, 7).unwrap();
    let listed = t.list_requests();
    assert_eq!(listed.len(), 3);
    assert_eq!(listed.iter().map(|s| s.id).collect::<Vec<u32>>(), vec![0, 1, 2]);
    assert_eq!(listed[1].amount, 20);
    assert_eq!(listed[1].to, S2);
    assert_eq!(listed[1].initiator, S1);
    assert_eq!(listed[1].approvals, vec![S1.to_string(), S3.to_string()]);
    assert!(!listed[1].executed);
    assert_eq!(listed[2].created_at, 2);
}

#[test]
fn reinit_starts_a_fresh_ledger() {
    let mut t = treasury(2);
    t.propose_withdraw(addr(S1), addr(S2), 10, 1).unwrap();
    t.init(addr(ADMIN), addr(ASSET), vec![addr(S1), addr(S2)], 1, "New".to_string())
        .unwrap();
    assert_eq!(t.next_request_id, 0);
    assert!(t.list_requests().is_empty());
    assert_eq!(t.get_summary().unwrap().signer_count, 2);
    assert_eq!(t.get_summary().unwrap().label, "New");
}

#[test]
fn failed_reinit_keeps_the_old_state() {
    let mut t = treasury(2);
    t.propose_withdraw(addr(S1), addr(S2), 10, 1).unwrap();
    assert_eq!(
        t.init(addr(ADMIN), addr(ASSET), signers(), 9, "Bad".to_string()),
        Err(MultisigError::InvalidThreshold)
    );
    assert_eq!(t.next_request_id, 1);
    assert_eq!(t.get_summary().unwrap().label, "Ops");
}

#[test]
fn destination_removed_from_signers_blocks_execution() {
    let mut t = treasury(2);
    t.propose_withdraw(addr(S1), addr(S3), 60, 1).unwrap();
    // A host-side change of the signer set drops S3.
    t.config.as_mut().unwrap().signers = vec![addr(S1), addr(S2)];
    assert!(t.check_well_formed());
    assert_eq!(t.approve_withdraw(addr(S2), 0, 2), Err(MultisigError::DestinationNotAllowed));
    let req = t.get_request(0).unwrap();
    assert!(!req.executed);
    assert_eq!(req.approvals.len(), 1);
}

#[test]
fn well_formedness_check_catches_broken_state() {
    let mut t = treasury(2);
    t.propose_withdraw(addr(S1), addr(S2), 10, 1).unwrap();
    assert!(t.check_well_formed());

    let mut counter_off = treasury(2);
    counter_off.propose_withdraw(addr(S1), addr(S2), 10, 1).unwrap();
    counter_off.next_request_id = 5;
    assert!(!counter_off.check_well_formed());

    let mut doubled = treasury(3);
    doubled.propose_withdraw(addr(S1), addr(S2), 10, 1).unwrap();
    doubled.requests[0].approvals.push(addr(S1));
    assert!(!doubled.check_well_formed());

    let mut stranger = treasury(3);
    stranger.propose_withdraw(addr(S1), addr(S2), 10, 1).unwrap();
    stranger.requests[0].approvals.push(addr(OUTSIDER));
    assert!(!stranger.check_well_formed());

    let mut early = treasury(2);
    early.propose_withdraw(addr(S1), addr(S2), 10, 1).unwrap();
    early.requests[0].executed = true;
    assert!(!early.check_well_formed());
}

#[test]
fn storage_slots_are_distinct_per_request() {
    assert_eq!(DataKey::Request(3), DataKey::Request(3));
    assert_ne!(DataKey::Request(3), DataKey::Request(4));
    assert_ne!(DataKey::Threshold, DataKey::NextRequestId);
}
