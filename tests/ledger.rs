use influencer_payment::{
    CampaignStatus, InfluencerPayment, LedgerError, Outcome, Party, ProposalStatus,
};

fn s(x: &str) -> String {
    x.to_string()
}

fn ready() -> InfluencerPayment {
    let mut l = InfluencerPayment::new();
    l.init(s("TOKEN")).unwrap();
    l
}

#[test]
fn init_twice_fails() {
    let mut l = InfluencerPayment::new();
    assert!(!l.is_initialized());
    assert_eq!(l.init(s("TOKEN")), Ok(()));
    assert!(l.is_initialized());
    assert_eq!(l.init(s("OTHER")), Err(LedgerError::AlreadyInitialized));
    let t = l.approval_transfer(0);
    assert_eq!(t.err(), Some(LedgerError::ProposalNotFound));
}

#[test]
fn single_proposal_lifecycle_completes_campaign() {
    let mut l = ready();
    let cid = l.create_campaign(s("ORG"), s("Launch"), 1000, 1_700_000_000);
    assert_eq!(cid, 0);
    let pid = l
        .submit_proposal(cid, s("INF"), 500, 30, vec![s("video"), s("post")])
        .unwrap();
    assert_eq!(l.get_proposal(pid).unwrap().status, ProposalStatus::Pending);

    let lock = l.approval_transfer(pid).unwrap();
    assert_eq!(lock.signer, "ORG");
    assert_eq!(lock.token, "TOKEN");
    assert!(matches!(lock.from, Party::Account(ref a) if a == "ORG"));
    assert!(matches!(lock.to, Party::Escrow));
    assert_eq!(lock.amount, 500);
    assert_eq!(l.approve_proposal(pid, Outcome::Settled), Ok(()));
    assert_eq!(l.get_proposal(pid).unwrap().status, ProposalStatus::Approved);

    let release = l.completion_transfer(pid).unwrap();
    assert_eq!(release.signer, "ORG");
    assert!(matches!(release.from, Party::Escrow));
    assert!(matches!(release.to, Party::Account(ref a) if a == "INF"));
    assert_eq!(release.amount, 500);
    assert_eq!(l.complete_task(pid, true, true), Ok(()));

    let p = l.get_proposal(pid).unwrap();
    assert_eq!(p.status, ProposalStatus::Completed);
    assert_eq!(p.deliverables, vec![s("video"), s("post")]);
    assert_eq!(p.amount, 500);
    assert_eq!(p.timeline, 30);
    assert_eq!(l.get_campaign(cid).unwrap().status, CampaignStatus::Completed);
}

#[test]
fn two_proposals_campaign_completes_after_both() {
    let mut l = ready();
    let cid = l.create_campaign(s("ORG"), s("Launch"), 1000, 99);
    let a = l.submit_proposal(cid, s("A"), 300, 1, vec![]).unwrap();
    let b = l.submit_proposal(cid, s("B"), 400, 2, vec![]).unwrap();
    assert_ne!(a, b);
    l.approve_proposal(a, Outcome::Settled).unwrap();
    l.approve_proposal(b, Outcome::Settled).unwrap();
    l.complete_task(a, true, true).unwrap();
    assert_eq!(l.get_campaign(cid).unwrap().status, CampaignStatus::Active);
    l.complete_task(b, true, true).unwrap();
    assert_eq!(l.get_campaign(cid).unwrap().status, CampaignStatus::Completed);
}

#[test]
fn pending_proposal_cannot_be_completed() {
    let mut l = ready();
    let cid = l.create_campaign(s("ORG"), s("T"), 1000, 1);
    let pid = l.submit_proposal(cid, s("INF"), 10, 1, vec![]).unwrap();
    assert_eq!(l.completion_transfer(pid).err(), Some(LedgerError::ProposalNotApproved));
    assert_eq!(
        l.complete_task(pid, true, true),
        Err(LedgerError::ProposalNotApproved)
    );
    assert_eq!(l.get_proposal(pid).unwrap().status, ProposalStatus::Pending);
}

#[test]
fn completion_checks_authorization_before_status() {
    let mut l = ready();
    let cid = l.create_campaign(s("ORG"), s("T"), 1000, 1);
    let pid = l.submit_proposal(cid, s("INF"), 10, 1, vec![]).unwrap();
    assert_eq!(l.completion_signer(pid), Ok(s("ORG")));
    assert_eq!(l.completion_signer(9), Err(LedgerError::ProposalNotFound));
    assert_eq!(
        l.complete_task(pid, false, true),
        Err(LedgerError::Unauthorized)
    );
    l.approve_proposal(pid, Outcome::Settled).unwrap();
    assert_eq!(
        l.complete_task(pid, false, true),
        Err(LedgerError::Unauthorized)
    );
    assert_eq!(l.get_proposal(pid).unwrap().status, ProposalStatus::Approved);
    let mut fresh = InfluencerPayment::new();
    let c = fresh.create_campaign(s("ORG"), s("T"), 1000, 1);
    let p = fresh.submit_proposal(c, s("INF"), 10, 1, vec![]).unwrap();
    assert_eq!(fresh.completion_signer(p), Err(LedgerError::NotInitialized));
}

#[test]
fn submit_errors() {
    let mut l = ready();
    let cid = l.create_campaign(s("ORG"), s("T"), 1000, 1);
    assert_eq!(
        l.submit_proposal(7, s("INF"), 10, 1, vec![]),
        Err(LedgerError::CampaignNotFound)
    );
    assert_eq!(
        l.submit_proposal(cid, s("INF"), 1001, 1, vec![]),
        Err(LedgerError::BudgetExceeded)
    );
    assert_eq!(l.submit_proposal(cid, s("INF"), 1000, 1, vec![]), Ok(0));
    assert_eq!(l.proposal_count(), 1);
    l.approve_proposal(0, Outcome::Settled).unwrap();
    l.complete_task(0, true, true).unwrap();
    assert_eq!(
        l.submit_proposal(cid, s("INF"), 10, 1, vec![]),
        Err(LedgerError::CampaignNotActive)
    );
    assert_eq!(l.proposal_count(), 1);
}

#[test]
fn failed_outcomes_change_nothing() {
    let mut l = ready();
    let cid = l.create_campaign(s("ORG"), s("T"), 1000, 1);
    let pid = l.submit_proposal(cid, s("INF"), 10, 1, vec![]).unwrap();
    assert_eq!(
        l.approve_proposal(pid, Outcome::Unauthorized),
        Err(LedgerError::Unauthorized)
    );
    assert_eq!(
        l.approve_proposal(pid, Outcome::TransferFailed),
        Err(LedgerError::TransferFailed)
    );
    assert_eq!(l.get_proposal(pid).unwrap().status, ProposalStatus::Pending);
    l.approve_proposal(pid, Outcome::Settled).unwrap();
    assert_eq!(
        l.complete_task(pid, true, false),
        Err(LedgerError::TransferFailed)
    );
    assert_eq!(l.get_proposal(pid).unwrap().status, ProposalStatus::Approved);
    assert_eq!(l.get_campaign(cid).unwrap().status, CampaignStatus::Active);
}

#[test]
fn lookups_fail_on_unknown_ids() {
    let mut l = ready();
    assert_eq!(l.get_campaign(0).err(), Some(LedgerError::CampaignNotFound));
    assert_eq!(l.get_proposal(0).err(), Some(LedgerError::ProposalNotFound));
    assert_eq!(
        l.approve_proposal(3, Outcome::Settled),
        Err(LedgerError::ProposalNotFound)
    );
    assert_eq!(
        l.complete_task(3, true, true),
        Err(LedgerError::ProposalNotFound)
    );
}

#[test]
fn uninitialized_ledger_cannot_move_funds() {
    let mut l = InfluencerPayment::new();
    let cid = l.create_campaign(s("ORG"), s("T"), 100, 1);
    let pid = l.submit_proposal(cid, s("INF"), 10, 1, vec![]).unwrap();
    assert_eq!(l.approval_transfer(pid).err(), Some(LedgerError::NotInitialized));
    assert_eq!(
        l.approve_proposal(pid, Outcome::Settled),
        Err(LedgerError::NotInitialized)
    );
}

#[test]
fn queries_filter_in_order() {
    let mut l = ready();
    let c0 = l.create_campaign(s("ORG1"), s("A"), 100, 1);
    let c1 = l.create_campaign(s("ORG2"), s("B"), 100, 1);
    let c2 = l.create_campaign(s("ORG1"), s("C"), 100, 1);
    assert_eq!(l.campaign_count(), 3);
    let p0 = l.submit_proposal(c0, s("X"), 5, 1, vec![]).unwrap();
    let p1 = l.submit_proposal(c1, s("Y"), 5, 1, vec![]).unwrap();
    let p2 = l.submit_proposal(c0, s("Y"), 5, 1, vec![]).unwrap();

    let of_c0: Vec<u32> = l.get_campaign_proposals(c0).iter().map(|p| p.id).collect();
    assert_eq!(of_c0, vec![p0, p2]);
    let of_y: Vec<u32> = l.get_influencer_proposals(&s("Y")).iter().map(|p| p.id).collect();
    assert_eq!(of_y, vec![p1, p2]);

    l.approve_proposal(p1, Outcome::Settled).unwrap();
    l.complete_task(p1, true, true).unwrap();
    let active: Vec<u32> = l.get_active_campaigns().iter().map(|c| c.id).collect();
    assert_eq!(active, vec![c0, c2]);
    let org1: Vec<u32> = l.get_organization_campaigns(&s("ORG1")).iter().map(|c| c.id).collect();
    assert_eq!(org1, vec![c0, c2]);
    assert!(l.get_organization_campaigns(&s("ORG2")).is_empty());
    assert_eq!(l.get_campaign(c2).unwrap().title, "C");
}

#[test]
fn reapproving_completed_proposal_is_accepted() {
    let mut l = ready();
    let cid = l.create_campaign(s("ORG"), s("T"), 100, 1);
    let pid = l.submit_proposal(cid, s("INF"), 10, 1, vec![]).unwrap();
    l.approve_proposal(pid, Outcome::Settled).unwrap();
    l.approve_proposal(pid, Outcome::Settled).unwrap();
    l.complete_task(pid, true, true).unwrap();
    assert_eq!(l.approve_proposal(pid, Outcome::Settled), Ok(()));
    assert_eq!(l.get_proposal(pid).unwrap().status, ProposalStatus::Approved);
    assert_eq!(l.get_campaign(cid).unwrap().status, CampaignStatus::Completed);
}

#[test]
fn parts_round_trip_and_validation() {
    let mut l = ready();
    let cid = l.create_campaign(s("ORG"), s("T"), 100, 1);
    l.submit_proposal(cid, s("INF"), 10, 1, vec![s("d")]).unwrap();
    let (token, campaigns, proposals) = l.into_parts();
    assert_eq!(token.as_deref(), Some("TOKEN"));
    assert_eq!(campaigns.len(), 1);
    assert_eq!(proposals.len(), 1);
    let mut bad = proposals.clone();
    bad[0].campaign_id = 5;
    assert!(InfluencerPayment::from_parts(token.clone(), campaigns.clone(), bad).is_none());
    let mut neg = campaigns.clone();
    neg[0].budget = -1;
    assert!(InfluencerPayment::from_parts(token.clone(), neg, proposals.clone()).is_none());
    let back = InfluencerPayment::from_parts(token, campaigns, proposals).unwrap();
    assert_eq!(back.get_proposal(0).unwrap().deliverables, vec![s("d")]);
}
