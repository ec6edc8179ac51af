//! Properties of the ledger's transitions that hold for every input.
use vstd::prelude::*;

use crate::ledger::{all_settled, campaigns_kept, LedgerView};
use crate::types::{CampaignStatus, LedgerError, Outcome, Party, ProposalStatus, Transfer};

verus! {

/// A Completed campaign has no proposal left that is not Completed.
pub open spec fn completion_consistent(l: LedgerView) -> bool {
    forall|c: int|
        0 <= c < l.campaigns.len() && (#[trigger] l.campaigns[c]).status
            == CampaignStatus::Completed ==> all_settled(l.proposals, c as u32)
}

/// What `t` adds to the balance of `who`: its amount in, its amount out.
pub open spec fn net_flow(t: Transfer, who: Party) -> int {
    (if t.to == who {
        t.amount as int
    } else {
        0
    }) - (if t.from == who {
        t.amount as int
    } else {
        0
    })
}

/// Every proposal's campaign id resolves to a campaign of the ledger that
/// carries that id, and each operation keeps every campaign in place while
/// keeping the ledger well formed, so references never break.
pub proof fn references_resolve(
    l: LedgerView,
    organization: String,
    title: String,
    budget: i128,
    deadline: u64,
    cid: u32,
    influencer: String,
    amount: i128,
    timeline: u64,
    deliverables: Seq<String>,
    pid: u32,
)
    requires
        l.wf(),
    ensures
        forall|i: int|
            #![trigger l.proposals[i]]
            0 <= i < l.proposals.len() ==> (l.proposals[i].campaign_id as int) < l.campaigns.len()
                && l.campaigns[l.proposals[i].campaign_id as int].id == l.proposals[i].campaign_id,
        l.campaigns.len() < u32::MAX && budget >= 0 ==> {
            let next = l.created(organization, title, budget, deadline);
            next.wf() && campaigns_kept(l, next)
        },
        l.proposals.len() < u32::MAX && l.submit_error(cid, amount) is None ==> {
            let next = l.submitted(cid, influencer, amount, timeline, deliverables);
            next.wf() && campaigns_kept(l, next)
        },
        l.approval_plan(pid) is Ok ==> l.approved(pid).wf() && campaigns_kept(l, l.approved(pid)),
        l.completion_plan(pid) is Ok ==> l.completed(pid).wf() && campaigns_kept(
            l,
            l.completed(pid),
        ),
{
    assert forall|i: int|
        #![trigger l.proposals[i]]
        0 <= i < l.proposals.len() implies (l.proposals[i].campaign_id as int) < l.campaigns.len()
        && l.campaigns[l.proposals[i].campaign_id as int].id == l.proposals[i].campaign_id by {
        let c = l.proposals[i].campaign_id as int;
        assert(l.campaigns[c].id == c);
    }
    if l.campaigns.len() < u32::MAX && budget >= 0 {
        let next = l.created(organization, title, budget, deadline);
        assert(forall|c: int| 0 <= c < l.campaigns.len() ==> next.campaigns[c] == l.campaigns[c]);
    }
}

/// A proposal on a campaign that is not Active, or for more than the
/// campaign's budget, is always refused.
pub proof fn submit_rejects_inactive_or_over_budget(l: LedgerView, cid: u32, amount: i128)
    requires
        (cid as int) < l.campaigns.len(),
        amount > l.campaigns[cid as int].budget || l.campaigns[cid as int].status
            != CampaignStatus::Active,
    ensures
        l.submit_error(cid, amount) is Some,
        l.campaigns[cid as int].status != CampaignStatus::Active ==> l.submit_error(cid, amount)
            == Some(LedgerError::CampaignNotActive),
        l.campaigns[cid as int].status == CampaignStatus::Active ==> l.submit_error(cid, amount)
            == Some(LedgerError::BudgetExceeded),
{
}

/// Approving a proposal and then completing it leaves it Completed, and
/// its amount goes from the organization into escrow and then, the same
/// amount of the same token, out of escrow to the influencer: escrow ends
/// where it began.
pub proof fn approve_then_complete_moves_escrow(l: LedgerView, pid: u32)
    requires
        l.wf(),
        l.approve_result(pid, Outcome::Settled) is Ok,
    ensures
        ({
            let p = l.proposals[pid as int];
            let owner = l.campaigns[p.campaign_id as int].organization;
            let approved = l.approved(pid);
            let lock = l.approval_plan(pid)->Ok_0;
            let release = approved.completion_plan(pid)->Ok_0;
            &&& approved.proposals[pid as int].status == ProposalStatus::Approved
            &&& approved.complete_result(pid, true, true) is Ok
            &&& approved.completed(pid).proposals[pid as int].status == ProposalStatus::Completed
            &&& lock.from == Party::Account(owner)
            &&& lock.to == Party::Escrow
            &&& release.from == Party::Escrow
            &&& release.to == Party::Account(p.influencer)
            &&& lock.amount == p.amount
            &&& release.amount == p.amount
            &&& lock.token == release.token
            &&& net_flow(lock, Party::Escrow) + net_flow(release, Party::Escrow) == 0
            &&& owner != p.influencer ==> net_flow(lock, Party::Account(owner)) + net_flow(
                release,
                Party::Account(owner),
            ) == -p.amount && net_flow(lock, Party::Account(p.influencer)) + net_flow(
                release,
                Party::Account(p.influencer),
            ) == p.amount
        }),
{
}

/// Completing a proposal makes its campaign Completed exactly when no
/// proposal of that campaign is left unsettled; otherwise the campaign is
/// untouched.
pub proof fn campaign_completes_with_last_proposal(l: LedgerView, pid: u32)
    requires
        l.wf(),
        l.completion_plan(pid) is Ok,
    ensures
        ({
            let cid = l.proposals[pid as int].campaign_id;
            let next = l.completed(pid);
            &&& all_settled(next.proposals, cid) ==> next.campaigns[cid as int].status
                == CampaignStatus::Completed
            &&& !all_settled(next.proposals, cid) ==> next.campaigns == l.campaigns
        }),
{
}

/// A Pending proposal cannot be completed: once the organization has
/// authorized, the attempt fails as not approved, before any transfer.
pub proof fn complete_requires_approval(l: LedgerView, pid: u32, transferred: bool)
    requires
        l.wf(),
        l.token is Some,
        (pid as int) < l.proposals.len(),
        l.proposals[pid as int].status == ProposalStatus::Pending,
    ensures
        l.completion_plan(pid) == Err::<Transfer, LedgerError>(
            LedgerError::ProposalNotApproved,
        ),
        l.complete_result(pid, true, transferred) == Err::<(), LedgerError>(
            LedgerError::ProposalNotApproved,
        ),
        l.complete_result(pid, false, transferred) == Err::<(), LedgerError>(
            LedgerError::Unauthorized,
        ),
{
}

/// A new ledger has no Completed campaign.
pub proof fn completion_consistent_after_init(l: LedgerView, token: String)
    ensures
        completion_consistent(l.initialized(token)),
{
}

/// Creating a campaign keeps Completed campaigns free of unsettled
/// proposals.
pub proof fn completion_consistent_after_create(
    l: LedgerView,
    organization: String,
    title: String,
    budget: i128,
    deadline: u64,
)
    requires
        l.wf(),
        completion_consistent(l),
    ensures
        completion_consistent(l.created(organization, title, budget, deadline)),
{
    let next = l.created(organization, title, budget, deadline);
    assert forall|c: int|
        0 <= c < next.campaigns.len() && (#[trigger] next.campaigns[c]).status
            == CampaignStatus::Completed implies all_settled(next.proposals, c as u32) by {
        assert(next.campaigns[c] == l.campaigns[c]);
    }
}

/// Submitting a proposal keeps Completed campaigns free of unsettled
/// proposals: only an Active campaign takes one.
pub proof fn completion_consistent_after_submit(
    l: LedgerView,
    cid: u32,
    influencer: String,
    amount: i128,
    timeline: u64,
    deliverables: Seq<String>,
)
    requires
        l.wf(),
        completion_consistent(l),
        l.submit_error(cid, amount) is None,
    ensures
        completion_consistent(l.submitted(cid, influencer, amount, timeline, deliverables)),
{
    let next = l.submitted(cid, influencer, amount, timeline, deliverables);
    assert forall|c: int|
        0 <= c < next.campaigns.len() && (#[trigger] next.campaigns[c]).status
            == CampaignStatus::Completed implies all_settled(next.proposals, c as u32) by {
        assert(all_settled(l.proposals, c as u32));
        assert forall|j: int|
            0 <= j < next.proposals.len() && (#[trigger] next.proposals[j]).campaign_id
                == c as u32 implies next.proposals[j].status == ProposalStatus::Completed by {
            if j < l.proposals.len() {
                assert(next.proposals[j] == l.proposals[j]);
            }
        }
    }
}

/// Approving a proposal that is not yet Completed keeps Completed campaigns
/// free of unsettled proposals. (Approving a Completed proposal again is
/// accepted by the ledger and reopens it under a Completed campaign.)
pub proof fn completion_consistent_after_approve(l: LedgerView, pid: u32)
    requires
        l.wf(),
        completion_consistent(l),
        l.approval_plan(pid) is Ok,
        l.proposals[pid as int].status != ProposalStatus::Completed,
    ensures
        completion_consistent(l.approved(pid)),
{
    let next = l.approved(pid);
    assert forall|c: int|
        0 <= c < next.campaigns.len() && (#[trigger] next.campaigns[c]).status
            == CampaignStatus::Completed implies all_settled(next.proposals, c as u32) by {
        assert(all_settled(l.proposals, c as u32));
        assert forall|j: int|
            0 <= j < next.proposals.len() && (#[trigger] next.proposals[j]).campaign_id
                == c as u32 implies next.proposals[j].status == ProposalStatus::Completed by {
            assert(l.proposals[j].campaign_id == c as u32);
        }
    }
}

/// Completing a proposal keeps Completed campaigns free of unsettled
/// proposals.
pub proof fn completion_consistent_after_complete(l: LedgerView, pid: u32)
    requires
        l.wf(),
        completion_consistent(l),
        l.completion_plan(pid) is Ok,
    ensures
        completion_consistent(l.completed(pid)),
{
    let next = l.completed(pid);
    let cid = l.proposals[pid as int].campaign_id;
    assert forall|c: int|
        0 <= c < next.campaigns.len() && (#[trigger] next.campaigns[c]).status
            == CampaignStatus::Completed implies all_settled(next.proposals, c as u32) by {
        if c != cid as int {
            assert(next.campaigns[c] == l.campaigns[c]);
            assert(all_settled(l.proposals, c as u32));
            assert forall|j: int|
                0 <= j < next.proposals.len() && (#[trigger] next.proposals[j]).campaign_id
                    == c as u32 implies next.proposals[j].status == ProposalStatus::Completed by {
                if j != pid as int {
                    assert(next.proposals[j] == l.proposals[j]);
                }
            }
        } else if !all_settled(next.proposals, cid) {
            assert(l.campaigns[c].status == CampaignStatus::Completed);
            assert(all_settled(l.proposals, cid));
            assert forall|j: int|
                0 <= j < next.proposals.len() && (#[trigger] next.proposals[j]).campaign_id
                    == cid implies next.proposals[j].status == ProposalStatus::Completed by {
                if j != pid as int {
                    assert(next.proposals[j] == l.proposals[j]);
                }
            }
        }
    }
}

} // verus!
