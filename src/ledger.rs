use vstd::prelude::*;

use crate::types::{
    Campaign, CampaignStatus, LedgerError, Outcome, Party, Proposal, ProposalStatus, ProposalView, Transfer,
};

verus! {

/// What a ledger holds: the escrow token (once initialized), and the
/// campaigns and proposals in order of creation.
pub struct LedgerView {
    pub token: Option<String>,
    pub campaigns: Seq<Campaign>,
    pub proposals: Seq<ProposalView>,
}

/// `p` with its status replaced and every other field kept.
pub open spec fn proposal_with_status(p: ProposalView, s: ProposalStatus) -> ProposalView {
    ProposalView {
        id: p.id,
        campaign_id: p.campaign_id,
        influencer: p.influencer,
        amount: p.amount,
        timeline: p.timeline,
        status: s,
        deliverables: p.deliverables,
    }
}

/// `c` with its status replaced and every other field kept.
pub open spec fn campaign_with_status(c: Campaign, s: CampaignStatus) -> Campaign {
    Campaign {
        id: c.id,
        organization: c.organization,
        title: c.title,
        budget: c.budget,
        status: s,
        deadline: c.deadline,
    }
}

/// Every proposal in `ps` that references campaign `cid` is Completed.
pub open spec fn all_settled(ps: Seq<ProposalView>, cid: u32) -> bool {
    forall|j: int|
        0 <= j < ps.len() && (#[trigger] ps[j]).campaign_id == cid ==> ps[j].status
            == ProposalStatus::Completed
}

/// How many proposals in `ps` reference campaign `cid` and are not Completed.
pub open spec fn remaining(ps: Seq<ProposalView>, cid: u32) -> nat
    decreases ps.len(),
{
    if ps.len() == 0 {
        0
    } else {
        remaining(ps.drop_last(), cid) + if ps.last().campaign_id == cid && ps.last().status
            != ProposalStatus::Completed {
            1nat
        } else {
            0nat
        }
    }
}

/// Selects the proposals of campaign `cid`.
pub open spec fn of_campaign(cid: u32) -> spec_fn(ProposalView) -> bool {
    |p: ProposalView| p.campaign_id == cid
}

/// Selects the proposals submitted by `who`.
pub open spec fn of_influencer(who: Seq<char>) -> spec_fn(ProposalView) -> bool {
    |p: ProposalView| p.influencer@ == who
}

/// Selects the Active campaigns.
pub open spec fn is_active() -> spec_fn(Campaign) -> bool {
    |c: Campaign| c.status == CampaignStatus::Active
}

/// Selects the Active campaigns of organization `who`.
pub open spec fn active_of_organization(who: Seq<char>) -> spec_fn(Campaign) -> bool {
    |c: Campaign| c.organization@ == who && c.status == CampaignStatus::Active
}

/// The error that a host's report turns into, if any.
pub open spec fn outcome_error(o: Outcome) -> Option<LedgerError> {
    match o {
        Outcome::Settled => None,
        Outcome::Unauthorized => Some(LedgerError::Unauthorized),
        Outcome::TransferFailed => Some(LedgerError::TransferFailed),
    }
}

pub proof fn lemma_remaining_bound(ps: Seq<ProposalView>, cid: u32)
    ensures
        remaining(ps, cid) <= ps.len(),
    decreases ps.len(),
{
    if ps.len() > 0 {
        lemma_remaining_bound(ps.drop_last(), cid);
    }
}

/// No proposal of a campaign remains exactly when all of them are settled.
pub proof fn lemma_remaining_zero(ps: Seq<ProposalView>, cid: u32)
    ensures
        remaining(ps, cid) == 0 <==> all_settled(ps, cid),
    decreases ps.len(),
{
    if ps.len() > 0 {
        let init = ps.drop_last();
        lemma_remaining_zero(init, cid);
        if all_settled(ps, cid) {
            assert forall|j: int|
                0 <= j < init.len() && (#[trigger] init[j]).campaign_id == cid implies init[j].status
                == ProposalStatus::Completed by {
                assert(init[j] == ps[j]);
            }
            assert(ps[ps.len() - 1] == ps.last());
        }
        if remaining(ps, cid) == 0 {
            assert forall|j: int|
                0 <= j < ps.len() && (#[trigger] ps[j]).campaign_id == cid implies ps[j].status
                == ProposalStatus::Completed by {
                if j < ps.len() - 1 {
                    assert(init[j] == ps[j]);
                }
            }
        }
    }
}

/// Every campaign of `l` stands in `next` too, at the same place and with the
/// same id.
pub open spec fn campaigns_kept(l: LedgerView, next: LedgerView) -> bool {
    &&& l.campaigns.len() <= next.campaigns.len()
    &&& forall|c: int| 0 <= c < l.campaigns.len() ==> (#[trigger] next.campaigns[c]).id == l.campaigns[c].id
}

/// A well-formed ledger has no dangling campaign reference.
pub proof fn lemma_wf_references(l: LedgerView)
    requires
        l.wf(),
    ensures
        l.references_intact(),
{
    assert forall|i: int| #![trigger l.proposals[i]] 0 <= i < l.proposals.len() implies exists|j: int|
        0 <= j < l.campaigns.len() && (#[trigger] l.campaigns[j]).id == l.proposals[i].campaign_id by {
        let j = l.proposals[i].campaign_id as int;
        assert(l.campaigns[j].id == j);
    }
}

impl LedgerView {
    /// Ids are positions, every proposal references an existing campaign,
    /// budgets are not negative, and ids fit in `u32`.
    pub open spec fn wf(&self) -> bool {
        &&& self.campaigns.len() <= u32::MAX
        &&& self.proposals.len() <= u32::MAX
        &&& forall|i: int|
            #![trigger self.campaigns[i]]
            0 <= i < self.campaigns.len() ==> self.campaigns[i].id == i
                && self.campaigns[i].budget >= 0
        &&& forall|i: int|
            #![trigger self.proposals[i]]
            0 <= i < self.proposals.len() ==> self.proposals[i].id == i
                && (self.proposals[i].campaign_id as int) < self.campaigns.len()
    }

    pub open spec fn init_result(&self) -> Result<(), LedgerError> {
        if self.token is Some {
            Err(LedgerError::AlreadyInitialized)
        } else {
            Ok(())
        }
    }

    pub open spec fn initialized(&self, token: String) -> LedgerView {
        LedgerView { token: Some(token), campaigns: Seq::empty(), proposals: Seq::empty() }
    }

    pub open spec fn created(
        &self,
        organization: String,
        title: String,
        budget: i128,
        deadline: u64,
    ) -> LedgerView {
        LedgerView {
            token: self.token,
            campaigns: self.campaigns.push(
                Campaign {
                    id: self.campaigns.len() as u32,
                    organization,
                    title,
                    budget,
                    status: CampaignStatus::Active,
                    deadline,
                },
            ),
            proposals: self.proposals,
        }
    }

    /// Why a proposal of `amount` on campaign `cid` would be refused, if it
    /// would be.
    pub open spec fn submit_error(&self, cid: u32, amount: i128) -> Option<LedgerError> {
        if cid as int >= self.campaigns.len() {
            Some(LedgerError::CampaignNotFound)
        } else if self.campaigns[cid as int].status != CampaignStatus::Active {
            Some(LedgerError::CampaignNotActive)
        } else if amount > self.campaigns[cid as int].budget {
            Some(LedgerError::BudgetExceeded)
        } else {
            None
        }
    }

    pub open spec fn submitted(
        &self,
        cid: u32,
        influencer: String,
        amount: i128,
        timeline: u64,
        deliverables: Seq<String>,
    ) -> LedgerView {
        LedgerView {
            token: self.token,
            campaigns: self.campaigns,
            proposals: self.proposals.push(
                ProposalView {
                    id: self.proposals.len() as u32,
                    campaign_id: cid,
                    influencer,
                    amount,
                    timeline,
                    status: ProposalStatus::Pending,
                    deliverables,
                },
            ),
        }
    }

    /// The transfer that approving proposal `pid` needs: its amount, from the
    /// campaign's organization into escrow, signed by the organization.
    pub open spec fn approval_plan(&self, pid: u32) -> Result<Transfer, LedgerError> {
        if pid as int >= self.proposals.len() {
            Err(LedgerError::ProposalNotFound)
        } else {
            let p = self.proposals[pid as int];
            if p.campaign_id as int >= self.campaigns.len() {
                Err(LedgerError::CampaignNotFound)
            } else {
                let owner = self.campaigns[p.campaign_id as int].organization;
                match self.token {
                    None => Err(LedgerError::NotInitialized),
                    Some(token) => Ok(
                        Transfer {
                            signer: owner,
                            token,
                            from: Party::Account(owner),
                            to: Party::Escrow,
                            amount: p.amount,
                        },
                    ),
                }
            }
        }
    }

    /// The transfer that completing proposal `pid` needs: its amount, out of
    /// escrow to the influencer, signed by the campaign's organization. Only
    /// an Approved proposal can be completed.
    pub open spec fn completion_plan(&self, pid: u32) -> Result<Transfer, LedgerError> {
        if pid as int >= self.proposals.len() {
            Err(LedgerError::ProposalNotFound)
        } else {
            let p = self.proposals[pid as int];
            if p.campaign_id as int >= self.campaigns.len() {
                Err(LedgerError::CampaignNotFound)
            } else {
                let owner = self.campaigns[p.campaign_id as int].organization;
                match self.token {
                    None => Err(LedgerError::NotInitialized),
                    Some(token) => if p.status != ProposalStatus::Approved {
                        Err(LedgerError::ProposalNotApproved)
                    } else {
                        Ok(
                            Transfer {
                                signer: owner,
                                token,
                                from: Party::Escrow,
                                to: Party::Account(p.influencer),
                                amount: p.amount,
                            },
                        )
                    },
                }
            }
        }
    }

    pub open spec fn approve_result(&self, pid: u32, outcome: Outcome) -> Result<(), LedgerError> {
        match self.approval_plan(pid) {
            Err(e) => Err(e),
            Ok(_) => match outcome_error(outcome) {
                Some(e) => Err(e),
                None => Ok(()),
            },
        }
    }

    /// Who must authorize completing proposal `pid`: the organization of its
    /// campaign. Only the lookups and initialization are checked here.
    pub open spec fn completion_signer_plan(&self, pid: u32) -> Result<String, LedgerError> {
        if pid as int >= self.proposals.len() {
            Err(LedgerError::ProposalNotFound)
        } else {
            let p = self.proposals[pid as int];
            if p.campaign_id as int >= self.campaigns.len() {
                Err(LedgerError::CampaignNotFound)
            } else if self.token is None {
                Err(LedgerError::NotInitialized)
            } else {
                Ok(self.campaigns[p.campaign_id as int].organization)
            }
        }
    }

    /// Completing proposal `pid` checks, in order: the lookups, that the
    /// ledger is initialized, the organization's authorization, that the
    /// proposal is Approved, and the release transfer.
    pub open spec fn complete_result(&self, pid: u32, authorized: bool, transferred: bool) -> Result<
        (),
        LedgerError,
    > {
        match self.completion_signer_plan(pid) {
            Err(e) => Err(e),
            Ok(_) => if !authorized {
                Err(LedgerError::Unauthorized)
            } else if self.proposals[pid as int].status != ProposalStatus::Approved {
                Err(LedgerError::ProposalNotApproved)
            } else if !transferred {
                Err(LedgerError::TransferFailed)
            } else {
                Ok(())
            },
        }
    }

    /// Every proposal's campaign id is the id of some campaign of the ledger.
    pub open spec fn references_intact(&self) -> bool {
        forall|i: int|
            #![trigger self.proposals[i]]
            0 <= i < self.proposals.len() ==> exists|j: int|
                0 <= j < self.campaigns.len() && (#[trigger] self.campaigns[j]).id
                    == self.proposals[i].campaign_id
    }

    pub open spec fn with_status(&self, pid: u32, s: ProposalStatus) -> Seq<ProposalView> {
        self.proposals.update(pid as int, proposal_with_status(self.proposals[pid as int], s))
    }

    /// Proposal `pid` marked Approved, everything else kept.
    pub open spec fn approved(&self, pid: u32) -> LedgerView {
        LedgerView {
            token: self.token,
            campaigns: self.campaigns,
            proposals: self.with_status(pid, ProposalStatus::Approved),
        }
    }

    /// Proposal `pid` marked Completed; its campaign marked Completed too when
    /// no proposal of it is left unsettled.
    pub open spec fn completed(&self, pid: u32) -> LedgerView {
        let ps = self.with_status(pid, ProposalStatus::Completed);
        let cid = self.proposals[pid as int].campaign_id;
        LedgerView {
            token: self.token,
            campaigns: if all_settled(ps, cid) {
                self.campaigns.update(
                    cid as int,
                    campaign_with_status(self.campaigns[cid as int], CampaignStatus::Completed),
                )
            } else {
                self.campaigns
            },
            proposals: ps,
        }
    }
}

/// The mathematical value of each proposal in `ps`.
pub open spec fn proposal_views(ps: Seq<Proposal>) -> Seq<ProposalView> {
    ps.map_values(|p: Proposal| p@)
}

pub struct InfluencerPayment {
    pub(crate) token: Option<String>,
    pub(crate) campaigns: Vec<Campaign>,
    pub(crate) proposals: Vec<Proposal>,
}

impl View for InfluencerPayment {
    type V = LedgerView;

    closed spec fn view(&self) -> LedgerView {
        LedgerView { token: self.token, campaigns: self.campaigns@, proposals: proposal_views(self.proposals@) }
    }
}

impl InfluencerPayment {
    /// A ledger that has not been initialized yet and holds no records.
    pub fn new() -> (r: InfluencerPayment)
        ensures
            r@.token is None,
            r@.campaigns.len() == 0,
            r@.proposals.len() == 0,
            r@.wf(),
    {
        InfluencerPayment { token: None, campaigns: Vec::new(), proposals: Vec::new() }
    }

    /// Rebuilds a ledger from stored parts, if they form a well-formed one.
    pub fn from_parts(
        token: Option<String>,
        campaigns: Vec<Campaign>,
        proposals: Vec<Proposal>,
    ) -> (r: Option<InfluencerPayment>)
        ensures
            ({
                let v = LedgerView {
                    token,
                    campaigns: campaigns@,
                    proposals: proposal_views(proposals@),
                };
                &&& r is Some <==> v.wf()
                &&& r is Some ==> r->Some_0@ == v
            }),
    {
        let ghost v = LedgerView {
            token,
            campaigns: campaigns@,
            proposals: proposal_views(proposals@),
        };
        if campaigns.len() > u32::MAX as usize || proposals.len() > u32::MAX as usize {
            return None;
        }
        let mut i: usize = 0;
        while i < campaigns.len()
            invariant
                0 <= i <= campaigns@.len(),
                forall|k: int|
                    #![trigger campaigns@[k]]
                    0 <= k < i ==> campaigns@[k].id == k && campaigns@[k].budget >= 0,
            decreases campaigns@.len() - i,
        {
            if campaigns[i].id as usize != i || campaigns[i].budget < 0 {
                return None;
            }
            i = i + 1;
        }
        let mut j: usize = 0;
        while j < proposals.len()
            invariant
                0 <= j <= proposals@.len(),
                v.proposals == proposal_views(proposals@),
                v.campaigns == campaigns@,
                forall|k: int|
                    #![trigger v.proposals[k]]
                    0 <= k < j ==> v.proposals[k].id == k && (v.proposals[k].campaign_id as int)
                        < v.campaigns.len(),
            decreases proposals@.len() - j,
        {
            if proposals[j].id as usize != j || proposals[j].campaign_id as usize
                >= campaigns.len() {
                proof {
                    assert(v.proposals[j as int] == proposals@[j as int]@);
                }
                return None;
            }
            j = j + 1;
        }
        Some(InfluencerPayment { token, campaigns, proposals })
    }

    /// The ledger's parts, for storage: the token, the campaigns and the
    /// proposals in order.
    pub fn into_parts(self) -> (r: (Option<String>, Vec<Campaign>, Vec<Proposal>))
        ensures
            r.0 == self@.token,
            r.1@ == self@.campaigns,
            proposal_views(r.2@) == self@.proposals,
    {
        (self.token, self.campaigns, self.proposals)
    }

    /// Sets the escrow token and starts with no records; a second call fails.
    pub fn init(&mut self, token: String) -> (r: Result<(), LedgerError>)
        ensures
            r == old(self)@.init_result(),
            r is Ok ==> final(self)@ == old(self)@.initialized(token),
            r is Err ==> final(self)@ == old(self)@,
            final(self)@.wf() == (r is Ok || old(self)@.wf()),
    {
        if self.token.is_some() {
            return Err(LedgerError::AlreadyInitialized);
        }
        self.token = Some(token);
        self.campaigns = Vec::new();
        self.proposals = Vec::new();
        assert(self@.proposals =~= Seq::<ProposalView>::empty());
        assert(self@.campaigns =~= Seq::<Campaign>::empty());
        Ok(())
    }

    /// Opens a new Active campaign and returns its id.
    pub fn create_campaign(
        &mut self,
        organization: String,
        title: String,
        budget: i128,
        deadline: u64,
    ) -> (id: u32)
        requires
            old(self)@.wf(),
            old(self)@.campaigns.len() < u32::MAX,
            budget >= 0,
        ensures
            id == old(self)@.campaigns.len(),
            final(self)@ == old(self)@.created(organization, title, budget, deadline),
            final(self)@.wf(),
            final(self)@.references_intact(),
            campaigns_kept(old(self)@, final(self)@),
    {
        let id = self.campaigns.len() as u32;
        let campaign = Campaign {
            id,
            organization,
            title,
            budget,
            status: CampaignStatus::Active,
            deadline,
        };
        self.campaigns.push(campaign);
        assert(self@.wf());
        proof {
            lemma_wf_references(self@);
        }
        id
    }

    /// Records a Pending proposal against campaign `campaign_id` and returns
    /// its id, unless the campaign is missing, not Active, or its budget is
    /// below `amount`; a refused proposal changes nothing.
    pub fn submit_proposal(
        &mut self,
        campaign_id: u32,
        influencer: String,
        amount: i128,
        timeline: u64,
        deliverables: Vec<String>,
    ) -> (r: Result<u32, LedgerError>)
        requires
            old(self)@.wf(),
            old(self)@.proposals.len() < u32::MAX,
        ensures
            final(self)@.wf(),
            final(self)@.references_intact(),
            campaigns_kept(old(self)@, final(self)@),
            r matches Ok(id) ==> final(self)@.proposals[id as int].campaign_id == campaign_id
                && (campaign_id as int) < old(self)@.campaigns.len(),
            (campaign_id as int) < old(self)@.campaigns.len() && amount
                > old(self)@.campaigns[campaign_id as int].budget ==> r is Err && final(self)@
                == old(self)@,
            (campaign_id as int) < old(self)@.campaigns.len()
                && old(self)@.campaigns[campaign_id as int].status != CampaignStatus::Active ==> r
                == Err::<u32, LedgerError>(LedgerError::CampaignNotActive) && final(self)@
                == old(self)@,
            match old(self)@.submit_error(campaign_id, amount) {
                Some(e) => r == Err::<u32, LedgerError>(e) && final(self)@ == old(self)@,
                None => r == Ok::<u32, LedgerError>(old(self)@.proposals.len() as u32)
                    && final(self)@ == old(self)@.submitted(
                    campaign_id,
                    influencer,
                    amount,
                    timeline,
                    deliverables@,
                ),
            },
    {
        proof {
            lemma_wf_references(self@);
        }
        if campaign_id as usize >= self.campaigns.len() {
            return Err(LedgerError::CampaignNotFound);
        }
        let campaign = &self.campaigns[campaign_id as usize];
        if campaign.status != CampaignStatus::Active {
            return Err(LedgerError::CampaignNotActive);
        }
        if amount > campaign.budget {
            return Err(LedgerError::BudgetExceeded);
        }
        let id = self.proposals.len() as u32;
        let proposal = Proposal {
            id,
            campaign_id,
            influencer,
            amount,
            timeline,
            status: ProposalStatus::Pending,
            deliverables,
        };
        self.proposals.push(proposal);
        proof {
            assert(self@.proposals =~= old(self)@.submitted(
                campaign_id,
                influencer,
                amount,
                timeline,
                deliverables@,
            ).proposals);
            lemma_wf_references(self@);
        }
        Ok(id)
    }

    /// The authorization and transfer that approving `proposal_id` asks of
    /// the host.
    pub fn approval_transfer(&self, proposal_id: u32) -> (r: Result<Transfer, LedgerError>)
        ensures
            r == self@.approval_plan(proposal_id),
    {
        if proposal_id as usize >= self.proposals.len() {
            return Err(LedgerError::ProposalNotFound);
        }
        let p = &self.proposals[proposal_id as usize];
        if p.campaign_id as usize >= self.campaigns.len() {
            return Err(LedgerError::CampaignNotFound);
        }
        let owner = &self.campaigns[p.campaign_id as usize].organization;
        match &self.token {
            None => Err(LedgerError::NotInitialized),
            Some(token) => Ok(
                Transfer {
                    signer: owner.clone(),
                    token: token.clone(),
                    from: Party::Account(owner.clone()),
                    to: Party::Escrow,
                    amount: p.amount,
                },
            ),
        }
    }

    /// The transfer that completing `proposal_id` asks of the host, once the
    /// signer has authorized.
    pub fn completion_transfer(&self, proposal_id: u32) -> (r: Result<Transfer, LedgerError>)
        ensures
            r == self@.completion_plan(proposal_id),
    {
        if proposal_id as usize >= self.proposals.len() {
            return Err(LedgerError::ProposalNotFound);
        }
        let p = &self.proposals[proposal_id as usize];
        if p.campaign_id as usize >= self.campaigns.len() {
            return Err(LedgerError::CampaignNotFound);
        }
        let owner = &self.campaigns[p.campaign_id as usize].organization;
        match &self.token {
            None => Err(LedgerError::NotInitialized),
            Some(token) => {
                if p.status != ProposalStatus::Approved {
                    return Err(LedgerError::ProposalNotApproved);
                }
                Ok(
                    Transfer {
                        signer: owner.clone(),
                        token: token.clone(),
                        from: Party::Escrow,
                        to: Party::Account(p.influencer.clone()),
                        amount: p.amount,
                    },
                )
            },
        }
    }

    /// The identity that must authorize completing `proposal_id`, asked of
    /// the host before the proposal's status is looked at.
    pub fn completion_signer(&self, proposal_id: u32) -> (r: Result<String, LedgerError>)
        ensures
            r == self@.completion_signer_plan(proposal_id),
    {
        if proposal_id as usize >= self.proposals.len() {
            return Err(LedgerError::ProposalNotFound);
        }
        let p = &self.proposals[proposal_id as usize];
        if p.campaign_id as usize >= self.campaigns.len() {
            return Err(LedgerError::CampaignNotFound);
        }
        if self.token.is_none() {
            return Err(LedgerError::NotInitialized);
        }
        Ok(self.campaigns[p.campaign_id as usize].organization.clone())
    }

    fn outcome_check(outcome: Outcome) -> (r: Result<(), LedgerError>)
        ensures
            r is Ok <==> outcome_error(outcome) is None,
            r is Err ==> outcome_error(outcome) == Some(r->Err_0),
    {
        match outcome {
            Outcome::Settled => Ok(()),
            Outcome::Unauthorized => Err(LedgerError::Unauthorized),
            Outcome::TransferFailed => Err(LedgerError::TransferFailed),
        }
    }

    fn set_proposal_status(&mut self, proposal_id: u32, status: ProposalStatus)
        requires
            (proposal_id as int) < old(self)@.proposals.len(),
        ensures
            final(self)@ == (LedgerView {
                proposals: old(self)@.with_status(proposal_id, status),
                ..old(self)@
            }),
    {
        let i = proposal_id as usize;
        let mut p = Proposal {
            id: 0,
            campaign_id: 0,
            influencer: String::new(),
            amount: 0,
            timeline: 0,
            status: ProposalStatus::Pending,
            deliverables: Vec::new(),
        };
        self.proposals.set_and_swap(i, &mut p);
        p.status = status;
        self.proposals.set_and_swap(i, &mut p);
        proof {
            assert(self@.proposals =~= old(self)@.with_status(proposal_id, status));
        }
    }

    fn set_campaign_status(&mut self, campaign_id: u32, status: CampaignStatus)
        requires
            (campaign_id as int) < old(self)@.campaigns.len(),
        ensures
            final(self)@ == (LedgerView {
                campaigns: old(self)@.campaigns.update(
                    campaign_id as int,
                    campaign_with_status(old(self)@.campaigns[campaign_id as int], status),
                ),
                ..old(self)@
            }),
    {
        let i = campaign_id as usize;
        let mut c = Campaign {
            id: 0,
            organization: String::new(),
            title: String::new(),
            budget: 0,
            status: CampaignStatus::Active,
            deadline: 0,
        };
        self.campaigns.set_and_swap(i, &mut c);
        c.status = status;
        self.campaigns.set_and_swap(i, &mut c);
        proof {
            assert(self@.campaigns =~= old(self)@.campaigns.update(
                campaign_id as int,
                campaign_with_status(old(self)@.campaigns[campaign_id as int], status),
            ));
        }
    }

    /// Marks `proposal_id` Approved once the host reports that the
    /// organization signed and the amount went into escrow. Any failure
    /// changes nothing.
    pub fn approve_proposal(&mut self, proposal_id: u32, outcome: Outcome) -> (r: Result<(), LedgerError>)
        requires
            old(self)@.wf(),
        ensures
            r == old(self)@.approve_result(proposal_id, outcome),
            r is Ok ==> final(self)@ == old(self)@.approved(proposal_id),
            r is Err ==> final(self)@ == old(self)@,
            final(self)@.wf(),
            final(self)@.references_intact(),
            campaigns_kept(old(self)@, final(self)@),
    {
        proof {
            lemma_wf_references(self@);
        }
        if let Err(e) = self.approval_transfer(proposal_id) {
            return Err(e);
        }
        if let Err(e) = Self::outcome_check(outcome) {
            return Err(e);
        }
        self.set_proposal_status(proposal_id, ProposalStatus::Approved);
        proof {
            lemma_wf_references(self@);
        }
        Ok(())
    }

    /// Marks `proposal_id` Completed once the host reports that the
    /// organization authorized and that the amount left escrow for the
    /// influencer; its campaign becomes Completed when no proposal of it is
    /// left unsettled. Any failure changes nothing.
    pub fn complete_task(&mut self, proposal_id: u32, authorized: bool, transferred: bool) -> (r:
        Result<(), LedgerError>)
        requires
            old(self)@.wf(),
        ensures
            r == old(self)@.complete_result(proposal_id, authorized, transferred),
            r is Ok ==> final(self)@ == old(self)@.completed(proposal_id),
            r is Err ==> final(self)@ == old(self)@,
            final(self)@.wf(),
            final(self)@.references_intact(),
            campaigns_kept(old(self)@, final(self)@),
            old(self)@.token is Some && (proposal_id as int) < old(self)@.proposals.len()
                && old(self)@.proposals[proposal_id as int].status == ProposalStatus::Pending
                && authorized ==> r == Err::<(), LedgerError>(LedgerError::ProposalNotApproved),
    {
        proof {
            lemma_wf_references(self@);
        }
        if let Err(e) = self.completion_signer(proposal_id) {
            return Err(e);
        }
        if !authorized {
            return Err(LedgerError::Unauthorized);
        }
        if let Err(e) = self.completion_transfer(proposal_id) {
            return Err(e);
        }
        if !transferred {
            return Err(LedgerError::TransferFailed);
        }
        let campaign_id = self.proposals[proposal_id as usize].campaign_id;
        self.set_proposal_status(proposal_id, ProposalStatus::Completed);
        let left = self.count_remaining_proposals(campaign_id);
        proof {
            lemma_remaining_zero(self@.proposals, campaign_id);
        }
        if left == 0 {
            self.set_campaign_status(campaign_id, CampaignStatus::Completed);
        }
        proof {
            lemma_wf_references(self@);
        }
        Ok(())
    }

    /// How many proposals of campaign `campaign_id` are not Completed.
    fn count_remaining_proposals(&self, campaign_id: u32) -> (r: u32)
        requires
            self@.proposals.len() <= u32::MAX,
        ensures
            r == remaining(self@.proposals, campaign_id),
    {
        let mut count: u32 = 0;
        let mut i: usize = 0;
        while i < self.proposals.len()
            invariant
                0 <= i <= self@.proposals.len(),
                self@.proposals.len() <= u32::MAX,
                count == remaining(self@.proposals.take(i as int), campaign_id),
            decreases self@.proposals.len() - i,
        {
            proof {
                let s = self@.proposals;
                assert(s.take(i + 1).drop_last() =~= s.take(i as int));
                lemma_remaining_bound(s.take(i as int), campaign_id);
            }
            let p = &self.proposals[i];
            if p.campaign_id == campaign_id && p.status != ProposalStatus::Completed {
                count = count + 1;
            }
            i = i + 1;
        }
        proof {
            assert(self@.proposals.take(i as int) =~= self@.proposals);
        }
        count
    }

    /// The campaign with id `campaign_id`.
    pub fn get_campaign(&self, campaign_id: u32) -> (r: Result<Campaign, LedgerError>)
        requires
            self@.wf(),
        ensures
            (campaign_id as int) < self@.campaigns.len() ==> r == Ok::<Campaign, LedgerError>(
                self@.campaigns[campaign_id as int],
            ),
            (campaign_id as int) >= self@.campaigns.len() ==> r == Err::<Campaign, LedgerError>(
                LedgerError::CampaignNotFound,
            ),
    {
        if campaign_id as usize >= self.campaigns.len() {
            return Err(LedgerError::CampaignNotFound);
        }
        Ok(self.campaigns[campaign_id as usize].clone())
    }

    /// The proposal with id `proposal_id`.
    pub fn get_proposal(&self, proposal_id: u32) -> (r: Result<Proposal, LedgerError>)
        requires
            self@.wf(),
        ensures
            match r {
                Ok(p) => (proposal_id as int) < self@.proposals.len() && p@
                    == self@.proposals[proposal_id as int],
                Err(e) => (proposal_id as int) >= self@.proposals.len() && e
                    == LedgerError::ProposalNotFound,
            },
    {
        if proposal_id as usize >= self.proposals.len() {
            return Err(LedgerError::ProposalNotFound);
        }
        Ok(self.proposals[proposal_id as usize].clone())
    }

    /// The proposals of campaign `campaign_id`, in order of submission.
    pub fn get_campaign_proposals(&self, campaign_id: u32) -> (r: Vec<Proposal>)
        ensures
            proposal_views(r@) == self@.proposals.filter(of_campaign(campaign_id)),
    {
        let mut out: Vec<Proposal> = Vec::new();
        let mut i: usize = 0;
        while i < self.proposals.len()
            invariant
                0 <= i <= self@.proposals.len(),
                proposal_views(out@) == self@.proposals.take(i as int).filter(
                    of_campaign(campaign_id),
                ),
            decreases self@.proposals.len() - i,
        {
            proof {
                let s = self@.proposals;
                assert(s.take(i + 1).drop_last() =~= s.take(i as int));
                reveal(Seq::filter);
            }
            let p = &self.proposals[i];
            if p.campaign_id == campaign_id {
                let ghost before = out@;
                out.push(p.clone());
                proof {
                    assert(proposal_views(out@) =~= proposal_views(before).push(p@));
                }
            }
            i = i + 1;
        }
        proof {
            assert(self@.proposals.take(i as int) =~= self@.proposals);
        }
        out
    }

    /// The proposals submitted by `influencer`, in order of submission.
    pub fn get_influencer_proposals(&self, influencer: &String) -> (r: Vec<Proposal>)
        ensures
            proposal_views(r@) == self@.proposals.filter(of_influencer(influencer@)),
    {
        let mut out: Vec<Proposal> = Vec::new();
        let mut i: usize = 0;
        while i < self.proposals.len()
            invariant
                0 <= i <= self@.proposals.len(),
                proposal_views(out@) == self@.proposals.take(i as int).filter(
                    of_influencer(influencer@),
                ),
            decreases self@.proposals.len() - i,
        {
            proof {
                let s = self@.proposals;
                assert(s.take(i + 1).drop_last() =~= s.take(i as int));
                reveal(Seq::filter);
            }
            let p = &self.proposals[i];
            if p.influencer == *influencer {
                let ghost before = out@;
                out.push(p.clone());
                proof {
                    assert(proposal_views(out@) =~= proposal_views(before).push(p@));
                }
            }
            i = i + 1;
        }
        proof {
            assert(self@.proposals.take(i as int) =~= self@.proposals);
        }
        out
    }

    /// The Active campaigns, in order of creation.
    pub fn get_active_campaigns(&self) -> (r: Vec<Campaign>)
        ensures
            r@ == self@.campaigns.filter(is_active()),
    {
        let mut out: Vec<Campaign> = Vec::new();
        let mut i: usize = 0;
        while i < self.campaigns.len()
            invariant
                0 <= i <= self@.campaigns.len(),
                out@ == self@.campaigns.take(i as int).filter(is_active()),
            decreases self@.campaigns.len() - i,
        {
            proof {
                let s = self@.campaigns;
                assert(s.take(i + 1).drop_last() =~= s.take(i as int));
                reveal(Seq::filter);
            }
            let c = &self.campaigns[i];
            if c.status == CampaignStatus::Active {
                out.push(c.clone());
            }
            i = i + 1;
        }
        proof {
            assert(self@.campaigns.take(i as int) =~= self@.campaigns);
        }
        out
    }

    /// The Active campaigns of `organization`, in order of creation.
    pub fn get_organization_campaigns(&self, organization: &String) -> (r: Vec<Campaign>)
        ensures
            r@ == self@.campaigns.filter(active_of_organization(organization@)),
    {
        let mut out: Vec<Campaign> = Vec::new();
        let mut i: usize = 0;
        while i < self.campaigns.len()
            invariant
                0 <= i <= self@.campaigns.len(),
                out@ == self@.campaigns.take(i as int).filter(
                    active_of_organization(organization@),
                ),
            decreases self@.campaigns.len() - i,
        {
            proof {
                let s = self@.campaigns;
                assert(s.take(i + 1).drop_last() =~= s.take(i as int));
                reveal(Seq::filter);
            }
            let c = &self.campaigns[i];
            if c.organization == *organization && c.status == CampaignStatus::Active {
                out.push(c.clone());
            }
            i = i + 1;
        }
        proof {
            assert(self@.campaigns.take(i as int) =~= self@.campaigns);
        }
        out
    }

    /// Whether the ledger has been initialized.
    pub fn is_initialized(&self) -> (r: bool)
        ensures
            r == self@.token is Some,
    {
        self.token.is_some()
    }

    pub fn campaign_count(&self) -> (r: usize)
        ensures
            r == self@.campaigns.len(),
    {
        self.campaigns.len()
    }

    pub fn proposal_count(&self) -> (r: usize)
        ensures
            r == self@.proposals.len(),
    {
        self.proposals.len()
    }
}

} // verus!
