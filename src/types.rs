use vstd::prelude::*;

verus! {

/// Keys under which a host keeps the ledger's parts in persistent storage.
#[derive(Clone, Copy, Debug, PartialEq, Eq, Structural)]
pub enum DataKey {
    Campaigns,
    Proposals,
    Token,
}

#[derive(Clone, Copy, Debug, PartialEq, Eq, Structural)]
pub enum CampaignStatus {
    Active,
    Completed,
    Cancelled,
}

#[derive(Clone, Copy, Debug, PartialEq, Eq, Structural)]
pub enum ProposalStatus {
    Pending,
    Approved,
    Completed,
    Rejected,
}

/// A funded task posted by an organization. Identities are the textual
/// (strkey) form of an account address.
#[derive(Debug)]
pub struct Campaign {
    pub id: u32,
    pub organization: String,
    pub title: String,
    pub budget: i128,
    pub status: CampaignStatus,
    pub deadline: u64,
}

/// An influencer's bid against a campaign.
#[derive(Debug)]
pub struct Proposal {
    pub id: u32,
    pub campaign_id: u32,
    pub influencer: String,
    pub amount: i128,
    pub timeline: u64,
    pub status: ProposalStatus,
    pub deliverables: Vec<String>,
}

impl Clone for Campaign {
    fn clone(&self) -> (r: Self)
        ensures
            r == *self,
    {
        Campaign {
            id: self.id,
            organization: self.organization.clone(),
            title: self.title.clone(),
            budget: self.budget,
            status: self.status,
            deadline: self.deadline,
        }
    }
}

/// A proposal as a mathematical value: its deliverables as a sequence.
pub struct ProposalView {
    pub id: u32,
    pub campaign_id: u32,
    pub influencer: String,
    pub amount: i128,
    pub timeline: u64,
    pub status: ProposalStatus,
    pub deliverables: Seq<String>,
}

impl View for Proposal {
    type V = ProposalView;

    open spec fn view(&self) -> ProposalView {
        ProposalView {
            id: self.id,
            campaign_id: self.campaign_id,
            influencer: self.influencer,
            amount: self.amount,
            timeline: self.timeline,
            status: self.status,
            deliverables: self.deliverables@,
        }
    }
}

impl Clone for Proposal {
    fn clone(&self) -> (r: Self)
        ensures
            r@ == self@,
    {
        let deliverables = self.deliverables.clone();
        assert(deliverables@ =~= self.deliverables@);
        Proposal {
            id: self.id,
            campaign_id: self.campaign_id,
            influencer: self.influencer.clone(),
            amount: self.amount,
            timeline: self.timeline,
            status: self.status,
            deliverables,
        }
    }
}

#[derive(Clone, Copy, Debug, PartialEq, Eq, Structural)]
pub enum LedgerError {
    Unauthorized,
    CampaignNotFound,
    ProposalNotFound,
    CampaignNotActive,
    BudgetExceeded,
    ProposalNotApproved,
    TransferFailed,
    AlreadyInitialized,
    NotInitialized,
}

/// One side of a token transfer: an account, or the ledger's own escrow
/// account.
#[derive(Debug)]
pub enum Party {
    Account(String),
    Escrow,
}

/// A transfer that the host must perform, after `signer` has proved control
/// of its identity, before the ledger commits an operation.
#[derive(Debug)]
pub struct Transfer {
    pub signer: String,
    pub token: String,
    pub from: Party,
    pub to: Party,
    pub amount: i128,
}

/// What the host reports back after attempting the authorization and the
/// transfer that the ledger asked for.
#[derive(Clone, Copy, Debug, PartialEq, Eq, Structural)]
pub enum Outcome {
    Settled,
    Unauthorized,
    TransferFailed,
}

} // verus!
