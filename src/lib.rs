//! A record-keeping ledger for marketing campaigns and the proposals that
//! influencers submit against them, with payment escrowed between approval
//! and completion.
//!
//! The ledger decides; the host performs. Authorization of callers and token
//! transfers are carried out by the host, which reports their outcome back to
//! the ledger before any state is committed.

mod types;
mod ledger;
mod laws;

pub use types::{
    Campaign, CampaignStatus, DataKey, LedgerError, Outcome, Party, Proposal, ProposalStatus,
    ProposalView, Transfer,
};
pub use ledger::{
    active_of_organization, all_settled, campaign_with_status, campaigns_kept, is_active, of_campaign, of_influencer,
    outcome_error, proposal_views, proposal_with_status, remaining, InfluencerPayment, LedgerView,
};
pub use laws::{
    approve_then_complete_moves_escrow, campaign_completes_with_last_proposal,
    complete_requires_approval, completion_consistent, completion_consistent_after_approve,
    completion_consistent_after_complete, completion_consistent_after_create,
    completion_consistent_after_init, completion_consistent_after_submit, net_flow, references_resolve,
    submit_rejects_inactive_or_over_budget,
};
