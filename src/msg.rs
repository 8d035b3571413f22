use vstd::prelude::*;

use crate::state::{ProposalStatus, VoteOption};

verus! {

/// Parameters given when the contract is created.
#[derive(Clone, Debug)]
pub struct InstantiateMsg {
    pub bjmes_token_addr: String,
    pub proposal_required_deposit: u128,
    /// Required percentage for a proposal to pass, e.g. 51.
    pub proposal_required_percentage: u64,
    /// Epoch when the first posting period starts.
    pub period_start_epoch: u64,
    /// Length in seconds of the posting period.
    pub posting_period_length: u64,
    /// Length in seconds of the voting period.
    pub voting_period_length: u64,
}

/// Payload of a deposit-bearing token transfer.
#[derive(Clone, Debug)]
pub enum Cw20HookMsg {
    TextProposal { title: String, description: String },
}

/// A token transfer notification: who sent how much, with which payload.
#[derive(Clone, Debug)]
pub struct Cw20ReceiveMsg {
    pub sender: String,
    pub amount: u128,
    pub msg: Cw20HookMsg,
}

#[derive(Clone, Debug)]
pub enum ExecuteMsg {
    Receive(Cw20ReceiveMsg),
    Vote { id: u64, vote: VoteOption },
    Conclude { id: u64 },
}

#[derive(Clone, Copy, Debug, PartialEq, Eq, Structural)]
pub enum Feature {
    ArtistCurator {},
}

#[derive(Clone, Copy, Debug, PartialEq, Eq, Structural)]
pub enum CoreSlot {
    Brand {},
    Marketing {},
    Creative {},
    BizDev {},
    CoreTech {},
}

#[derive(Clone, Copy, Debug, PartialEq, Eq, Structural)]
pub enum QueryMsg {
    Config {},
    PeriodInfo {},
    Proposal { id: u64 },
    Proposals { start: Option<u64>, limit: Option<u32> },
}

#[derive(Clone, Copy, Debug, PartialEq, Eq, Structural)]
pub enum ProposalPeriod {
    Posting,
    Voting,
}

#[derive(Clone, Copy, Debug, PartialEq, Eq, Structural)]
pub struct PeriodInfoResponse {
    pub current_block: u64,
    pub current_period: ProposalPeriod,
    pub current_time_in_cycle: u64,
    pub current_posting_start: u64,
    pub current_voting_start: u64,
    pub current_voting_end: u64,
    pub next_posting_start: u64,
    pub next_voting_start: u64,
    pub posting_period_length: u64,
    pub voting_period_length: u64,
    pub cycle_length: u64,
}

#[derive(Clone, Debug, PartialEq, Eq)]
pub struct ProposalResponse {
    pub id: u64,
    pub dao: String,
    pub title: String,
    pub description: String,
    pub coins_yes: u128,
    pub coins_no: u128,
    pub yes_voters: Vec<String>,
    pub no_voters: Vec<String>,
    pub deposit_amount: u128,
    pub start_block: u64,
    pub posting_start: u64,
    pub voting_start: u64,
    pub voting_end: u64,
    pub concluded: bool,
    pub status: ProposalStatus,
}

#[derive(Clone, Debug, PartialEq, Eq)]
pub struct ProposalsResponse {
    pub proposal_count: u64,
    pub proposals: Vec<ProposalResponse>,
}

/// The token transfer that returns a deposit to its proposer.
#[derive(Clone, Debug, PartialEq, Eq)]
pub struct Refund {
    pub recipient: String,
    pub amount: u128,
}

} // verus!
