use vstd::prelude::*;

use crate::error::ContractError;
use crate::msg::{
    InstantiateMsg, PeriodInfoResponse, ProposalPeriod, ProposalResponse, ProposalsResponse, Refund,
};
use crate::state::{addr_seq, apart, contains_addr, lemma_push_fresh, status_at, Config, Proposal, ProposalStatus, VoteOption};

verus! {

/// Page size when the caller names none.
pub const DEFAULT_LIMIT: u32 = 10;

/// Largest page size, whatever the caller asks for.
pub const MAX_LIMIT: u32 = 30;

/// Seconds elapsed since the start of the cycle that contains `now`.
pub open spec fn time_in_cycle_of(c: Config, now: int) -> int {
    (now - c.period_start_epoch) % c.cycle_length()
}

/// The phase at `now`: posting up to and including `posting_period_length`
/// seconds into a cycle, voting after that.
pub open spec fn period_at(c: Config, now: int) -> ProposalPeriod {
    if time_in_cycle_of(c, now) > c.posting_period_length {
        ProposalPeriod::Voting
    } else {
        ProposalPeriod::Posting
    }
}

/// `now` lies at or after the epoch and every boundary of its cycle and the
/// next one fits in a `u64` (the largest is the next voting start).
pub open spec fn clock_fits(c: Config, now: int) -> bool {
    &&& c.wf()
    &&& c.period_start_epoch <= now
    &&& now - time_in_cycle_of(c, now) + c.cycle_length() + c.posting_period_length <= u64::MAX
}

/// Position of `now` in its cycle.
pub fn time_in_cycle(config: &Config, now: u64) -> (r: u64)
    requires
        config.wf(),
        config.period_start_epoch <= now,
    ensures
        r == time_in_cycle_of(*config, now as int),
        r < config.cycle_length(),
        r <= now - config.period_start_epoch,
{
    let full_cycle: u64 = config.posting_period_length + config.voting_period_length;
    let delta: u64 = now - config.period_start_epoch;
    proof {
        vstd::arithmetic::div_mod::lemma_mod_decreases(delta as nat, full_cycle as nat);
    }
    delta % full_cycle
}

/// Whether the clock can describe `now`: see `clock_fits`.
pub fn clock_in_range(config: &Config, now: u64) -> (r: bool)
    requires
        config.wf(),
    ensures
        r == clock_fits(*config, now as int),
{
    if now < config.period_start_epoch {
        return false;
    }
    let t = time_in_cycle(config, now);
    let full_cycle: u64 = config.posting_period_length + config.voting_period_length;
    match (now - t).checked_add(full_cycle) {
        None => false,
        Some(v) => v.checked_add(config.posting_period_length).is_some(),
    }
}

/// The phase at `now` and the window boundaries of its cycle and the next.
pub fn period_info(config: &Config, now: u64, height: u64) -> (r: PeriodInfoResponse)
    requires
        clock_fits(*config, now as int),
    ensures
        r.current_block == height,
        r.current_period == period_at(*config, now as int),
        r.current_time_in_cycle == time_in_cycle_of(*config, now as int),
        r.current_posting_start == now - time_in_cycle_of(*config, now as int),
        r.current_voting_start == r.current_posting_start + config.posting_period_length,
        r.current_voting_end == r.current_voting_start + config.voting_period_length,
        r.next_posting_start == r.current_posting_start + config.cycle_length(),
        r.next_voting_start == r.current_voting_start + config.cycle_length(),
        r.posting_period_length == config.posting_period_length,
        r.voting_period_length == config.voting_period_length,
        r.cycle_length == config.cycle_length(),
        // The phase is posting exactly when the position in the cycle is at
        // most the posting length.
        (r.current_period == ProposalPeriod::Posting) == ((now - config.period_start_epoch)
            % config.cycle_length() <= config.posting_period_length),
{
    let full_cycle: u64 = config.posting_period_length + config.voting_period_length;
    let time_in_cycle = time_in_cycle(config, now);
    let current_period = if time_in_cycle > config.posting_period_length {
        ProposalPeriod::Voting
    } else {
        ProposalPeriod::Posting
    };
    let current_posting_start = now - time_in_cycle;
    let current_voting_start = current_posting_start + config.posting_period_length;
    let current_voting_end = current_voting_start + config.voting_period_length;
    let next_posting_start = current_posting_start + full_cycle;
    let next_voting_start = current_voting_start + full_cycle;
    PeriodInfoResponse {
        current_block: height,
        current_period,
        current_time_in_cycle: time_in_cycle,
        current_posting_start,
        current_voting_start,
        current_voting_end,
        next_posting_start,
        next_voting_start,
        posting_period_length: config.posting_period_length,
        voting_period_length: config.voting_period_length,
        cycle_length: full_cycle,
    }
}

/// The whole contract state: its configuration and the proposal store.
/// Proposal `id` sits at index `id - 1`.
pub struct Governance {
    pub config: Config,
    pub proposal_count: u64,
    pub proposals: Vec<Proposal>,
}

/// `p` is the record that a submission creates.
pub open spec fn is_new_proposal(
    p: Proposal,
    id: int,
    dao: Seq<char>,
    title: Seq<char>,
    description: Seq<char>,
    deposit: int,
    height: int,
    posting_start: int,
    c: Config,
) -> bool {
    &&& p.id == id
    &&& p.dao@ == dao
    &&& p.title@ == title
    &&& p.description@ == description
    &&& p.coins_yes == 0
    &&& p.coins_no == 0
    &&& p.yes_voters@.len() == 0
    &&& p.no_voters@.len() == 0
    &&& p.deposit_amount == deposit
    &&& p.start_block == height
    &&& p.posting_start == posting_start
    &&& p.voting_start == posting_start + c.posting_period_length
    &&& p.voting_end == posting_start + c.cycle_length()
    &&& !p.concluded
}

/// `b` is `a` with a vote of `weight` from `who` on side `vote`.
pub open spec fn is_voted(a: Proposal, b: Proposal, who: Seq<char>, vote: VoteOption, weight: int) -> bool {
    &&& b.id == a.id
    &&& b.dao == a.dao
    &&& b.title == a.title
    &&& b.description == a.description
    &&& b.deposit_amount == a.deposit_amount
    &&& b.start_block == a.start_block
    &&& b.posting_start == a.posting_start
    &&& b.voting_start == a.voting_start
    &&& b.voting_end == a.voting_end
    &&& b.concluded == a.concluded
    &&& match vote {
        VoteOption::Yes => {
            &&& b.coins_yes == a.coins_yes + weight
            &&& b.coins_no == a.coins_no
            &&& addr_seq(b.yes_voters@) == addr_seq(a.yes_voters@).push(who)
            &&& b.no_voters@ == a.no_voters@
        },
        VoteOption::No => {
            &&& b.coins_no == a.coins_no + weight
            &&& b.coins_yes == a.coins_yes
            &&& addr_seq(b.no_voters@) == addr_seq(a.no_voters@).push(who)
            &&& b.yes_voters@ == a.yes_voters@
        },
    }
}

/// The store holds exactly the identifiers `1..=count`, in order, and each
/// record keeps its ledger invariant.
pub open spec fn state_ok(c: Config, count: u64, ps: Seq<Proposal>) -> bool {
    &&& c.wf()
    &&& ps.len() == count
    &&& forall|i: int| 0 <= i < ps.len() ==> (#[trigger] ps[i]).id == i + 1
    &&& forall|i: int| 0 <= i < ps.len() ==> (#[trigger] ps[i]).ledger_ok()
}

impl Governance {
    /// The store holds exactly the identifiers `1..=proposal_count`, in order.
    pub open spec fn wf(&self) -> bool {
        &&& self.config.wf()
        &&& self.proposals.len() == self.proposal_count
        &&& forall|i: int| 0 <= i < self.proposals.len() ==> (#[trigger] self.proposals@[i]).id == i + 1
        &&& forall|i: int| 0 <= i < self.proposals.len() ==> (#[trigger] self.proposals@[i]).ledger_ok()
    }

    pub open spec fn has_proposal(&self, id: int) -> bool {
        1 <= id <= self.proposal_count
    }

    pub open spec fn proposal_at(&self, id: int) -> Proposal {
        self.proposals@[id - 1]
    }

    /// Creates the contract state, checking that a cycle has a positive
    /// length that fits in a `u64`.
    pub fn instantiate(msg: InstantiateMsg) -> (r: Result<Governance, ContractError>)
        ensures
            (msg.posting_period_length + msg.voting_period_length > u64::MAX) <==> r == Err::<
                Governance,
                ContractError,
            >(ContractError::Overflow {}),
            (msg.posting_period_length + msg.voting_period_length == 0) <==> r == Err::<
                Governance,
                ContractError,
            >(ContractError::InvalidPeriodLength {}),
            0 < msg.posting_period_length + msg.voting_period_length <= u64::MAX ==> r is Ok,
            r matches Ok(g) ==> {
                &&& g.wf()
                &&& g.proposal_count == 0
                &&& g.config.bjmes_token_addr == msg.bjmes_token_addr
                &&& g.config.proposal_required_deposit == msg.proposal_required_deposit
                &&& g.config.proposal_required_percentage == msg.proposal_required_percentage
                &&& g.config.period_start_epoch == msg.period_start_epoch
                &&& g.config.posting_period_length == msg.posting_period_length
                &&& g.config.voting_period_length == msg.voting_period_length
            },
    {
        match msg.posting_period_length.checked_add(msg.voting_period_length) {
            None => Err(ContractError::Overflow {}),
            Some(0) => Err(ContractError::InvalidPeriodLength {}),
            Some(_) => {
                let config = Config {
                    bjmes_token_addr: msg.bjmes_token_addr,
                    proposal_required_deposit: msg.proposal_required_deposit,
                    proposal_required_percentage: msg.proposal_required_percentage,
                    period_start_epoch: msg.period_start_epoch,
                    posting_period_length: msg.posting_period_length,
                    voting_period_length: msg.voting_period_length,
                };
                Ok(Governance { config, proposal_count: 0, proposals: Vec::new() })
            },
        }
    }
}

impl Governance {
    /// Submits a text proposal carried by a deposit of `deposit_amount` from
    /// `sender`, notified by the token contract `token`.
    pub fn text_proposal(
        &mut self,
        now: u64,
        height: u64,
        token: &String,
        sender: String,
        deposit_amount: u128,
        title: String,
        description: String,
    ) -> (r: Result<(), ContractError>)
        requires
            old(self).wf(),
            clock_fits(old(self).config, now as int),
        ensures
            final(self).wf(),
            r is Err ==> *final(self) == *old(self),
            period_at(old(self).config, now as int) == ProposalPeriod::Voting ==> r == Err::<
                (),
                ContractError,
            >(ContractError::NotPostingPeriod {}),
            period_at(old(self).config, now as int) == ProposalPeriod::Posting ==> {
                if token@ != old(self).config.bjmes_token_addr@ {
                    r == Err::<(), ContractError>(ContractError::Unauthorized {})
                } else if deposit_amount < old(self).config.proposal_required_deposit {
                    r == Err::<(), ContractError>(ContractError::InsufficientDeposit {})
                } else if old(self).proposal_count == u64::MAX {
                    r == Err::<(), ContractError>(ContractError::Overflow {})
                } else {
                    &&& r is Ok
                    &&& final(self).config == old(self).config
                    &&& final(self).proposal_count == old(self).proposal_count + 1
                    &&& final(self).proposals@.drop_last() == old(self).proposals@
                    &&& is_new_proposal(
                        final(self).proposals@.last(),
                        old(self).proposal_count + 1,
                        sender@,
                        title@,
                        description@,
                        deposit_amount as int,
                        height as int,
                        now - time_in_cycle_of(old(self).config, now as int),
                        old(self).config,
                    )
                }
            },
    {
        let info = period_info(&self.config, now, height);
        if info.current_period != ProposalPeriod::Posting {
            return Err(ContractError::NotPostingPeriod {});
        }
        if *token != self.config.bjmes_token_addr {
            return Err(ContractError::Unauthorized {});
        }
        if deposit_amount < self.config.proposal_required_deposit {
            return Err(ContractError::InsufficientDeposit {});
        }
        if self.proposal_count == u64::MAX {
            return Err(ContractError::Overflow {});
        }
        let id = self.proposal_count + 1;
        let proposal = Proposal {
            id,
            dao: sender,
            title,
            description,
            coins_yes: 0,
            coins_no: 0,
            yes_voters: Vec::new(),
            no_voters: Vec::new(),
            deposit_amount,
            start_block: height,
            posting_start: info.current_posting_start,
            voting_start: info.current_voting_start,
            voting_end: info.current_voting_end,
            concluded: false,
        };
        self.proposals.push(proposal);
        self.proposal_count = id;
        assert(self.proposals@.drop_last() =~= old(self).proposals@);
        Ok(())
    }

    /// The checks that a vote must pass before the voter's weight is looked
    /// up: the voting phase, an existing proposal, a voter new to it.
    pub fn vote_check(&self, now: u64, id: u64, voter: &String) -> (r: Result<(), ContractError>)
        requires
            self.wf(),
            self.config.period_start_epoch <= now,
        ensures
            r == if period_at(self.config, now as int) == ProposalPeriod::Posting {
                Err::<(), ContractError>(ContractError::NotVotingPeriod {})
            } else if !self.has_proposal(id as int) {
                Err::<(), ContractError>(ContractError::ProposalNotFound {})
            } else if self.proposal_at(id as int).has_voted(voter@) {
                Err::<(), ContractError>(ContractError::UserAlreadyVoted {})
            } else {
                Ok::<(), ContractError>(())
            },
    {
        let time_in_cycle = time_in_cycle(&self.config, now);
        if time_in_cycle <= self.config.posting_period_length {
            return Err(ContractError::NotVotingPeriod {});
        }
        if id == 0 || id > self.proposal_count {
            return Err(ContractError::ProposalNotFound {});
        }
        let idx = (id - 1) as usize;
        if contains_addr(&self.proposals[idx].yes_voters, voter) || contains_addr(
            &self.proposals[idx].no_voters,
            voter,
        ) {
            return Err(ContractError::UserAlreadyVoted {});
        }
        Ok(())
    }

    /// Records a vote of `weight` (the voter's balance as reported by the
    /// token contract) from `voter` on proposal `id`.
    pub fn vote(&mut self, now: u64, id: u64, voter: &String, vote: VoteOption, weight: u128) -> (r:
        Result<(), ContractError>)
        requires
            old(self).wf(),
            old(self).config.period_start_epoch <= now,
        ensures
            final(self).wf(),
            r is Err ==> *final(self) == *old(self),
            period_at(old(self).config, now as int) == ProposalPeriod::Posting ==> r == Err::<
                (),
                ContractError,
            >(ContractError::NotVotingPeriod {}),
            period_at(old(self).config, now as int) == ProposalPeriod::Voting ==> {
                if !old(self).has_proposal(id as int) {
                    r == Err::<(), ContractError>(ContractError::ProposalNotFound {})
                } else if old(self).proposal_at(id as int).has_voted(voter@) {
                    r == Err::<(), ContractError>(ContractError::UserAlreadyVoted {})
                } else if weight == 0 {
                    r == Err::<(), ContractError>(ContractError::NoVoteCoins {})
                } else if (vote == VoteOption::Yes && old(self).proposal_at(id as int).coins_yes
                    + weight > u128::MAX) || (vote == VoteOption::No && old(self).proposal_at(
                    id as int,
                ).coins_no + weight > u128::MAX) {
                    r == Err::<(), ContractError>(ContractError::Overflow {})
                } else {
                    &&& r is Ok
                    &&& final(self).config == old(self).config
                    &&& final(self).proposal_count == old(self).proposal_count
                    &&& final(self).proposals@ == old(self).proposals@.update(
                        id - 1,
                        final(self).proposal_at(id as int),
                    )
                    &&& is_voted(
                        old(self).proposal_at(id as int),
                        final(self).proposal_at(id as int),
                        voter@,
                        vote,
                        weight as int,
                    )
                }
            },
    {
        match self.vote_check(now, id, voter) {
            Err(e) => {
                return Err(e);
            },
            Ok(()) => {},
        }
        let idx = (id - 1) as usize;
        if weight == 0 {
            return Err(ContractError::NoVoteCoins {});
        }
        match vote {
            VoteOption::Yes => {
                if self.proposals[idx].coins_yes.checked_add(weight).is_none() {
                    return Err(ContractError::Overflow {});
                }
            },
            VoteOption::No => {
                if self.proposals[idx].coins_no.checked_add(weight).is_none() {
                    return Err(ContractError::Overflow {});
                }
            },
        }
        let ghost before = self.proposals@[idx as int];
        let mut proposal = self.proposals.remove(idx);
        match vote {
            VoteOption::Yes => {
                proposal.coins_yes = proposal.coins_yes + weight;
                proposal.yes_voters.push(voter.clone());
                assert(addr_seq(proposal.yes_voters@) =~= addr_seq(before.yes_voters@).push(voter@));
            },
            VoteOption::No => {
                proposal.coins_no = proposal.coins_no + weight;
                proposal.no_voters.push(voter.clone());
                assert(addr_seq(proposal.no_voters@) =~= addr_seq(before.no_voters@).push(voter@));
            },
        }
        proof {
            let ys = addr_seq(before.yes_voters@);
            let ns = addr_seq(before.no_voters@);
            match vote {
                VoteOption::Yes => lemma_push_fresh(ys, ns, voter@),
                VoteOption::No => lemma_push_fresh(ns, ys, voter@),
            }
        }
        self.proposals.insert(idx, proposal);
        assert(self.proposals@ =~= old(self).proposals@.update(idx as int, proposal));
        Ok(())
    }

    /// Concludes proposal `id` once its own voting window has ended, and
    /// hands back the refund of its deposit to the proposer. The deposit is
    /// refunded whatever the outcome. A proposal is concluded at most once: a
    /// second conclusion is refused with `AlreadyConcluded`, so a deposit is
    /// never refunded twice.
    pub fn conclude(&mut self, now: u64, id: u64) -> (r: Result<Refund, ContractError>)
        requires
            old(self).wf(),
        ensures
            final(self).wf(),
            r is Err ==> *final(self) == *old(self),
            if !old(self).has_proposal(id as int) {
                r == Err::<Refund, ContractError>(ContractError::ProposalNotFound {})
            } else if now <= old(self).proposal_at(id as int).voting_end {
                r == Err::<Refund, ContractError>(ContractError::VotingPeriodNotEnded {})
            } else if old(self).proposal_at(id as int).concluded {
                r == Err::<Refund, ContractError>(ContractError::AlreadyConcluded {})
            } else {
                &&& r matches Ok(refund) && refund.recipient == old(self).proposal_at(id as int).dao
                    && refund.amount == old(self).proposal_at(id as int).deposit_amount
                &&& final(self).config == old(self).config
                &&& final(self).proposal_count == old(self).proposal_count
                &&& final(self).proposals@ == old(self).proposals@.update(
                    id - 1,
                    Proposal { concluded: true, ..old(self).proposal_at(id as int) },
                )
            },
    {
        if id == 0 || id > self.proposal_count {
            return Err(ContractError::ProposalNotFound {});
        }
        let idx = (id - 1) as usize;
        if now <= self.proposals[idx].voting_end {
            return Err(ContractError::VotingPeriodNotEnded {});
        }
        if self.proposals[idx].concluded {
            return Err(ContractError::AlreadyConcluded {});
        }
        let mut proposal = self.proposals.remove(idx);
        proposal.concluded = true;
        let refund = Refund { recipient: proposal.dao.clone(), amount: proposal.deposit_amount };
        self.proposals.insert(idx, proposal);
        assert(self.proposals@ =~= old(self).proposals@.update(idx as int, proposal));
        Ok(refund)
    }
}

/// `r` projects `p` with status `status`.
pub open spec fn is_response(r: ProposalResponse, p: Proposal, status: ProposalStatus) -> bool {
    &&& r.id == p.id
    &&& r.dao == p.dao
    &&& r.title == p.title
    &&& r.description == p.description
    &&& r.coins_yes == p.coins_yes
    &&& r.coins_no == p.coins_no
    &&& r.yes_voters@ == p.yes_voters@
    &&& r.no_voters@ == p.no_voters@
    &&& r.deposit_amount == p.deposit_amount
    &&& r.start_block == p.start_block
    &&& r.posting_start == p.posting_start
    &&& r.voting_start == p.voting_start
    &&& r.voting_end == p.voting_end
    &&& r.concluded == p.concluded
    &&& r.status == status
}

/// Number of entries a page may hold for the requested `limit`.
pub open spec fn page_size(limit: Option<u32>) -> int {
    let l: int = match limit {
        Some(l) => l as int,
        None => DEFAULT_LIMIT as int,
    };
    if l < MAX_LIMIT { l } else { MAX_LIMIT as int }
}

fn copy_addrs(list: &Vec<String>) -> (r: Vec<String>)
    ensures
        r@ == list@,
{
    let mut r: Vec<String> = Vec::new();
    let mut i: usize = 0;
    while i < list.len()
        invariant
            i <= list.len(),
            r@ == list@.subrange(0, i as int),
        decreases list.len() - i,
    {
        r.push(list[i].clone());
        assert(r@ =~= list@.subrange(0, i + 1));
        i = i + 1;
    }
    assert(r@ =~= list@);
    r
}

fn response_of(p: &Proposal, now: u64, pct: u64) -> (r: ProposalResponse)
    ensures
        is_response(r, *p, status_at(*p, now as int, pct as int)),
{
    ProposalResponse {
        id: p.id,
        dao: p.dao.clone(),
        title: p.title.clone(),
        description: p.description.clone(),
        coins_yes: p.coins_yes,
        coins_no: p.coins_no,
        yes_voters: copy_addrs(&p.yes_voters),
        no_voters: copy_addrs(&p.no_voters),
        deposit_amount: p.deposit_amount,
        start_block: p.start_block,
        posting_start: p.posting_start,
        voting_start: p.voting_start,
        voting_end: p.voting_end,
        concluded: p.concluded,
        status: p.status(now, pct),
    }
}

impl Governance {
    /// The configuration.
    pub fn config(&self) -> (r: &Config)
        ensures
            *r == self.config,
    {
        &self.config
    }

    /// Proposal `id` as seen at `now`.
    pub fn proposal(&self, now: u64, id: u64) -> (r: Result<ProposalResponse, ContractError>)
        requires
            self.wf(),
        ensures
            !self.has_proposal(id as int) ==> r == Err::<ProposalResponse, ContractError>(
                ContractError::ProposalNotFound {},
            ),
            self.has_proposal(id as int) ==> (r matches Ok(resp) && is_response(
                resp,
                self.proposal_at(id as int),
                status_at(
                    self.proposal_at(id as int),
                    now as int,
                    self.config.proposal_required_percentage as int,
                ),
            )),
    {
        if id == 0 || id > self.proposal_count {
            return Err(ContractError::ProposalNotFound {});
        }
        let idx = (id - 1) as usize;
        Ok(response_of(&self.proposals[idx], now, self.config.proposal_required_percentage))
    }

    /// A page of proposals in ascending identifier order, holding those with
    /// an identifier above `start` (all of them when `start` is `None`).
    pub fn proposals(&self, now: u64, start: Option<u64>, limit: Option<u32>) -> (r:
        ProposalsResponse)
        requires
            self.wf(),
        ensures
            r.proposal_count == self.proposal_count,
            ({
                let first: int = match start {
                    Some(k) => if k < self.proposal_count { k as int } else { self.proposal_count as int },
                    None => 0,
                };
                &&& r.proposals.len() == if self.proposal_count - first < page_size(limit) {
                    self.proposal_count - first
                } else {
                    page_size(limit)
                }
                &&& forall|j: int|
                    0 <= j < r.proposals.len() ==> is_response(
                        #[trigger] r.proposals@[j],
                        self.proposals@[first + j],
                        status_at(
                            self.proposals@[first + j],
                            now as int,
                            self.config.proposal_required_percentage as int,
                        ),
                    )
            }),
            forall|i: int, j: int|
                0 <= i < j < r.proposals.len() ==> (#[trigger] r.proposals@[i]).id < (
                #[trigger] r.proposals@[j]).id,
            forall|j: int|
                0 <= j < r.proposals.len() ==> match start {
                    Some(k) => (#[trigger] r.proposals@[j]).id > k,
                    None => true,
                },
    {
        let requested: u32 = match limit {
            Some(l) => l,
            None => DEFAULT_LIMIT,
        };
        let size: u64 = if requested < MAX_LIMIT { requested as u64 } else { MAX_LIMIT as u64 };
        let first: u64 = match start {
            Some(k) => if k < self.proposal_count { k } else { self.proposal_count },
            None => 0,
        };
        let end: u64 = if self.proposal_count - first < size {
            self.proposal_count
        } else {
            first + size
        };
        let mut out: Vec<ProposalResponse> = Vec::new();
        let mut i: u64 = first;
        while i < end
            invariant
                self.wf(),
                first <= i <= end <= self.proposal_count,
                out.len() == i - first,
                forall|j: int|
                    0 <= j < out.len() ==> is_response(
                        #[trigger] out@[j],
                        self.proposals@[first + j],
                        status_at(
                            self.proposals@[first + j],
                            now as int,
                            self.config.proposal_required_percentage as int,
                        ),
                    ),
            decreases end - i,
        {
            let resp = response_of(
                &self.proposals[i as usize],
                now,
                self.config.proposal_required_percentage,
            );
            out.push(resp);
            i = i + 1;
        }
        ProposalsResponse { proposal_count: self.proposal_count, proposals: out }
    }
}

/// Once a vote from `who` is recorded on a proposal, `who` counts as having
/// voted on it, so every further vote from `who` there, on either side, is
/// refused.
pub proof fn lemma_vote_recorded(a: Proposal, b: Proposal, who: Seq<char>, vote: VoteOption, weight: int)
    requires
        is_voted(a, b, who, vote, weight),
    ensures
        b.has_voted(who),
{
    match vote {
        VoteOption::Yes => {
            let n = a.yes_voters@.len() as int;
            assert(addr_seq(b.yes_voters@).len() == n + 1);
            assert(addr_seq(b.yes_voters@)[n] == who);
            assert(b.yes_voters@[n]@ == who);
        },
        VoteOption::No => {
            let n = a.no_voters@.len() as int;
            assert(addr_seq(b.no_voters@).len() == n + 1);
            assert(addr_seq(b.no_voters@)[n] == who);
            assert(b.no_voters@[n]@ == who);
        },
    }
}

/// Once a conclusion of proposal `id` is recorded, the proposal reads as
/// concluded, so every further conclude of it is refused; its deposit and
/// proposer are unchanged.
pub proof fn lemma_conclude_once(before: Governance, after: Governance, id: u64)
    requires
        before.wf(),
        before.has_proposal(id as int),
        after.proposal_count == before.proposal_count,
        after.proposals@ == before.proposals@.update(
            id - 1,
            Proposal { concluded: true, ..before.proposal_at(id as int) },
        ),
    ensures
        after.has_proposal(id as int),
        after.proposal_at(id as int).concluded,
        after.proposal_at(id as int).dao == before.proposal_at(id as int).dao,
        after.proposal_at(id as int).deposit_amount == before.proposal_at(id as int).deposit_amount,
{
}

/// Whether no address occurs twice in `list`.
fn distinct_addrs(list: &Vec<String>) -> (r: bool)
    ensures
        r == addr_seq(list@).no_duplicates(),
{
    let ghost xs = addr_seq(list@);
    let mut i: usize = 0;
    while i < list.len()
        invariant
            xs == addr_seq(list@),
            i <= list.len(),
            forall|a: int, b: int| 0 <= a < i && 0 <= b < list.len() && a != b ==> xs[a] != xs[b],
        decreases list.len() - i,
    {
        let mut j: usize = 0;
        while j < list.len()
            invariant
                xs == addr_seq(list@),
                i < list.len(),
                j <= list.len(),
                forall|a: int, b: int| 0 <= a < i && 0 <= b < list.len() && a != b ==> xs[a] != xs[b],
                forall|b: int| 0 <= b < j && b != i ==> xs[i as int] != xs[b],
            decreases list.len() - j,
        {
            if j != i && list[i] == list[j] {
                assert(xs[i as int] == xs[j as int]);
                return false;
            }
            j = j + 1;
        }
        i = i + 1;
    }
    true
}

/// Whether no address of `a` occurs in `b`.
fn apart_addrs(a: &Vec<String>, b: &Vec<String>) -> (r: bool)
    ensures
        r == apart(addr_seq(a@), addr_seq(b@)),
{
    let ghost xs = addr_seq(a@);
    let ghost ys = addr_seq(b@);
    let mut i: usize = 0;
    while i < a.len()
        invariant
            xs == addr_seq(a@),
            ys == addr_seq(b@),
            i <= a.len(),
            forall|k: int, j: int| 0 <= k < i && 0 <= j < ys.len() ==> xs[k] != ys[j],
        decreases a.len() - i,
    {
        if contains_addr(b, &a[i]) {
            let ghost j = choose|j: int| 0 <= j < ys.len() && ys[j] == a@[i as int]@;
            assert(xs[i as int] == ys[j]);
            return false;
        }
        assert forall|j: int| 0 <= j < ys.len() implies xs[i as int] != ys[j] by {
            if xs[i as int] == ys[j] {
                assert(ys.contains(a@[i as int]@));
            }
        }
        i = i + 1;
    }
    true
}

/// Whether `p` keeps its ledger invariant.
fn ledger_valid(p: &Proposal) -> (r: bool)
    ensures
        r == p.ledger_ok(),
{
    p.posting_start <= p.voting_start && p.voting_start <= p.voting_end && distinct_addrs(
        &p.yes_voters,
    ) && distinct_addrs(&p.no_voters) && apart_addrs(&p.yes_voters, &p.no_voters)
}

impl Governance {
    /// Rebuilds the state from parts read back from storage, provided they
    /// keep the store's invariant.
    pub fn restore(config: Config, proposal_count: u64, proposals: Vec<Proposal>) -> (r: Option<
        Governance,
    >)
        ensures
            r is Some <==> state_ok(config, proposal_count, proposals@),
            r matches Some(g) ==> g.wf() && g.config == config && g.proposal_count
                == proposal_count && g.proposals@ == proposals@,
    {
        if config.posting_period_length.checked_add(config.voting_period_length).is_none() {
            return None;
        }
        if config.posting_period_length + config.voting_period_length == 0 {
            return None;
        }
        if proposals.len() as u64 != proposal_count {
            return None;
        }
        let mut i: usize = 0;
        while i < proposals.len()
            invariant
                i <= proposals.len(),
                proposals.len() == proposal_count,
                forall|k: int| 0 <= k < i ==> (#[trigger] proposals@[k]).id == k + 1,
                forall|k: int| 0 <= k < i ==> (#[trigger] proposals@[k]).ledger_ok(),
            decreases proposals.len() - i,
        {
            if proposals[i].id != i as u64 + 1 {
                return None;
            }
            if !ledger_valid(&proposals[i]) {
                return None;
            }
            i = i + 1;
        }
        Some(Governance { config, proposal_count, proposals })
    }
}

} // verus!
