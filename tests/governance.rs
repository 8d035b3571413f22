use governance::contract::{clock_in_range, period_info, Governance, DEFAULT_LIMIT, MAX_LIMIT};
use governance::error::ContractError;
use governance::msg::{InstantiateMsg, ProposalPeriod, ProposalResponse, ProposalsResponse, Refund};
use governance::state::{proposal_passes, Config, Proposal, ProposalStatus, VoteOption};

const PROPOSAL_REQUIRED_DEPOSIT: u128 = 1000;
const TOKEN: &str = "contract0";

fn setup() -> Governance {
    Governance::instantiate(InstantiateMsg {
        bjmes_token_addr: TOKEN.to_string(),
        proposal_required_deposit: PROPOSAL_REQUIRED_DEPOSIT,
        proposal_required_percentage: 51,
        period_start_epoch: 1660000000,
        posting_period_length: 300000,
        voting_period_length: 606864,
    })
    .unwrap()
}

fn submit(g: &mut Governance, now: u64, sender: &str, amount: u128) -> Result<(), ContractError> {
    g.text_proposal(
        now,
        12345,
        &TOKEN.to_string(),
        sender.to_string(),
        amount,
        "Text".to_string(),
        "Proposal".to_string(),
    )
}

#[test]
fn text_proposal() {
    let mut g = setup();
    let mut now: u64 = 1660000010;
    let mut height: u64 = 12345;
    let user1 = "user1".to_string();
    let user2 = "user2".to_string();

    let resp = g.proposals(now, None, None);
    assert_eq!(resp, ProposalsResponse { proposal_count: 0, proposals: vec![] });

    let config = g.config().clone();
    assert_eq!(config.bjmes_token_addr, TOKEN);
    assert_eq!(config.proposal_required_deposit, PROPOSAL_REQUIRED_DEPOSIT);

    let res = period_info(&config, now, height);
    assert_eq!(res.current_period, ProposalPeriod::Posting);
    assert_eq!(res.current_time_in_cycle, 10);

    now += config.posting_period_length;
    height += config.posting_period_length / 5;
    let res = period_info(&config, now, height);
    assert_eq!(res.current_period, ProposalPeriod::Voting);
    assert_eq!(res.current_time_in_cycle, 10 + config.posting_period_length);

    let err = g
        .text_proposal(now, height, &TOKEN.to_string(), user1.clone(), 1000, "Text".to_string(), "Proposal".to_string())
        .unwrap_err();
    assert_eq!(err.message(), "NotPostingPeriod");

    now += config.voting_period_length;
    height += config.posting_period_length / 5;

    let err = g
        .text_proposal(now, height, &TOKEN.to_string(), user1.clone(), PROPOSAL_REQUIRED_DEPOSIT - 1, "Text".to_string(), "Proposal".to_string())
        .unwrap_err();
    assert_eq!(err.message(), "Insufficient token deposit!");

    g.text_proposal(now, height, &TOKEN.to_string(), user1.clone(), PROPOSAL_REQUIRED_DEPOSIT, "Text".to_string(), "Proposal".to_string())
        .unwrap();

    let resp = g.proposal(now, 1).unwrap();
    assert_eq!(
        resp,
        ProposalResponse {
            id: 1,
            dao: user1.clone(),
            title: "Text".to_string(),
            description: "Proposal".to_string(),
            coins_yes: 0,
            coins_no: 0,
            yes_voters: vec![],
            no_voters: vec![],
            deposit_amount: 1000,
            start_block: 132345,
            posting_start: 1660906864,
            voting_start: 1661206864,
            voting_end: 1661813728,
            concluded: false,
            status: ProposalStatus::Posted
        }
    );

    let resp = g.proposals(now, None, None);
    assert_eq!(
        resp,
        ProposalsResponse {
            proposal_count: 1,
            proposals: vec![ProposalResponse {
                id: 1,
                dao: user1.clone(),
                title: "Text".to_string(),
                description: "Proposal".to_string(),
                coins_yes: 0,
                coins_no: 0,
                yes_voters: vec![],
                no_voters: vec![],
                deposit_amount: 1000,
                start_block: 132345,
                posting_start: 1660906864,
                voting_start: 1661206864,
                voting_end: 1661813728,
                concluded: false,
                status: ProposalStatus::Posted
            }]
        }
    );

    let err = g.vote(now, 1, &user1, VoteOption::Yes, 1000).unwrap_err();
    assert_eq!(err.message(), "NotVotingPeriod");

    now += config.posting_period_length;
    height += config.posting_period_length / 5;
    let res = period_info(&config, now, height);
    assert_eq!(res.current_period, ProposalPeriod::Voting);
    assert_eq!(res.current_time_in_cycle, 10 + config.posting_period_length);

    // user1 minted twice the deposit and paid one deposit.
    g.vote(now, 1, &user1, VoteOption::Yes, 1000).unwrap();
    let resp = g.proposal(now, 1).unwrap();
    assert_eq!(
        resp,
        ProposalResponse {
            id: 1,
            dao: user1.clone(),
            title: "Text".to_string(),
            description: "Proposal".to_string(),
            coins_yes: 1000,
            coins_no: 0,
            yes_voters: vec![user1.clone()],
            no_voters: vec![],
            deposit_amount: 1000,
            start_block: 132345,
            posting_start: 1660906864,
            voting_start: 1661206864,
            voting_end: 1661813728,
            concluded: false,
            status: ProposalStatus::Voting
        }
    );

    let err = g.vote(now, 1, &user1, VoteOption::Yes, 1000).unwrap_err();
    assert_eq!(err.message(), "User already voted!");

    g.vote(now, 1, &user2, VoteOption::No, PROPOSAL_REQUIRED_DEPOSIT - 50).unwrap();
    let resp = g.proposal(now, 1).unwrap();
    assert_eq!(
        resp,
        ProposalResponse {
            id: 1,
            dao: user1.clone(),
            title: "Text".to_string(),
            description: "Proposal".to_string(),
            coins_yes: 1000,
            coins_no: 950,
            yes_voters: vec![user1.clone()],
            no_voters: vec![user2.clone()],
            deposit_amount: 1000,
            start_block: 132345,
            posting_start: 1660906864,
            voting_start: 1661206864,
            voting_end: 1661813728,
            concluded: false,
            status: ProposalStatus::Voting
        }
    );

    let err = g.vote(now, 1, &user2, VoteOption::No, 950).unwrap_err();
    assert_eq!(err.message(), "User already voted!");

    let err = g.conclude(now, 1).unwrap_err();
    assert_eq!(err.message(), "VotingPeriodNotEnded");

    now += config.voting_period_length;
    let refund = g.conclude(now, 1).unwrap();
    assert_eq!(refund, Refund { recipient: user1.clone(), amount: PROPOSAL_REQUIRED_DEPOSIT });

    let resp_concluded = g.proposal(now, 1).unwrap();
    assert_eq!(
        resp_concluded,
        ProposalResponse {
            id: 1,
            dao: user1.clone(),
            title: "Text".to_string(),
            description: "Proposal".to_string(),
            coins_yes: 1000,
            coins_no: 950,
            yes_voters: vec![user1.clone()],
            no_voters: vec![user2.clone()],
            deposit_amount: 1000,
            start_block: 132345,
            posting_start: 1660906864,
            voting_start: 1661206864,
            voting_end: 1661813728,
            concluded: true,
            status: ProposalStatus::SuccessConcluded
        }
    );
}

#[test]
fn posting_boundary_is_inclusive() {
    let g = setup();
    let c = g.config();
    let at_end = period_info(c, 1660000000 + 300000, 1);
    assert_eq!(at_end.current_period, ProposalPeriod::Posting);
    assert_eq!(at_end.current_time_in_cycle, 300000);
    let after = period_info(c, 1660000000 + 300001, 1);
    assert_eq!(after.current_period, ProposalPeriod::Voting);
    let next_cycle = period_info(c, 1660000000 + 906864, 1);
    assert_eq!(next_cycle.current_period, ProposalPeriod::Posting);
    assert_eq!(next_cycle.current_time_in_cycle, 0);
    assert_eq!(next_cycle.current_posting_start, 1660906864);
    assert_eq!(next_cycle.current_voting_start, 1661206864);
    assert_eq!(next_cycle.current_voting_end, 1661813728);
    assert_eq!(next_cycle.next_posting_start, 1661813728);
    assert_eq!(next_cycle.next_voting_start, 1662113728);
    assert_eq!(next_cycle.cycle_length, 906864);
}

#[test]
fn exact_deposit_accepted() {
    let mut g = setup();
    assert_eq!(submit(&mut g, 1660000010, "a", 999), Err(ContractError::InsufficientDeposit {}));
    assert_eq!(submit(&mut g, 1660000010, "a", 1000), Ok(()));
    assert_eq!(g.proposal_count, 1);
    assert_eq!(submit(&mut g, 1660300010, "a", 1000), Err(ContractError::NotPostingPeriod {}));
    assert_eq!(g.proposal_count, 1);
}

#[test]
fn wrong_token_unauthorized() {
    let mut g = setup();
    let r = g.text_proposal(1660000010, 1, &"other".to_string(), "a".to_string(), 1000, "t".to_string(), "d".to_string());
    assert_eq!(r, Err(ContractError::Unauthorized {}));
    assert_eq!(g.proposal_count, 0);
}

#[test]
fn second_vote_rejected_either_side() {
    let mut g = setup();
    submit(&mut g, 1660000010, "a", 1000).unwrap();
    let voting = 1660000010 + 300000;
    let v = "v".to_string();
    g.vote(voting, 1, &v, VoteOption::Yes, 70).unwrap();
    assert_eq!(g.vote(voting, 1, &v, VoteOption::No, 30), Err(ContractError::UserAlreadyVoted {}));
    let p = g.proposal(voting, 1).unwrap();
    assert_eq!((p.coins_yes, p.coins_no), (70, 0));
    assert!(p.no_voters.is_empty());
}

#[test]
fn zero_weight_vote_rejected() {
    let mut g = setup();
    submit(&mut g, 1660000010, "a", 1000).unwrap();
    let voting = 1660000010 + 300000;
    let v = "v".to_string();
    assert_eq!(g.vote(voting, 1, &v, VoteOption::Yes, 0), Err(ContractError::NoVoteCoins {}));
    let p = g.proposal(voting, 1).unwrap();
    assert!(p.yes_voters.is_empty());
    g.vote(voting, 1, &v, VoteOption::Yes, 5).unwrap();
    assert_eq!(g.proposal(voting, 1).unwrap().coins_yes, 5);
}

#[test]
fn vote_unknown_proposal() {
    let mut g = setup();
    let voting = 1660000010 + 300000;
    assert_eq!(g.vote(voting, 1, &"v".to_string(), VoteOption::Yes, 5), Err(ContractError::ProposalNotFound {}));
    assert_eq!(g.proposal(voting, 0).unwrap_err(), ContractError::ProposalNotFound {});
    assert_eq!(g.conclude(voting, 7).unwrap_err(), ContractError::ProposalNotFound {});
}

#[test]
fn tally_overflow_rejected() {
    let mut g = setup();
    submit(&mut g, 1660000010, "a", 1000).unwrap();
    let voting = 1660000010 + 300000;
    g.vote(voting, 1, &"x".to_string(), VoteOption::No, u128::MAX).unwrap();
    assert_eq!(g.vote(voting, 1, &"y".to_string(), VoteOption::No, 1), Err(ContractError::Overflow {}));
    g.vote(voting, 1, &"y".to_string(), VoteOption::Yes, 1).unwrap();
    let p = g.proposal(voting, 1).unwrap();
    assert_eq!((p.coins_yes, p.coins_no), (1, u128::MAX));
}

#[test]
fn conclude_once_with_refund() {
    let mut g = setup();
    submit(&mut g, 1660000010, "alice", 1500).unwrap();
    let end = g.proposal(1660000010, 1).unwrap().voting_end;
    assert_eq!(end, 1660906864);
    assert_eq!(g.conclude(end, 1).unwrap_err(), ContractError::VotingPeriodNotEnded {});
    let refund = g.conclude(end + 1, 1).unwrap();
    assert_eq!(refund.recipient, "alice");
    assert_eq!(refund.amount, 1500);
    let p = g.proposal(end + 1, 1).unwrap();
    assert!(p.concluded);
    // no votes cast: the rule reads 0 >= 0 and holds
    assert_eq!(p.status, ProposalStatus::SuccessConcluded);
    assert_eq!(g.conclude(end + 2, 1).unwrap_err(), ContractError::AlreadyConcluded {});
}

#[test]
fn outcome_rule_values() {
    assert!(proposal_passes(1000, 950, 51));
    assert!(!proposal_passes(500, 600, 51));
    assert!(proposal_passes(0, 0, 0));
    assert!(proposal_passes(0, 0, 51));
    assert!(proposal_passes(51, 49, 51));
    assert!(!proposal_passes(50, 50, 51));
    assert!(proposal_passes(7, 0, 100));
    assert!(!proposal_passes(7, 1, 100));
    assert!(!proposal_passes(7, 0, 101));
    assert!(proposal_passes(0, 0, 200));
    assert!(proposal_passes(u128::MAX, u128::MAX, 50));
    assert!(!proposal_passes(u128::MAX - 1, u128::MAX, 50));
    assert!(proposal_passes(u128::MAX, u128::MAX - 1, 50));
}

#[test]
fn status_after_voting_unconcluded() {
    let mut g = setup();
    submit(&mut g, 1660000010, "a", 1000).unwrap();
    let voting = 1660000010 + 300000;
    g.vote(voting, 1, &"y".to_string(), VoteOption::Yes, 500).unwrap();
    g.vote(voting, 1, &"n".to_string(), VoteOption::No, 600).unwrap();
    let p = g.proposal(1660906865, 1).unwrap();
    assert_eq!(p.status, ProposalStatus::Failure);
    assert_eq!(g.proposal(1660906864, 1).unwrap().status, ProposalStatus::Voting);
    g.conclude(1660906865, 1).unwrap();
    assert_eq!(g.proposal(1660906865, 1).unwrap().status, ProposalStatus::FailedConcluded);
}

#[test]
fn pagination() {
    let mut g = setup();
    for _ in 0..35 {
        submit(&mut g, 1660000010, "a", 1000).unwrap();
    }
    let page = g.proposals(1660000010, None, None);
    assert_eq!(page.proposal_count, 35);
    assert_eq!(page.proposals.len(), DEFAULT_LIMIT as usize);
    let page = g.proposals(1660000010, None, Some(100));
    assert_eq!(page.proposals.len(), MAX_LIMIT as usize);
    let ids: Vec<u64> = page.proposals.iter().map(|p| p.id).collect();
    assert_eq!(ids, (1..=30).collect::<Vec<u64>>());
    let page = g.proposals(1660000010, Some(5), Some(3));
    let ids: Vec<u64> = page.proposals.iter().map(|p| p.id).collect();
    assert_eq!(ids, vec![6, 7, 8]);
    let page = g.proposals(1660000010, Some(33), None);
    let ids: Vec<u64> = page.proposals.iter().map(|p| p.id).collect();
    assert_eq!(ids, vec![34, 35]);
    assert!(g.proposals(1660000010, Some(35), None).proposals.is_empty());
    assert!(g.proposals(1660000010, Some(99), None).proposals.is_empty());
    assert!(g.proposals(1660000010, None, Some(0)).proposals.is_empty());
}

#[test]
fn instantiate_rejects_bad_cycle() {
    let msg = |p: u64, v: u64| InstantiateMsg {
        bjmes_token_addr: TOKEN.to_string(),
        proposal_required_deposit: 1,
        proposal_required_percentage: 51,
        period_start_epoch: 0,
        posting_period_length: p,
        voting_period_length: v,
    };
    assert_eq!(Governance::instantiate(msg(0, 0)).err(), Some(ContractError::InvalidPeriodLength {}));
    assert_eq!(Governance::instantiate(msg(u64::MAX, 1)).err(), Some(ContractError::Overflow {}));
    assert!(Governance::instantiate(msg(0, 1)).is_ok());
}

fn small_config() -> Config {
    Config {
        bjmes_token_addr: TOKEN.to_string(),
        proposal_required_deposit: 1,
        proposal_required_percentage: 51,
        period_start_epoch: 0,
        posting_period_length: 10,
        voting_period_length: 20,
    }
}

#[test]
fn clock_far_future() {
    let c = small_config();
    // u64::MAX is 15 past a cycle start.
    let now = u64::MAX - 34;
    assert!(clock_in_range(&c, now));
    let r = period_info(&c, now, 7);
    assert_eq!(r.current_time_in_cycle, 11);
    assert_eq!(r.current_period, ProposalPeriod::Voting);
    assert_eq!(r.current_posting_start, u64::MAX - 45);
    assert_eq!(r.current_voting_start, u64::MAX - 35);
    assert_eq!(r.current_voting_end, u64::MAX - 15);
    assert_eq!(r.next_posting_start, u64::MAX - 15);
    assert_eq!(r.next_voting_start, u64::MAX - 5);
    assert!(!clock_in_range(&c, u64::MAX));
    let mut late = c.clone();
    late.period_start_epoch = 100;
    assert!(!clock_in_range(&late, 99));
    assert!(clock_in_range(&late, 100));
}

#[test]
fn vote_check_order() {
    let mut g = setup();
    submit(&mut g, 1660000010, "a", 1000).unwrap();
    let v = "v".to_string();
    assert_eq!(g.vote_check(1660000010, 1, &v), Err(ContractError::NotVotingPeriod {}));
    let voting = 1660000010 + 300000;
    assert_eq!(g.vote_check(voting, 2, &v), Err(ContractError::ProposalNotFound {}));
    assert_eq!(g.vote_check(voting, 1, &v), Ok(()));
    g.vote(voting, 1, &v, VoteOption::No, 3).unwrap();
    assert_eq!(g.vote_check(voting, 1, &v), Err(ContractError::UserAlreadyVoted {}));
}

fn record(id: u64, yes: Vec<String>, no: Vec<String>) -> Proposal {
    Proposal {
        id,
        dao: "a".to_string(),
        title: "t".to_string(),
        description: "d".to_string(),
        coins_yes: 0,
        coins_no: 0,
        yes_voters: yes,
        no_voters: no,
        deposit_amount: 1,
        start_block: 1,
        posting_start: 0,
        voting_start: 10,
        voting_end: 30,
        concluded: false,
    }
}

#[test]
fn restore_checks_invariant() {
    let s = |x: &str| x.to_string();
    let ok = vec![record(1, vec![s("x")], vec![s("y")]), record(2, vec![], vec![])];
    let g = Governance::restore(small_config(), 2, ok).unwrap();
    assert_eq!(g.proposal(31, 1).unwrap().status, ProposalStatus::Success);
    assert!(Governance::restore(small_config(), 3, vec![record(1, vec![], vec![])]).is_none());
    assert!(Governance::restore(small_config(), 1, vec![record(2, vec![], vec![])]).is_none());
    assert!(Governance::restore(small_config(), 1, vec![record(1, vec![s("x"), s("x")], vec![])]).is_none());
    assert!(Governance::restore(small_config(), 1, vec![record(1, vec![s("x")], vec![s("x")])]).is_none());
    let mut bad_window = record(1, vec![], vec![]);
    bad_window.voting_end = 5;
    assert!(Governance::restore(small_config(), 1, vec![bad_window]).is_none());
    let mut zero = small_config();
    zero.posting_period_length = 0;
    zero.voting_period_length = 0;
    assert!(Governance::restore(zero, 0, vec![]).is_none());
}

#[test]
fn error_texts() {
    assert_eq!(ContractError::Unauthorized {}.message(), "Unauthorized");
    assert_eq!(ContractError::NoVoteCoins {}.message(), "NoVoteCoins");
    assert_eq!(ContractError::AlreadyConcluded {}.message(), "AlreadyConcluded");
    assert_eq!(ContractError::ProposalNotFound {}.message(), "ProposalNotFound");
    assert_eq!(ContractError::Overflow {}.message(), "Overflow");
    assert_eq!(ContractError::InvalidPeriodLength {}.message(), "InvalidPeriodLength");
}
