use vstd::prelude::*;

verus! {

/// Every way a governance command can be rejected.
#[derive(Clone, Copy, Debug, PartialEq, Eq, Structural)]
pub enum ContractError {
    Unauthorized {},
    NotPostingPeriod {},
    NotVotingPeriod {},
    InsufficientDeposit {},
    UserAlreadyVoted {},
    NoVoteCoins {},
    VotingPeriodNotEnded {},
    AlreadyConcluded {},
    ProposalNotFound {},
    Overflow {},
    InvalidPeriodLength {},
}

/// The text reported for each error.
pub open spec fn error_text(e: ContractError) -> Seq<char> {
    match e {
        ContractError::Unauthorized {} => "Unauthorized"@,
        ContractError::NotPostingPeriod {} => "NotPostingPeriod"@,
        ContractError::NotVotingPeriod {} => "NotVotingPeriod"@,
        ContractError::InsufficientDeposit {} => "Insufficient token deposit!"@,
        ContractError::UserAlreadyVoted {} => "User already voted!"@,
        ContractError::NoVoteCoins {} => "NoVoteCoins"@,
        ContractError::VotingPeriodNotEnded {} => "VotingPeriodNotEnded"@,
        ContractError::AlreadyConcluded {} => "AlreadyConcluded"@,
        ContractError::ProposalNotFound {} => "ProposalNotFound"@,
        ContractError::Overflow {} => "Overflow"@,
        ContractError::InvalidPeriodLength {} => "InvalidPeriodLength"@,
    }
}

impl ContractError {
    /// The text that the contract reports for this error.
    pub fn message(&self) -> (r: &'static str)
        ensures
            r@ == error_text(*self),
    {
        match self {
            ContractError::Unauthorized {} => {
                proof {
                    reveal_strlit("Unauthorized");
                }
                "Unauthorized"
            },
            ContractError::NotPostingPeriod {} => {
                proof {
                    reveal_strlit("NotPostingPeriod");
                }
                "NotPostingPeriod"
            },
            ContractError::NotVotingPeriod {} => {
                proof {
                    reveal_strlit("NotVotingPeriod");
                }
                "NotVotingPeriod"
            },
            ContractError::InsufficientDeposit {} => {
                proof {
                    reveal_strlit("Insufficient token deposit!");
                }
                "Insufficient token deposit!"
            },
            ContractError::UserAlreadyVoted {} => {
                proof {
                    reveal_strlit("User already voted!");
                }
                "User already voted!"
            },
            ContractError::NoVoteCoins {} => {
                proof {
                    reveal_strlit("NoVoteCoins");
                }
                "NoVoteCoins"
            },
            ContractError::VotingPeriodNotEnded {} => {
                proof {
                    reveal_strlit("VotingPeriodNotEnded");
                }
                "VotingPeriodNotEnded"
            },
            ContractError::AlreadyConcluded {} => {
                proof {
                    reveal_strlit("AlreadyConcluded");
                }
                "AlreadyConcluded"
            },
            ContractError::ProposalNotFound {} => {
                proof {
                    reveal_strlit("ProposalNotFound");
                }
                "ProposalNotFound"
            },
            ContractError::Overflow {} => {
                proof {
                    reveal_strlit("Overflow");
                }
                "Overflow"
            },
            ContractError::InvalidPeriodLength {} => {
                proof {
                    reveal_strlit("InvalidPeriodLength");
                }
                "InvalidPeriodLength"
            },
        }
    }
}

} // verus!
