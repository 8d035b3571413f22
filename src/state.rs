use vstd::prelude::*;

verus! {

/// Base of the two-limb representation used to compare wide products.
pub const LIMB: u128 = 0x1_0000_0000_0000_0000;

/// Parameters fixed when the contract is created.
#[derive(Clone, Debug)]
pub struct Config {
    pub bjmes_token_addr: String,
    pub proposal_required_deposit: u128,
    pub proposal_required_percentage: u64,
    pub period_start_epoch: u64,
    pub posting_period_length: u64,
    pub voting_period_length: u64,
}

impl Config {
    pub open spec fn cycle_length(&self) -> int {
        self.posting_period_length + self.voting_period_length
    }

    /// A cycle has positive length and its length fits in a `u64`.
    pub open spec fn wf(&self) -> bool {
        0 < self.cycle_length() <= u64::MAX
    }
}

#[derive(Clone, Copy, Debug, PartialEq, Eq, Structural)]
pub enum VoteOption {
    Yes,
    No,
}

#[derive(Clone, Copy, Debug, PartialEq, Eq, Structural)]
pub enum ProposalStatus {
    Posted,
    Voting,
    Success,
    Failure,
    SuccessConcluded,
    FailedConcluded,
}

/// A proposal with its frozen timeline and its vote ledger.
#[derive(Clone, Debug)]
pub struct Proposal {
    pub id: u64,
    pub dao: String,
    pub title: String,
    pub description: String,
    pub coins_yes: u128,
    pub coins_no: u128,
    pub yes_voters: Vec<String>,
    pub no_voters: Vec<String>,
    pub deposit_amount: u128,
    pub start_block: u64,
    pub posting_start: u64,
    pub voting_start: u64,
    pub voting_end: u64,
    pub concluded: bool,
}

/// The addresses of `list`, as character sequences.
pub open spec fn addr_seq(list: Seq<String>) -> Seq<Seq<char>> {
    list.map_values(|s: String| s@)
}

/// No entry of `a` equals an entry of `b`.
pub open spec fn apart(a: Seq<Seq<char>>, b: Seq<Seq<char>>) -> bool {
    forall|i: int, j: int| 0 <= i < a.len() && 0 <= j < b.len() ==> a[i] != b[j]
}

/// Appending an address found in neither list keeps both lists free of
/// duplicates and apart.
pub proof fn lemma_push_fresh(xs: Seq<Seq<char>>, other: Seq<Seq<char>>, who: Seq<char>)
    requires
        xs.no_duplicates(),
        !xs.contains(who),
        !other.contains(who),
        apart(xs, other),
    ensures
        xs.push(who).no_duplicates(),
        apart(xs.push(who), other),
        apart(other, xs.push(who)),
{
    let ys = xs.push(who);
    assert forall|i: int, j: int| 0 <= i < ys.len() && 0 <= j < ys.len() && i != j implies ys[i]
        != ys[j] by {
        if i < xs.len() && xs[i] == who {
            assert(xs.contains(who));
        }
        if j < xs.len() && xs[j] == who {
            assert(xs.contains(who));
        }
    }
    assert forall|i: int, j: int| 0 <= i < ys.len() && 0 <= j < other.len() implies ys[i]
        != other[j] by {
        if other[j] == who {
            assert(other.contains(who));
        }
    }
}

/// `who` occurs among the addresses of `list`.
pub open spec fn lists_addr(list: Seq<String>, who: Seq<char>) -> bool {
    addr_seq(list).contains(who)
}

impl Proposal {
    pub open spec fn has_voted(&self, who: Seq<char>) -> bool {
        lists_addr(self.yes_voters@, who) || lists_addr(self.no_voters@, who)
    }

    /// The frozen timeline is ordered, and the vote ledger names each voter
    /// at most once, on one side only.
    pub open spec fn ledger_ok(&self) -> bool {
        let ys = addr_seq(self.yes_voters@);
        let ns = addr_seq(self.no_voters@);
        &&& self.posting_start <= self.voting_start <= self.voting_end
        &&& ys.no_duplicates()
        &&& ns.no_duplicates()
        &&& apart(ys, ns)
    }
}

/// The outcome rule: the yes side holds at least `pct` percent of the cast
/// weight, `yes * 100 >= (yes + no) * pct`. With no weight cast the rule reads
/// `0 >= 0` and holds, whatever the percentage: the rule is kept as stated.
pub open spec fn passes(yes: int, no: int, pct: int) -> bool {
    yes * 100 >= (yes + no) * pct
}

/// Status of a proposal at time `now`, judged against its own frozen timeline.
pub open spec fn status_at(p: Proposal, now: int, pct: int) -> ProposalStatus {
    if now <= p.voting_start {
        ProposalStatus::Posted
    } else if now <= p.voting_end {
        ProposalStatus::Voting
    } else if passes(p.coins_yes as int, p.coins_no as int, pct) {
        if p.concluded {
            ProposalStatus::SuccessConcluded
        } else {
            ProposalStatus::Success
        }
    } else if p.concluded {
        ProposalStatus::FailedConcluded
    } else {
        ProposalStatus::Failure
    }
}

/// Whether `who` occurs in `list`.
pub fn contains_addr(list: &Vec<String>, who: &String) -> (r: bool)
    ensures
        r == lists_addr(list@, who@),
{
    let mut i: usize = 0;
    while i < list.len()
        invariant
            i <= list.len(),
            forall|j: int| 0 <= j < i ==> (#[trigger] list@[j])@ != who@,
        decreases list.len() - i,
    {
        if list[i] == *who {
            assert(addr_seq(list@)[i as int] == who@);
            return true;
        }
        i = i + 1;
    }
    assert forall|k: int| 0 <= k < list.len() implies addr_seq(list@)[k] != who@ by {
        assert(list@[k]@ != who@);
    }
    false
}

/// `x * k` as a high and a low limb of base `LIMB`.
fn wide_mul(x: u128, k: u128) -> (r: (u128, u128))
    requires
        k <= 100,
    ensures
        r.1 < LIMB,
        r.0 * LIMB + r.1 == x * k,
{
    let xh: u128 = x / LIMB;
    let xl: u128 = x % LIMB;
    assert(xh * LIMB + xl == x) by (nonlinear_arith)
        requires xh == x / LIMB, xl == x % LIMB, LIMB > 0;
    assert(xh < LIMB) by (nonlinear_arith)
        requires xh == x / LIMB, x < LIMB * LIMB, LIMB == 0x1_0000_0000_0000_0000u128;
    assert(xh * k <= 100 * LIMB) by (nonlinear_arith)
        requires xh < LIMB, k <= 100;
    assert(xl * k <= 100 * LIMB) by (nonlinear_arith)
        requires xl < LIMB, k <= 100;
    let p1: u128 = xh * k;
    let p0: u128 = xl * k;
    let hi: u128 = p1 + p0 / LIMB;
    let lo: u128 = p0 % LIMB;
    assert(hi * LIMB + lo == x * k) by (nonlinear_arith)
        requires
            hi == p1 + p0 / LIMB,
            lo == p0 % LIMB,
            p1 == xh * k,
            p0 == xl * k,
            xh * LIMB + xl == x,
            LIMB > 0;
    (hi, lo)
}

proof fn lemma_limb_order(a1: int, a0: int, b1: int, b0: int)
    requires
        0 <= a0 < LIMB,
        0 <= b0 < LIMB,
    ensures
        (a1 * LIMB + a0 >= b1 * LIMB + b0) == (a1 > b1 || (a1 == b1 && a0 >= b0)),
{
    if a1 > b1 {
        assert(a1 * LIMB + a0 >= b1 * LIMB + b0) by (nonlinear_arith)
            requires a1 > b1, 0 <= a0 < LIMB, 0 <= b0 < LIMB;
    } else if a1 < b1 {
        assert(a1 * LIMB + a0 < b1 * LIMB + b0) by (nonlinear_arith)
            requires a1 < b1, 0 <= a0 < LIMB, 0 <= b0 < LIMB;
    }
}

/// Decides the outcome rule exactly, for every tally and percentage.
pub fn proposal_passes(yes: u128, no: u128, pct: u64) -> (r: bool)
    ensures
        r == passes(yes as int, no as int, pct as int),
{
    if pct >= 100 {
        let r = no == 0 && (pct == 100 || yes == 0);
        assert(r == passes(yes as int, no as int, pct as int)) by (nonlinear_arith)
            requires
                r == (no == 0 && (pct == 100 || yes == 0)),
                pct >= 100,
                yes >= 0,
                no >= 0;
        r
    } else {
        let (a1, a0) = wide_mul(yes, (100 - pct) as u128);
        let (b1, b0) = wide_mul(no, pct as u128);
        proof {
            lemma_limb_order(a1 as int, a0 as int, b1 as int, b0 as int);
            assert(passes(yes as int, no as int, pct as int) == (yes * (100 - pct) >= no * pct))
                by (nonlinear_arith);
        }
        a1 > b1 || (a1 == b1 && a0 >= b0)
    }
}

impl Proposal {
    /// Status at `now` under the required percentage `pct`.
    pub fn status(&self, now: u64, pct: u64) -> (r: ProposalStatus)
        ensures
            r == status_at(*self, now as int, pct as int),
    {
        if now <= self.voting_start {
            ProposalStatus::Posted
        } else if now <= self.voting_end {
            ProposalStatus::Voting
        } else if proposal_passes(self.coins_yes, self.coins_no, pct) {
            if self.concluded {
                ProposalStatus::SuccessConcluded
            } else {
                ProposalStatus::Success
            }
        } else if self.concluded {
            ProposalStatus::FailedConcluded
        } else {
            ProposalStatus::Failure
        }
    }
}

} // verus!
