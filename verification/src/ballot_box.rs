//! The ballot box of one epoch: one vote per operator, a running tally per
//! value, the supermajority rule, and the tie-break for a vote that stalled.

use vstd::prelude::*;
use crate::capacity::{grown, spec_grown, INITIAL_CAPACITY, MAX_OPERATORS};
use crate::ballot_laws::{lemma_cast_vote_wf, lemma_new_box_wf, lemma_realloc_keeps_wf};
use crate::config::Config;
use crate::epoch_state::Outcome;
use crate::error::NcnError;
use crate::pubkey::Pubkey;
use crate::seq_model::{
    absent, distinct, is_first, lemma_position, lemma_position_is, lemma_position_none,
    lemma_position_push, position, sum,
};

verus! {

/// The vote that an operator has cast, with the weight it was counted with.
#[derive(Clone, Copy, Debug, PartialEq, Eq, Structural)]
pub struct OperatorVote {
    pub operator: Pubkey,
    pub value: u8,
    pub stake_weight: u128,
    pub slot_voted: u64,
}

/// The stake and the number of operators that stand behind one value.
#[derive(Clone, Copy, Debug, PartialEq, Eq, Structural)]
pub struct BallotTally {
    pub value: u8,
    pub stake_weight: u128,
    pub voters: u64,
}

/// Where the vote of an epoch stands.
#[derive(Clone, Copy, Debug, PartialEq, Eq, Structural)]
pub enum BallotBoxState {
    /// Votes are taken.
    AwaitingVotes,
    /// A value has reached the supermajority.
    ConsensusReached,
    /// No value did in time; the tie-breaker is awaited.
    Stalled,
    /// The tie-breaker has chosen.
    TieBreakResolved,
}

/// The ballot box of one epoch.
#[derive(Clone, Debug)]
pub struct BallotBox {
    pub epoch: u64,
    /// The epoch in which voting opened.
    pub opened_epoch: u64,
    /// How many operators' votes fit.
    pub capacity: usize,
    /// The current vote of each operator that has voted, in the order of
    /// their first votes.
    pub votes: Vec<OperatorVote>,
    /// One tally for each value that was ever voted for, in the order of
    /// their first votes.
    pub tallies: Vec<BallotTally>,
    pub state: BallotBoxState,
    /// The result, once there is one.
    pub winner: Option<Outcome>,
    /// The slot at which the vote was marked as stalled.
    pub stalled_slot: u64,
}

/// The ballot box as a mathematical value.
pub ghost struct BallotBoxView {
    pub epoch: u64,
    pub opened_epoch: u64,
    pub capacity: usize,
    pub votes: Seq<OperatorVote>,
    pub tallies: Seq<BallotTally>,
    pub state: BallotBoxState,
    pub winner: Option<Outcome>,
    pub stalled_slot: u64,
}

/// Whether `weight` is a supermajority of `total`: strictly more than two
/// thirds of it.
pub open spec fn is_supermajority(weight: u128, total: u128) -> bool {
    3 * weight > 2 * total
}

/// The least weight that is a supermajority of `total`.
pub open spec fn spec_supermajority_threshold(total: u128) -> u128 {
    (2 * total / 3 + 1) as u128
}

/// The least weight that is a supermajority of `total`: a weight is a
/// supermajority exactly if it is not below this threshold.
#[verifier::when_used_as_spec(spec_supermajority_threshold)]
pub fn supermajority_threshold(total: u128) -> (r: u128)
    ensures
        r == spec_supermajority_threshold(total),
        r == 2 * total / 3 + 1,
        forall|w: u128| #[trigger] is_supermajority(w, total) <==> w >= r,
{
    let q = total / 3;
    let rem = total % 3;
    q * 2 + (rem * 2) / 3 + 1
}

/// The values that have a tally, in order.
pub open spec fn tally_keys(tallies: Seq<BallotTally>) -> Seq<u8> {
    Seq::new(tallies.len(), |i: int| tallies[i].value)
}

/// The stake that the tallies hold for `value`: none where it has no tally.
pub open spec fn tally_weight(tallies: Seq<BallotTally>, value: u8) -> u128 {
    match position(tally_keys(tallies), value) {
        Some(i) => tallies[i].stake_weight,
        None => 0,
    }
}

/// The number of operators that the tallies hold for `value`.
pub open spec fn tally_voters(tallies: Seq<BallotTally>, value: u8) -> u64 {
    match position(tally_keys(tallies), value) {
        Some(i) => tallies[i].voters,
        None => 0,
    }
}

/// The tallies after one operator's `weight` was taken back from `value`.
/// It fails where the tallies do not hold that much for the value.
pub open spec fn withdraw(tallies: Seq<BallotTally>, value: u8, weight: u128) -> Result<
    Seq<BallotTally>,
    NcnError,
> {
    match position(tally_keys(tallies), value) {
        None => Err(NcnError::WeightArithmeticOverflow),
        Some(i) => if tallies[i].stake_weight < weight || tallies[i].voters == 0 {
            Err(NcnError::WeightArithmeticOverflow)
        } else {
            Ok(
                tallies.update(
                    i,
                    BallotTally {
                        value,
                        stake_weight: (tallies[i].stake_weight - weight) as u128,
                        voters: (tallies[i].voters - 1) as u64,
                    },
                ),
            )
        },
    }
}

/// The tallies after one operator's `weight` was put behind `value`: added
/// to the value's tally, which is made if the value is new. It fails where
/// the sum does not fit.
pub open spec fn deposit(tallies: Seq<BallotTally>, value: u8, weight: u128) -> Result<
    Seq<BallotTally>,
    NcnError,
> {
    match position(tally_keys(tallies), value) {
        None => Ok(tallies.push(BallotTally { value, stake_weight: weight, voters: 1 })),
        Some(i) => if tallies[i].stake_weight + weight > u128::MAX || tallies[i].voters
            >= u64::MAX {
            Err(NcnError::WeightArithmeticOverflow)
        } else {
            Ok(
                tallies.update(
                    i,
                    BallotTally {
                        value,
                        stake_weight: (tallies[i].stake_weight + weight) as u128,
                        voters: (tallies[i].voters + 1) as u64,
                    },
                ),
            )
        },
    }
}

/// The operators that have voted, in order.
pub open spec fn vote_keys(votes: Seq<OperatorVote>) -> Seq<Pubkey> {
    Seq::new(votes.len(), |i: int| votes[i].operator)
}

/// The weight of each vote.
pub open spec fn vote_weights(votes: Seq<OperatorVote>) -> Seq<int> {
    Seq::new(votes.len(), |i: int| votes[i].stake_weight as int)
}

/// For each vote, the weight with which it counts for `value`.
pub open spec fn weights_for(votes: Seq<OperatorVote>, value: u8) -> Seq<int> {
    Seq::new(
        votes.len(),
        |i: int|
            if votes[i].value == value {
                votes[i].stake_weight as int
            } else {
                0
            },
    )
}

/// For each vote, whether it counts for `value`, as one or nought.
pub open spec fn counts_for(votes: Seq<OperatorVote>, value: u8) -> Seq<int> {
    Seq::new(
        votes.len(),
        |i: int|
            if votes[i].value == value {
                1
            } else {
                0
            },
    )
}

/// The stake of the votes that stand for `value`.
pub open spec fn voted_weight(votes: Seq<OperatorVote>, value: u8) -> int {
    sum(weights_for(votes, value))
}

/// The number of the votes that stand for `value`.
pub open spec fn voted_count(votes: Seq<OperatorVote>, value: u8) -> int {
    sum(counts_for(votes, value))
}

impl BallotBoxView {
    /// The box in which voting opens in `opened_epoch`.
    pub open spec fn new(epoch: u64, opened_epoch: u64) -> BallotBoxView {
        BallotBoxView {
            epoch,
            opened_epoch,
            capacity: INITIAL_CAPACITY,
            votes: Seq::empty(),
            tallies: Seq::empty(),
            state: BallotBoxState::AwaitingVotes,
            winner: None,
            stalled_slot: 0,
        }
    }

    /// The tallies agree with the votes: behind every value stand the stake
    /// and the number of exactly those operators whose current vote is for it.
    pub open spec fn tallies_match_votes(self) -> bool {
        forall|value: u8|
            #![trigger tally_weight(self.tallies, value)]
            #![trigger voted_weight(self.votes, value)]
            tally_weight(self.tallies, value) == voted_weight(self.votes, value) && tally_voters(
                self.tallies,
                value,
            ) == voted_count(self.votes, value)
    }

    /// No operator has two votes, no value two tallies, the tallies agree
    /// with the votes, the votes fit, and there is a result exactly where the
    /// state says so.
    pub open spec fn wf(self) -> bool {
        &&& distinct(vote_keys(self.votes))
        &&& distinct(tally_keys(self.tallies))
        &&& self.tallies_match_votes()
        &&& self.votes.len() <= self.capacity
        &&& self.votes.len() <= MAX_OPERATORS
        &&& self.winner is Some <==> (self.state == BallotBoxState::ConsensusReached || self.state
            == BallotBoxState::TieBreakResolved)
        &&& self.winner is Some ==> (self.winner->0.tie_break <==> self.state
            == BallotBoxState::TieBreakResolved)
    }

    /// The box after one expansion.
    pub open spec fn realloc(self) -> BallotBoxView {
        BallotBoxView { capacity: spec_grown(self.capacity, MAX_OPERATORS), ..self }
    }

    /// The current vote of `operator`, if it has voted.
    pub open spec fn vote_of(self, operator: Pubkey) -> Option<OperatorVote> {
        match position(vote_keys(self.votes), operator) {
            Some(i) => Some(self.votes[i]),
            None => None,
        }
    }

    /// Nothing, if the box takes votes in `current_epoch`; else the reason
    /// for which it does not.
    pub open spec fn accepts_votes(self, config: Config, current_epoch: u64) -> Result<
        (),
        NcnError,
    > {
        match self.state {
            BallotBoxState::ConsensusReached => Err(NcnError::ConsensusAlreadyReached),
            BallotBoxState::Stalled | BallotBoxState::TieBreakResolved => Err(
                NcnError::EpochClosed,
            ),
            BallotBoxState::AwaitingVotes => if config.spec_stall_due(
                self.opened_epoch,
                current_epoch,
            ) {
                Err(NcnError::EpochClosed)
            } else {
                Ok(())
            },
        }
    }

    /// The tallies after `operator` voted for `value` with `weight`: what
    /// its earlier vote counted is taken back first.
    pub open spec fn tallies_after(self, operator: Pubkey, value: u8, weight: u128) -> Result<
        Seq<BallotTally>,
        NcnError,
    > {
        match self.vote_of(operator) {
            None => deposit(self.tallies, value, weight),
            Some(p) => match withdraw(self.tallies, p.value, p.stake_weight) {
                Err(e) => Err(e),
                Ok(t) => deposit(t, value, weight),
            },
        }
    }

    /// The votes after `vote` was cast: it takes the place of its operator's
    /// earlier vote, or is appended.
    pub open spec fn votes_after(self, vote: OperatorVote) -> Seq<OperatorVote> {
        match position(vote_keys(self.votes), vote.operator) {
            Some(i) => self.votes.update(i, vote),
            None => self.votes.push(vote),
        }
    }

    /// The box after `operator`, whose voting weight is `stake_weight`, voted
    /// for `value` in an epoch whose total voting weight is
    /// `total_stake_weight`; or the reason for which the vote is refused.
    pub open spec fn cast_vote(
        self,
        config: Config,
        operator: Pubkey,
        value: u8,
        stake_weight: u128,
        total_stake_weight: u128,
        current_epoch: u64,
        current_slot: u64,
    ) -> Result<BallotBoxView, NcnError> {
        if self.accepts_votes(config, current_epoch) is Err {
            Err(self.accepts_votes(config, current_epoch)->Err_0)
        } else if stake_weight == 0 {
            Err(NcnError::UnknownOperator)
        } else if self.vote_of(operator) is None && (self.votes.len() >= self.capacity
            || self.votes.len() >= MAX_OPERATORS) {
            Err(NcnError::CapacityExceeded)
        } else {
            match self.tallies_after(operator, value, stake_weight) {
                Err(e) => Err(e),
                Ok(tallies) => {
                    let votes = self.votes_after(
                        OperatorVote { operator, value, stake_weight, slot_voted: current_slot },
                    );
                    let behind = tally_weight(tallies, value);
                    if is_supermajority(behind, total_stake_weight) {
                        Ok(
                            BallotBoxView {
                                votes,
                                tallies,
                                state: BallotBoxState::ConsensusReached,
                                winner: Some(
                                    Outcome {
                                        value,
                                        stake_weight: behind,
                                        tie_break: false,
                                        slot: current_slot,
                                        recorded_epoch: current_epoch,
                                    },
                                ),
                                ..self
                            },
                        )
                    } else {
                        Ok(BallotBoxView { votes, tallies, ..self })
                    }
                },
            }
        }
    }

    /// The box after it was marked as stalled at `current_slot`, or the
    /// reason for which it cannot be. A stalled box stays as it is.
    pub open spec fn stall(self, config: Config, current_epoch: u64, current_slot: u64) -> Result<
        BallotBoxView,
        NcnError,
    > {
        match self.state {
            BallotBoxState::ConsensusReached => Err(NcnError::ConsensusAlreadyReached),
            BallotBoxState::TieBreakResolved => Err(NcnError::EpochClosed),
            BallotBoxState::Stalled => Ok(self),
            BallotBoxState::AwaitingVotes => if config.spec_stall_due(
                self.opened_epoch,
                current_epoch,
            ) {
                Ok(
                    BallotBoxView {
                        state: BallotBoxState::Stalled,
                        stalled_slot: current_slot,
                        ..self
                    },
                )
            } else {
                Err(NcnError::NotReady)
            },
        }
    }

    /// The box after `signer` broke the tie in favour of `value`, or the
    /// reason for which that is refused.
    pub open spec fn tie_break(
        self,
        config: Config,
        signer: Pubkey,
        value: u8,
        current_epoch: u64,
        current_slot: u64,
    ) -> Result<BallotBoxView, NcnError> {
        if signer != config.tie_breaker_admin {
            Err(NcnError::Unauthorized)
        } else {
            match self.stall(config, current_epoch, current_slot) {
                Err(NcnError::NotReady) => Err(NcnError::InvalidStageTransition),
                Err(e) => Err(e),
                Ok(stalled) => if !config.spec_tie_break_open(stalled.stalled_slot, current_slot) {
                    Err(NcnError::EpochClosed)
                } else {
                    Ok(
                        BallotBoxView {
                            state: BallotBoxState::TieBreakResolved,
                            winner: Some(
                                Outcome {
                                    value,
                                    stake_weight: tally_weight(self.tallies, value),
                                    tie_break: true,
                                    slot: current_slot,
                                    recorded_epoch: current_epoch,
                                },
                            ),
                            ..stalled
                        },
                    )
                },
            }
        }
    }
}

impl View for BallotBox {
    type V = BallotBoxView;

    open spec fn view(&self) -> BallotBoxView {
        BallotBoxView {
            epoch: self.epoch,
            opened_epoch: self.opened_epoch,
            capacity: self.capacity,
            votes: self.votes@,
            tallies: self.tallies@,
            state: self.state,
            winner: self.winner,
            stalled_slot: self.stalled_slot,
        }
    }
}

/// The place of the tally of `value`.
pub fn find_tally(tallies: &Vec<BallotTally>, value: u8) -> (r: Option<usize>)
    ensures
        match r {
            Some(i) => position(tally_keys(tallies@), value) == Some(i as int),
            None => position(tally_keys(tallies@), value) is None,
        },
{
    let ghost keys = tally_keys(tallies@);
    let mut i: usize = 0;
    while i < tallies.len()
        invariant
            i <= tallies.len(),
            keys == tally_keys(tallies@),
            forall|j: int| 0 <= j < i ==> keys[j] != value,
        decreases tallies.len() - i,
    {
        if tallies[i].value == value {
            proof {
                assert(is_first(keys, value, i as int));
                lemma_position_is(keys, value, i as int);
            }
            return Some(i);
        }
        i += 1;
    }
    proof {
        assert(absent(keys, value));
        lemma_position_none(keys, value);
    }
    None
}

/// A copy of the tallies.
fn copy_tallies(tallies: &Vec<BallotTally>) -> (r: Vec<BallotTally>)
    ensures
        r@ == tallies@,
{
    let mut r: Vec<BallotTally> = Vec::new();
    let mut i: usize = 0;
    while i < tallies.len()
        invariant
            i <= tallies.len(),
            r@ == tallies@.subrange(0, i as int),
        decreases tallies.len() - i,
    {
        r.push(tallies[i]);
        assert(r@ =~= tallies@.subrange(0, i + 1));
        i += 1;
    }
    assert(r@ =~= tallies@);
    r
}

/// Takes one operator's `weight` back from the tally of `value`.
fn withdraw_from(tallies: &mut Vec<BallotTally>, value: u8, weight: u128) -> (r: Result<
    (),
    NcnError,
>)
    ensures
        match withdraw(old(tallies)@, value, weight) {
            Ok(post) => r is Ok && final(tallies)@ == post,
            Err(e) => r == Err::<(), NcnError>(e) && final(tallies)@ == old(tallies)@,
        },
{
    match find_tally(tallies, value) {
        None => Err(NcnError::WeightArithmeticOverflow),
        Some(i) => {
            let t = tallies[i];
            if t.stake_weight < weight || t.voters == 0 {
                return Err(NcnError::WeightArithmeticOverflow);
            }
            tallies[i] = BallotTally {
                value,
                stake_weight: t.stake_weight - weight,
                voters: t.voters - 1,
            };
            Ok(())
        },
    }
}

/// Puts one operator's `weight` behind `value`, and gives the stake that
/// then stands behind it.
fn deposit_into(tallies: &mut Vec<BallotTally>, value: u8, weight: u128) -> (r: Result<
    u128,
    NcnError,
>)
    ensures
        match deposit(old(tallies)@, value, weight) {
            Ok(post) => r is Ok && final(tallies)@ == post && r->Ok_0 == tally_weight(post, value),
            Err(e) => r == Err::<u128, NcnError>(e) && final(tallies)@ == old(tallies)@,
        },
{
    match find_tally(tallies, value) {
        None => {
            tallies.push(BallotTally { value, stake_weight: weight, voters: 1 });
            proof {
                lemma_deposit_weight(old(tallies)@, value, weight);
            }
            Ok(weight)
        },
        Some(i) => {
            let t = tallies[i];
            if t.voters >= u64::MAX {
                return Err(NcnError::WeightArithmeticOverflow);
            }
            match t.stake_weight.checked_add(weight) {
                None => Err(NcnError::WeightArithmeticOverflow),
                Some(behind) => {
                    tallies[i] = BallotTally { value, stake_weight: behind, voters: t.voters + 1 };
                    proof {
                        lemma_deposit_weight(old(tallies)@, value, weight);
                    }
                    Ok(behind)
                },
            }
        },
    }
}

/// What a deposit does to the weight of each value: it adds `weight` to the
/// weight of `value` and leaves every other value's weight as it was.
pub proof fn lemma_deposit_weight(tallies: Seq<BallotTally>, value: u8, weight: u128)
    requires
        deposit(tallies, value, weight) is Ok,
    ensures
        tally_weight(deposit(tallies, value, weight)->Ok_0, value) == tally_weight(tallies, value)
            + weight,
        tally_voters(deposit(tallies, value, weight)->Ok_0, value) == tally_voters(tallies, value)
            + 1,
        forall|other: u8|
            other != value ==> tally_weight(deposit(tallies, value, weight)->Ok_0, other)
                == #[trigger] tally_weight(tallies, other),
        forall|other: u8|
            other != value ==> tally_voters(deposit(tallies, value, weight)->Ok_0, other)
                == #[trigger] tally_voters(tallies, other),
{
    let post = deposit(tallies, value, weight)->Ok_0;
    let keys = tally_keys(tallies);
    let post_keys = tally_keys(post);
    lemma_position(keys, value);
    match position(keys, value) {
        None => {
            assert(post_keys =~= keys.push(value));
            assert forall|other: u8| position(post_keys, other) == if position(keys, other) is Some {
                position(keys, other)
            } else if other == value {
                Some(keys.len() as int)
            } else {
                None
            } by {
                lemma_position_push(keys, value, other);
            }
        },
        Some(i) => {
            assert(post_keys =~= keys);
        },
    }
}

/// What a withdrawal does to the weight of each value: it takes `weight`
/// from the weight of `value` and leaves every other value's weight as it
/// was.
pub proof fn lemma_withdraw_weight(tallies: Seq<BallotTally>, value: u8, weight: u128)
    requires
        withdraw(tallies, value, weight) is Ok,
    ensures
        tally_weight(withdraw(tallies, value, weight)->Ok_0, value) == tally_weight(tallies, value)
            - weight,
        tally_voters(withdraw(tallies, value, weight)->Ok_0, value) == tally_voters(tallies, value)
            - 1,
        forall|other: u8|
            other != value ==> tally_weight(withdraw(tallies, value, weight)->Ok_0, other)
                == #[trigger] tally_weight(tallies, other),
        forall|other: u8|
            other != value ==> tally_voters(withdraw(tallies, value, weight)->Ok_0, other)
                == #[trigger] tally_voters(tallies, other),
        tally_keys(withdraw(tallies, value, weight)->Ok_0) == tally_keys(tallies),
{
    let post = withdraw(tallies, value, weight)->Ok_0;
    lemma_position(tally_keys(tallies), value);
    assert(tally_keys(post) =~= tally_keys(tallies));
}

impl BallotBox {
    /// The box in which voting opens in `opened_epoch`: no votes, no result.
    pub fn new(epoch: u64, opened_epoch: u64) -> (r: BallotBox)
        ensures
            r@ == BallotBoxView::new(epoch, opened_epoch),
            r@.wf(),
    {
        let r = BallotBox {
            epoch,
            opened_epoch,
            capacity: INITIAL_CAPACITY,
            votes: Vec::new(),
            tallies: Vec::new(),
            state: BallotBoxState::AwaitingVotes,
            winner: None,
            stalled_slot: 0,
        };
        assert(r@.votes =~= Seq::empty());
        assert(r@.tallies =~= Seq::empty());
        proof {
            lemma_new_box_wf(epoch, opened_epoch);
        }
        r
    }

    /// Lets the box hold the votes of a step more operators, up to the most
    /// it can ever hold. Votes, tallies and result are not touched.
    pub fn realloc(&mut self)
        ensures
            final(self)@ == old(self)@.realloc(),
            old(self)@.wf() ==> final(self)@.wf(),
    {
        self.capacity = grown(self.capacity, MAX_OPERATORS);
        proof {
            if old(self)@.wf() {
                lemma_realloc_keeps_wf(old(self)@);
            }
        }
    }

    /// The place of the vote of `operator`.
    pub fn find_vote(&self, operator: Pubkey) -> (r: Option<usize>)
        ensures
            match r {
                Some(i) => position(vote_keys(self@.votes), operator) == Some(i as int),
                None => position(vote_keys(self@.votes), operator) is None,
            },
    {
        let ghost keys = vote_keys(self@.votes);
        let mut i: usize = 0;
        while i < self.votes.len()
            invariant
                i <= self.votes.len(),
                keys == vote_keys(self@.votes),
                forall|j: int| 0 <= j < i ==> keys[j] != operator,
            decreases self.votes.len() - i,
        {
            if self.votes[i].operator == operator {
                proof {
                    assert(is_first(keys, operator, i as int));
                    lemma_position_is(keys, operator, i as int);
                }
                return Some(i);
            }
            i += 1;
        }
        proof {
            assert(absent(keys, operator));
            lemma_position_none(keys, operator);
        }
        None
    }

    /// The current vote of `operator`, if it has voted.
    pub fn vote_of(&self, operator: Pubkey) -> (r: Option<OperatorVote>)
        ensures
            r == self@.vote_of(operator),
    {
        match self.find_vote(operator) {
            Some(i) => Some(self.votes[i]),
            None => None,
        }
    }

    /// The stake that stands behind `value`.
    pub fn tally_weight(&self, value: u8) -> (w: u128)
        ensures
            w == tally_weight(self@.tallies, value),
    {
        match find_tally(&self.tallies, value) {
            Some(i) => self.tallies[i].stake_weight,
            None => 0,
        }
    }

    /// The number of operators whose vote stands for `value`.
    pub fn tally_voters(&self, value: u8) -> (n: u64)
        ensures
            n == tally_voters(self@.tallies, value),
    {
        match find_tally(&self.tallies, value) {
            Some(i) => self.tallies[i].voters,
            None => 0,
        }
    }

    /// Checks that the box takes votes in `current_epoch`.
    pub fn accepts_votes(&self, config: &Config, current_epoch: u64) -> (r: Result<(), NcnError>)
        ensures
            r == self@.accepts_votes(*config, current_epoch),
    {
        match self.state {
            BallotBoxState::ConsensusReached => Err(NcnError::ConsensusAlreadyReached),
            BallotBoxState::Stalled | BallotBoxState::TieBreakResolved => Err(
                NcnError::EpochClosed,
            ),
            BallotBoxState::AwaitingVotes => if config.stall_due(self.opened_epoch, current_epoch) {
                Err(NcnError::EpochClosed)
            } else {
                Ok(())
            },
        }
    }

    /// Casts the vote of `operator`, whose voting weight is `stake_weight`,
    /// for `value`. What the operator's earlier vote counted is taken back,
    /// so that an operator counts once. If the stake behind `value` then is
    /// a supermajority of `total_stake_weight`, the value becomes the result.
    pub fn cast_vote(
        &mut self,
        config: &Config,
        operator: Pubkey,
        value: u8,
        stake_weight: u128,
        total_stake_weight: u128,
        current_epoch: u64,
        current_slot: u64,
    ) -> (r: Result<(), NcnError>)
        ensures
            match old(self)@.cast_vote(
                *config,
                operator,
                value,
                stake_weight,
                total_stake_weight,
                current_epoch,
                current_slot,
            ) {
                Ok(post) => r is Ok && final(self)@ == post,
                Err(e) => r == Err::<(), NcnError>(e) && *final(self) == *old(self),
            },
            old(self)@.wf() ==> final(self)@.wf(),
    {
        proof {
            if old(self)@.wf() && old(self)@.cast_vote(
                *config,
                operator,
                value,
                stake_weight,
                total_stake_weight,
                current_epoch,
                current_slot,
            ) is Ok {
                lemma_cast_vote_wf(
                    old(self)@,
                    *config,
                    operator,
                    value,
                    stake_weight,
                    total_stake_weight,
                    current_epoch,
                    current_slot,
                );
            }
        }
        match self.accepts_votes(config, current_epoch) {
            Err(e) => {
                return Err(e);
            },
            Ok(()) => {},
        }
        if stake_weight == 0 {
            return Err(NcnError::UnknownOperator);
        }
        let found = self.find_vote(operator);
        if found.is_none() && (self.votes.len() >= self.capacity || self.votes.len()
            >= MAX_OPERATORS) {
            return Err(NcnError::CapacityExceeded);
        }
        let mut tallies = copy_tallies(&self.tallies);
        if let Some(i) = found {
            let earlier = self.votes[i];
            match withdraw_from(&mut tallies, earlier.value, earlier.stake_weight) {
                Err(e) => {
                    return Err(e);
                },
                Ok(()) => {},
            }
        }
        let behind = match deposit_into(&mut tallies, value, stake_weight) {
            Err(e) => {
                return Err(e);
            },
            Ok(behind) => behind,
        };
        let vote = OperatorVote { operator, value, stake_weight, slot_voted: current_slot };
        match found {
            Some(i) => {
                self.votes[i] = vote;
            },
            None => {
                self.votes.push(vote);
            },
        }
        self.tallies = tallies;
        if behind >= supermajority_threshold(total_stake_weight) {
            assert(is_supermajority(behind, total_stake_weight));
            self.state = BallotBoxState::ConsensusReached;
            self.winner = Some(
                Outcome {
                    value,
                    stake_weight: behind,
                    tie_break: false,
                    slot: current_slot,
                    recorded_epoch: current_epoch,
                },
            );
        } else {
            assert(!is_supermajority(behind, total_stake_weight));
        }
        Ok(())
    }

    /// Marks the vote as stalled, once the epochs that the configuration
    /// allows have passed without a result. A box that is stalled already
    /// stays as it is, and the call succeeds.
    pub fn stall(&mut self, config: &Config, current_epoch: u64, current_slot: u64) -> (r: Result<
        (),
        NcnError,
    >)
        ensures
            match old(self)@.stall(*config, current_epoch, current_slot) {
                Ok(post) => r is Ok && final(self)@ == post,
                Err(e) => r == Err::<(), NcnError>(e) && *final(self) == *old(self),
            },
            old(self)@.wf() ==> final(self)@.wf(),
    {
        match self.state {
            BallotBoxState::ConsensusReached => Err(NcnError::ConsensusAlreadyReached),
            BallotBoxState::TieBreakResolved => Err(NcnError::EpochClosed),
            BallotBoxState::Stalled => Ok(()),
            BallotBoxState::AwaitingVotes => {
                if config.stall_due(self.opened_epoch, current_epoch) {
                    self.state = BallotBoxState::Stalled;
                    self.stalled_slot = current_slot;
                    Ok(())
                } else {
                    Err(NcnError::NotReady)
                }
            },
        }
    }

    /// Breaks the tie of a stalled vote: the tie-breaker's `value` becomes
    /// the result. A vote whose time has run out without having been marked
    /// is marked as stalled first, at `current_slot`.
    pub fn tie_break(
        &mut self,
        config: &Config,
        signer: Pubkey,
        value: u8,
        current_epoch: u64,
        current_slot: u64,
    ) -> (r: Result<(), NcnError>)
        ensures
            match old(self)@.tie_break(*config, signer, value, current_epoch, current_slot) {
                Ok(post) => r is Ok && final(self)@ == post,
                Err(e) => r == Err::<(), NcnError>(e) && *final(self) == *old(self),
            },
            old(self)@.wf() ==> final(self)@.wf(),
    {
        if signer != config.tie_breaker_admin {
            return Err(NcnError::Unauthorized);
        }
        let stalled_slot = match self.state {
            BallotBoxState::ConsensusReached => {
                return Err(NcnError::ConsensusAlreadyReached);
            },
            BallotBoxState::TieBreakResolved => {
                return Err(NcnError::EpochClosed);
            },
            BallotBoxState::Stalled => self.stalled_slot,
            BallotBoxState::AwaitingVotes => {
                if !config.stall_due(self.opened_epoch, current_epoch) {
                    return Err(NcnError::InvalidStageTransition);
                }
                current_slot
            },
        };
        if !config.tie_break_open(stalled_slot, current_slot) {
            return Err(NcnError::EpochClosed);
        }
        let behind = self.tally_weight(value);
        self.state = BallotBoxState::TieBreakResolved;
        self.stalled_slot = stalled_slot;
        self.winner = Some(
            Outcome {
                value,
                stake_weight: behind,
                tie_break: true,
                slot: current_slot,
                recorded_epoch: current_epoch,
            },
        );
        Ok(())
    }
}

} // verus!
