//! What holds of every ballot box: the tallies stay the sums of the current
//! votes, an operator counts once and with its latest vote, the tallies do
//! not depend on the order of the votes, a vote is refused only for cause,
//! and a result, once recorded, is final.

use vstd::prelude::*;
use crate::ballot_box::{
    counts_for, deposit, tally_keys, tally_voters, tally_weight, vote_keys, voted_count,
    voted_weight, weights_for, withdraw, lemma_deposit_weight, lemma_withdraw_weight,
    BallotBoxState, BallotBoxView, OperatorVote,
};
use crate::config::Config;
use crate::error::{ErrorKind, NcnError};
use crate::pubkey::Pubkey;
use crate::seq_model::{
    distinct, lemma_position, lemma_position_push, lemma_sum_bounds, lemma_sum_push,
    lemma_sum_update, position,
};

verus! {

/// What the current vote of `operator` counts for `value`.
pub open spec fn counted_for(pre: BallotBoxView, operator: Pubkey, value: u8) -> int {
    match pre.vote_of(operator) {
        Some(p) => if p.value == value {
            p.stake_weight as int
        } else {
            0
        },
        None => 0,
    }
}

/// A vote that was cast is the current vote of its operator, and the votes
/// of the other operators are as they were.
pub proof fn lemma_vote_recorded(pre: BallotBoxView, vote: OperatorVote, other: Pubkey)
    ensures
        (BallotBoxView { votes: pre.votes_after(vote), ..pre }).vote_of(vote.operator) == Some(vote),
        other != vote.operator ==> (BallotBoxView { votes: pre.votes_after(vote), ..pre }).vote_of(
            other,
        ) == pre.vote_of(other),
        distinct(vote_keys(pre.votes)) ==> distinct(vote_keys(pre.votes_after(vote))),
        pre.votes_after(vote).len() == pre.votes.len() + if pre.vote_of(vote.operator) is Some {
            0int
        } else {
            1int
        },
{
    let keys = vote_keys(pre.votes);
    let after = pre.votes_after(vote);
    let after_keys = vote_keys(after);
    lemma_position(keys, vote.operator);
    match position(keys, vote.operator) {
        Some(i) => {
            assert(after_keys =~= keys);
        },
        None => {
            assert(after_keys =~= keys.push(vote.operator));
            lemma_position_push(keys, vote.operator, vote.operator);
            lemma_position_push(keys, vote.operator, other);
            lemma_position(keys, other);
        },
    }
}

/// What a cast vote does to the sums over the votes: for every value, what
/// the operator's earlier vote counted for it goes, and what the new vote
/// counts for it comes.
pub proof fn lemma_votes_after_sums(pre: BallotBoxView, vote: OperatorVote, value: u8)
    ensures
        voted_weight(pre.votes_after(vote), value) == voted_weight(pre.votes, value) - counted_for(
            pre,
            vote.operator,
            value,
        ) + if vote.value == value {
            vote.stake_weight as int
        } else {
            0
        },
        voted_count(pre.votes_after(vote), value) == voted_count(pre.votes, value) - (if pre.vote_of(
            vote.operator,
        ) is Some && pre.vote_of(vote.operator)->0.value == value {
            1int
        } else {
            0int
        }) + if vote.value == value {
            1int
        } else {
            0int
        },
{
    let keys = vote_keys(pre.votes);
    let after = pre.votes_after(vote);
    let w: int = if vote.value == value {
        vote.stake_weight as int
    } else {
        0
    };
    let c: int = if vote.value == value {
        1
    } else {
        0
    };
    lemma_position(keys, vote.operator);
    match position(keys, vote.operator) {
        Some(i) => {
            assert(weights_for(after, value) =~= weights_for(pre.votes, value).update(i, w));
            assert(counts_for(after, value) =~= counts_for(pre.votes, value).update(i, c));
            lemma_sum_update(weights_for(pre.votes, value), i, w);
            lemma_sum_update(counts_for(pre.votes, value), i, c);
        },
        None => {
            assert(weights_for(after, value) =~= weights_for(pre.votes, value).push(w));
            assert(counts_for(after, value) =~= counts_for(pre.votes, value).push(c));
            lemma_sum_push(weights_for(pre.votes, value), w);
            lemma_sum_push(counts_for(pre.votes, value), c);
        },
    }
}

/// In a well-formed box the earlier vote of an operator can always be taken
/// back: its value has a tally that holds at least the vote's weight.
pub proof fn lemma_withdraw_succeeds(pre: BallotBoxView, operator: Pubkey)
    requires
        pre.wf(),
        pre.vote_of(operator) is Some,
    ensures
        withdraw(
            pre.tallies,
            pre.vote_of(operator)->0.value,
            pre.vote_of(operator)->0.stake_weight,
        ) is Ok,
{
    let p = pre.vote_of(operator)->0;
    lemma_position(vote_keys(pre.votes), operator);
    let i = position(vote_keys(pre.votes), operator)->0;
    assert(pre.votes[i] == p);
    assert(tally_weight(pre.tallies, p.value) == voted_weight(pre.votes, p.value));
    assert(tally_voters(pre.tallies, p.value) == voted_count(pre.votes, p.value));
    lemma_sum_bounds(weights_for(pre.votes, p.value), i);
    lemma_sum_bounds(counts_for(pre.votes, p.value), i);
    assert(weights_for(pre.votes, p.value)[i] == p.stake_weight);
    assert(counts_for(pre.votes, p.value)[i] == 1);
}

/// What a cast vote does to the tallies: for every value, what the
/// operator's earlier vote counted for it goes, and what the new vote counts
/// for it comes. An operator that votes again is therefore counted once,
/// with its latest vote.
pub proof fn lemma_tallies_after(
    pre: BallotBoxView,
    operator: Pubkey,
    value: u8,
    weight: u128,
    any: u8,
)
    requires
        pre.tallies_after(operator, value, weight) is Ok,
    ensures
        tally_weight(pre.tallies_after(operator, value, weight)->Ok_0, any) == tally_weight(
            pre.tallies,
            any,
        ) - counted_for(pre, operator, any) + if any == value {
            weight as int
        } else {
            0
        },
        tally_voters(pre.tallies_after(operator, value, weight)->Ok_0, any) == tally_voters(
            pre.tallies,
            any,
        ) - (if pre.vote_of(operator) is Some && pre.vote_of(operator)->0.value == any {
            1int
        } else {
            0int
        }) + if any == value {
            1int
        } else {
            0int
        },
        distinct(tally_keys(pre.tallies)) ==> distinct(
            tally_keys(pre.tallies_after(operator, value, weight)->Ok_0),
        ),
{
    let mid = match pre.vote_of(operator) {
        None => pre.tallies,
        Some(p) => {
            lemma_withdraw_weight(pre.tallies, p.value, p.stake_weight);
            withdraw(pre.tallies, p.value, p.stake_weight)->Ok_0
        },
    };
    lemma_deposit_weight(mid, value, weight);
    let post = deposit(mid, value, weight)->Ok_0;
    lemma_position(tally_keys(mid), value);
    match position(tally_keys(mid), value) {
        None => {
            assert(tally_keys(post) =~= tally_keys(mid).push(value));
        },
        Some(i) => {
            assert(tally_keys(post) =~= tally_keys(mid));
        },
    }
}

/// A cast vote keeps a box well formed: the tallies stay the sums of the
/// current votes.
pub proof fn lemma_cast_vote_wf(
    pre: BallotBoxView,
    config: Config,
    operator: Pubkey,
    value: u8,
    stake_weight: u128,
    total_stake_weight: u128,
    current_epoch: u64,
    current_slot: u64,
)
    requires
        pre.wf(),
        pre.cast_vote(
            config,
            operator,
            value,
            stake_weight,
            total_stake_weight,
            current_epoch,
            current_slot,
        ) is Ok,
    ensures
        pre.cast_vote(
            config,
            operator,
            value,
            stake_weight,
            total_stake_weight,
            current_epoch,
            current_slot,
        )->Ok_0.wf(),
{
    let post = pre.cast_vote(
        config,
        operator,
        value,
        stake_weight,
        total_stake_weight,
        current_epoch,
        current_slot,
    )->Ok_0;
    let vote = OperatorVote { operator, value, stake_weight, slot_voted: current_slot };
    lemma_vote_recorded(pre, vote, operator);
    assert forall|any: u8|
        #![trigger tally_weight(post.tallies, any)]
        #![trigger voted_weight(post.votes, any)]
        tally_weight(post.tallies, any) == voted_weight(post.votes, any) && tally_voters(
            post.tallies,
            any,
        ) == voted_count(post.votes, any) by {
        lemma_tallies_after(pre, operator, value, stake_weight, any);
        lemma_votes_after_sums(pre, vote, any);
        assert(tally_weight(pre.tallies, any) == voted_weight(pre.votes, any));
        assert(tally_voters(pre.tallies, any) == voted_count(pre.votes, any));
    }
    lemma_tallies_after(pre, operator, value, stake_weight, value);
}

/// An operator counts once. When an operator votes and then votes again,
/// the tallies are those of the box before its two votes, without what the
/// operator counted then, and with its second vote alone: nothing of the
/// first vote is left.
pub proof fn lemma_second_vote_replaces_first(
    pre: BallotBoxView,
    config: Config,
    operator: Pubkey,
    first_value: u8,
    first_weight: u128,
    second_value: u8,
    second_weight: u128,
    total_stake_weight: u128,
    current_epoch: u64,
    first_slot: u64,
    second_slot: u64,
    any: u8,
)
    requires
        pre.cast_vote(
            config,
            operator,
            first_value,
            first_weight,
            total_stake_weight,
            current_epoch,
            first_slot,
        ) is Ok,
        pre.cast_vote(
            config,
            operator,
            first_value,
            first_weight,
            total_stake_weight,
            current_epoch,
            first_slot,
        )->Ok_0.cast_vote(
            config,
            operator,
            second_value,
            second_weight,
            total_stake_weight,
            current_epoch,
            second_slot,
        ) is Ok,
    ensures
        ({
            let mid = pre.cast_vote(
                config,
                operator,
                first_value,
                first_weight,
                total_stake_weight,
                current_epoch,
                first_slot,
            )->Ok_0;
            let post = mid.cast_vote(
                config,
                operator,
                second_value,
                second_weight,
                total_stake_weight,
                current_epoch,
                second_slot,
            )->Ok_0;
            &&& post.votes.len() == mid.votes.len()
            &&& post.vote_of(operator) == Some(
                OperatorVote {
                    operator,
                    value: second_value,
                    stake_weight: second_weight,
                    slot_voted: second_slot,
                },
            )
            &&& tally_weight(post.tallies, any) == tally_weight(pre.tallies, any) - counted_for(
                pre,
                operator,
                any,
            ) + if any == second_value {
                second_weight as int
            } else {
                0
            }
        }),
{
    let mid = pre.cast_vote(
        config,
        operator,
        first_value,
        first_weight,
        total_stake_weight,
        current_epoch,
        first_slot,
    )->Ok_0;
    let first = OperatorVote {
        operator,
        value: first_value,
        stake_weight: first_weight,
        slot_voted: first_slot,
    };
    let second = OperatorVote {
        operator,
        value: second_value,
        stake_weight: second_weight,
        slot_voted: second_slot,
    };
    lemma_vote_recorded(pre, first, operator);
    assert(mid.vote_of(operator) == Some(first));
    lemma_vote_recorded(mid, second, operator);
    lemma_tallies_after(pre, operator, first_value, first_weight, any);
    lemma_tallies_after(mid, operator, second_value, second_weight, any);
}

/// A step that touches neither votes nor tallies leaves them in agreement.
pub proof fn lemma_same_votes_still_match(before: BallotBoxView, after: BallotBoxView)
    requires
        before.tallies_match_votes(),
        after.tallies == before.tallies,
        after.votes == before.votes,
    ensures
        after.tallies_match_votes(),
{
}

/// An expansion keeps a box well formed.
pub proof fn lemma_realloc_keeps_wf(pre: BallotBoxView)
    requires
        pre.wf(),
    ensures
        pre.realloc().wf(),
{
    lemma_same_votes_still_match(pre, pre.realloc());
}

/// A stall mark keeps a box well formed.
pub proof fn lemma_stall_keeps_wf(
    pre: BallotBoxView,
    config: Config,
    current_epoch: u64,
    current_slot: u64,
)
    requires
        pre.wf(),
        pre.stall(config, current_epoch, current_slot) is Ok,
    ensures
        pre.stall(config, current_epoch, current_slot)->Ok_0.wf(),
{
    lemma_same_votes_still_match(pre, pre.stall(config, current_epoch, current_slot)->Ok_0);
}

/// A tie-break keeps a box well formed.
pub proof fn lemma_tie_break_keeps_wf(
    pre: BallotBoxView,
    config: Config,
    signer: Pubkey,
    value: u8,
    current_epoch: u64,
    current_slot: u64,
)
    requires
        pre.wf(),
        pre.tie_break(config, signer, value, current_epoch, current_slot) is Ok,
    ensures
        pre.tie_break(config, signer, value, current_epoch, current_slot)->Ok_0.wf(),
{
    lemma_same_votes_still_match(
        pre,
        pre.tie_break(config, signer, value, current_epoch, current_slot)->Ok_0,
    );
}

/// A new ballot box is well formed.
pub proof fn lemma_new_box_wf(epoch: u64, opened_epoch: u64)
    ensures
        BallotBoxView::new(epoch, opened_epoch).wf(),
{
    let b = BallotBoxView::new(epoch, opened_epoch);
    assert forall|value: u8|
        #![trigger tally_weight(b.tallies, value)]
        #![trigger voted_weight(b.votes, value)]
        tally_weight(b.tallies, value) == voted_weight(b.votes, value) && tally_voters(
            b.tallies,
            value,
        ) == voted_count(b.votes, value) by {
        lemma_position(tally_keys(b.tallies), value);
        assert(weights_for(b.votes, value) =~= Seq::empty());
        assert(counts_for(b.votes, value) =~= Seq::empty());
    }
}

/// The tallies do not depend on the order in which votes arrive. When two
/// operators vote, and their votes are taken in either order, then behind
/// every value stand the same stake and the same number of operators
/// whichever vote came first, and each operator's vote is the one it cast.
pub proof fn lemma_votes_commute(
    pre: BallotBoxView,
    config: Config,
    total_stake_weight: u128,
    current_epoch: u64,
    one: OperatorVote,
    other: OperatorVote,
    any: u8,
)
    requires
        one.operator != other.operator,
        pre.cast_vote(
            config,
            one.operator,
            one.value,
            one.stake_weight,
            total_stake_weight,
            current_epoch,
            one.slot_voted,
        ) is Ok,
        pre.cast_vote(
            config,
            one.operator,
            one.value,
            one.stake_weight,
            total_stake_weight,
            current_epoch,
            one.slot_voted,
        )->Ok_0.cast_vote(
            config,
            other.operator,
            other.value,
            other.stake_weight,
            total_stake_weight,
            current_epoch,
            other.slot_voted,
        ) is Ok,
        pre.cast_vote(
            config,
            other.operator,
            other.value,
            other.stake_weight,
            total_stake_weight,
            current_epoch,
            other.slot_voted,
        ) is Ok,
        pre.cast_vote(
            config,
            other.operator,
            other.value,
            other.stake_weight,
            total_stake_weight,
            current_epoch,
            other.slot_voted,
        )->Ok_0.cast_vote(
            config,
            one.operator,
            one.value,
            one.stake_weight,
            total_stake_weight,
            current_epoch,
            one.slot_voted,
        ) is Ok,
    ensures
        ({
            let this_way = pre.cast_vote(
                config,
                one.operator,
                one.value,
                one.stake_weight,
                total_stake_weight,
                current_epoch,
                one.slot_voted,
            )->Ok_0.cast_vote(
                config,
                other.operator,
                other.value,
                other.stake_weight,
                total_stake_weight,
                current_epoch,
                other.slot_voted,
            )->Ok_0;
            let that_way = pre.cast_vote(
                config,
                other.operator,
                other.value,
                other.stake_weight,
                total_stake_weight,
                current_epoch,
                other.slot_voted,
            )->Ok_0.cast_vote(
                config,
                one.operator,
                one.value,
                one.stake_weight,
                total_stake_weight,
                current_epoch,
                one.slot_voted,
            )->Ok_0;
            &&& tally_weight(this_way.tallies, any) == tally_weight(that_way.tallies, any)
            &&& tally_voters(this_way.tallies, any) == tally_voters(that_way.tallies, any)
            &&& this_way.vote_of(one.operator) == Some(one)
            &&& that_way.vote_of(one.operator) == Some(one)
            &&& this_way.vote_of(other.operator) == Some(other)
            &&& that_way.vote_of(other.operator) == Some(other)
        }),
{
    let after_one = pre.cast_vote(
        config,
        one.operator,
        one.value,
        one.stake_weight,
        total_stake_weight,
        current_epoch,
        one.slot_voted,
    )->Ok_0;
    let after_other = pre.cast_vote(
        config,
        other.operator,
        other.value,
        other.stake_weight,
        total_stake_weight,
        current_epoch,
        other.slot_voted,
    )->Ok_0;
    lemma_vote_recorded(pre, one, other.operator);
    lemma_vote_recorded(pre, other, one.operator);
    assert(after_one.vote_of(other.operator) == pre.vote_of(other.operator));
    assert(after_other.vote_of(one.operator) == pre.vote_of(one.operator));
    lemma_vote_recorded(after_one, other, one.operator);
    lemma_vote_recorded(after_other, one, other.operator);
    lemma_tallies_after(pre, one.operator, one.value, one.stake_weight, any);
    lemma_tallies_after(pre, other.operator, other.value, other.stake_weight, any);
    lemma_tallies_after(after_one, other.operator, other.value, other.stake_weight, any);
    lemma_tallies_after(after_other, one.operator, one.value, one.stake_weight, any);
}

/// The number of votes that stand for a value is not more than the number
/// of votes.
pub proof fn lemma_count_is_bounded(votes: Seq<OperatorVote>, value: u8)
    ensures
        0 <= voted_count(votes, value) <= votes.len(),
    decreases votes.len(),
{
    if votes.len() > 0 {
        lemma_count_is_bounded(votes.drop_last(), value);
        assert(counts_for(votes, value).drop_last() =~= counts_for(votes.drop_last(), value));
    }
}

/// When a vote is owed its place. In a well-formed box a vote is refused
/// for five reasons and no other: consensus has been reached; the vote has
/// stalled, the tie has been broken, or the stall is due; the operator has
/// no voting weight; the operator has not voted before and the box is full;
/// or the stake behind the value would not fit. On every other input the
/// vote is taken.
pub proof fn lemma_vote_is_refused_only_for_cause(
    pre: BallotBoxView,
    config: Config,
    operator: Pubkey,
    value: u8,
    stake_weight: u128,
    total_stake_weight: u128,
    current_epoch: u64,
    current_slot: u64,
)
    requires
        pre.wf(),
    ensures
        pre.cast_vote(
            config,
            operator,
            value,
            stake_weight,
            total_stake_weight,
            current_epoch,
            current_slot,
        ) == if pre.state == BallotBoxState::ConsensusReached {
            Err::<BallotBoxView, NcnError>(NcnError::ConsensusAlreadyReached)
        } else if pre.state != BallotBoxState::AwaitingVotes || config.spec_stall_due(
            pre.opened_epoch,
            current_epoch,
        ) {
            Err(NcnError::EpochClosed)
        } else if stake_weight == 0 {
            Err(NcnError::UnknownOperator)
        } else if pre.vote_of(operator) is None && (pre.votes.len() >= pre.capacity
            || pre.votes.len() >= crate::capacity::MAX_OPERATORS) {
            Err(NcnError::CapacityExceeded)
        } else if tally_weight(pre.tallies, value) - counted_for(pre, operator, value)
            + stake_weight > u128::MAX {
            Err(NcnError::WeightArithmeticOverflow)
        } else {
            Ok(
                pre.cast_vote(
                    config,
                    operator,
                    value,
                    stake_weight,
                    total_stake_weight,
                    current_epoch,
                    current_slot,
                )->Ok_0,
            )
        },
{
    if pre.accepts_votes(config, current_epoch) is Ok && stake_weight != 0 && !(pre.vote_of(
        operator,
    ) is None && (pre.votes.len() >= pre.capacity || pre.votes.len()
        >= crate::capacity::MAX_OPERATORS)) {
        let mid = match pre.vote_of(operator) {
            None => pre.tallies,
            Some(p) => {
                lemma_withdraw_succeeds(pre, operator);
                lemma_withdraw_weight(pre.tallies, p.value, p.stake_weight);
                withdraw(pre.tallies, p.value, p.stake_weight)->Ok_0
            },
        };
        // What stands behind the value after the earlier vote was taken back.
        assert(tally_weight(mid, value) == tally_weight(pre.tallies, value) - counted_for(
            pre,
            operator,
            value,
        ));
        // The voters of a value are votes, of which there are few.
        let back: int = if pre.vote_of(operator) is Some && pre.vote_of(operator)->0.value == value {
            1
        } else {
            0
        };
        assert(tally_voters(mid, value) == tally_voters(pre.tallies, value) - back);
        assert(tally_voters(pre.tallies, value) == voted_count(pre.votes, value));
        lemma_count_is_bounded(pre.votes, value);
        lemma_position(tally_keys(mid), value);
    }
}

/// A result is final. Once the box has left the state in which it awaits
/// votes, every further vote is refused with a failure of the stage class.
pub proof fn lemma_no_vote_after_result(
    pre: BallotBoxView,
    config: Config,
    operator: Pubkey,
    value: u8,
    stake_weight: u128,
    total_stake_weight: u128,
    current_epoch: u64,
    current_slot: u64,
)
    requires
        pre.state != BallotBoxState::AwaitingVotes,
    ensures
        pre.cast_vote(
            config,
            operator,
            value,
            stake_weight,
            total_stake_weight,
            current_epoch,
            current_slot,
        ) is Err,
        pre.cast_vote(
            config,
            operator,
            value,
            stake_weight,
            total_stake_weight,
            current_epoch,
            current_slot,
        )->Err_0.spec_kind() == ErrorKind::Stage,
        pre.state == BallotBoxState::ConsensusReached ==> pre.cast_vote(
            config,
            operator,
            value,
            stake_weight,
            total_stake_weight,
            current_epoch,
            current_slot,
        ) == Err::<BallotBoxView, NcnError>(NcnError::ConsensusAlreadyReached),
{
}

/// A recorded result cannot be replaced: a box with a result takes neither
/// a stall mark nor a tie-break.
pub proof fn lemma_result_is_permanent(
    pre: BallotBoxView,
    config: Config,
    signer: Pubkey,
    value: u8,
    current_epoch: u64,
    current_slot: u64,
)
    requires
        pre.state == BallotBoxState::ConsensusReached || pre.state
            == BallotBoxState::TieBreakResolved,
    ensures
        pre.stall(config, current_epoch, current_slot) is Err,
        pre.tie_break(config, signer, value, current_epoch, current_slot) is Err,
{
}

} // verus!
