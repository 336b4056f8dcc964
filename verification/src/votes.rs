use vstd::prelude::*;

use crate::chain::Endpoint;
use crate::chain::eval_chain;
use crate::chain::gates_for;
use crate::chain::spec_eval_chain;
use crate::chain::spec_gates_for;
use crate::errors::Error;
use crate::errors::StoreError;
use crate::errors::spec_store_failure;
use crate::errors::store_failure;
use crate::gates::GateContext;
use crate::models::Board;
use crate::models::Vote;

verus! {

/// The tally state for one (card, participant) pair: no record yet, or
/// exactly one record. A record is never deleted, only re-counted.
#[derive(Debug, Clone, PartialEq)]
pub enum VoteState {
    Absent,
    Present(Vote),
}

/// What a cast decides: keep the stored record as it is, or write it
/// back with a new count.
#[derive(Debug, Clone, PartialEq)]
pub enum TallyAction {
    Keep(Vote),
    Update(Vote),
}

impl TallyAction {
    /// The record the action leaves in the store.
    pub open spec fn vote(self) -> Vote {
        match self {
            TallyAction::Keep(v) => v,
            TallyAction::Update(v) => v,
        }
    }
}

/// A cast lifts the count by one, except that a count at or over the
/// budget stays exactly as it is: a budget lowered after votes were
/// cast preserves them, it never clamps them down.
pub open spec fn spec_clamped_increment(count: int, max_votes: int) -> int {
    if count >= max_votes {
        count
    } else {
        count + 1
    }
}

/// A removal lowers the count by one but never below zero.
pub open spec fn spec_floor_decrement(count: int) -> int {
    if count <= 0 {
        0
    } else {
        count - 1
    }
}

/// What a cast decides for a record: keep it untouched at or over the
/// budget, otherwise write it back incremented.
pub open spec fn spec_cast(max_votes: int, vote: Vote) -> TallyAction {
    if vote.count >= max_votes {
        TallyAction::Keep(vote)
    } else {
        TallyAction::Update(Vote { count: (vote.count + 1) as i32, ..vote })
    }
}

/// The record a removal writes back: the floored decrement, under the
/// same (card, participant) key.
pub open spec fn spec_remove(vote: Vote) -> Vote {
    Vote { count: spec_floor_decrement(vote.count as int) as i32, ..vote }
}

/// First half of a cast: take the pair's record, or make the zero
/// record for the pair. An existing record comes back unchanged — the
/// step never makes a second record for a pair that has one.
pub fn get_or_create(state: VoteState, card_id: &String, participant_id: &String) -> (v: Vote)
    ensures
        (state matches VoteState::Present(v0) ==> v == v0),
        (state is Absent ==> v.card_id@ == card_id@ && v.participant_id@ == participant_id@
            && v.count == 0),
{
    match state {
        VoteState::Present(v0) => v0,
        VoteState::Absent => Vote {
            card_id: card_id.clone(),
            participant_id: participant_id.clone(),
            count: 0,
        },
    }
}

/// Second half of a cast: the clamped increment of the record's count
/// against the board's budget.
pub fn apply_cast(board: &Board, vote: Vote) -> (r: TallyAction)
    ensures
        r == spec_cast(board.max_votes as int, vote),
{
    if vote.count >= board.max_votes {
        TallyAction::Keep(vote)
    } else {
        let count = vote.count + 1;
        TallyAction::Update(
            Vote { card_id: vote.card_id, participant_id: vote.participant_id, count },
        )
    }
}

/// A removal: the record written back keeps its key and loses one from
/// its count, stopping at zero.
pub fn apply_remove(vote: Vote) -> (r: Vote)
    ensures
        r == spec_remove(vote),
{
    if vote.count <= 0 {
        Vote { card_id: vote.card_id, participant_id: vote.participant_id, count: 0 }
    } else {
        let count = vote.count - 1;
        Vote { card_id: vote.card_id, participant_id: vote.participant_id, count }
    }
}

/// Everything a cast-vote request decides, given the chain's context
/// and the store's get-or-create answer for the pair's record.
pub open spec fn spec_post_vote(ctx: GateContext, vote_lookup: Result<Vote, StoreError>) -> Result<
    TallyAction,
    Error,
> {
    match spec_eval_chain(spec_gates_for(Endpoint::CastVote), ctx) {
        Err(e) => Err(e),
        Ok(_) => match ctx.board {
            Err(e) => Err(spec_store_failure(e)),
            Ok(board) => if !board.voting_open {
                Err(Error::Forbidden)
            } else {
                match vote_lookup {
                    Err(StoreError::Conflict) => Err(Error::Conflict),
                    Err(_) => Err(Error::Unavailable),
                    Ok(vote) => Ok(spec_cast(board.max_votes as int, vote)),
                }
            },
        },
    }
}

/// Decides a cast-vote request: the endpoint's gate chain, then the
/// board's voting phase, then the clamped increment of the record the
/// store found or made for the pair. The get-or-create answer is an
/// argument; the caller obtains it from the store only after the gates
/// and the phase check pass, and performs the write the action asks
/// for. A get-or-create that lost a uniqueness race reports `Conflict`,
/// which the caller may retry once after re-reading.
pub fn post_vote(ctx: GateContext, vote_lookup: Result<Vote, StoreError>) -> (r: Result<
    TallyAction,
    Error,
>)
    ensures
        r == spec_post_vote(ctx, vote_lookup),
{
    let gates = gates_for(&Endpoint::CastVote);
    match eval_chain(&gates, &ctx) {
        Err(e) => Err(e),
        Ok(_) => match ctx.board {
            Err(e) => Err(store_failure(e)),
            Ok(board) => if !board.voting_open {
                Err(Error::Forbidden)
            } else {
                match vote_lookup {
                    Err(StoreError::Conflict) => Err(Error::Conflict),
                    Err(_) => Err(Error::Unavailable),
                    Ok(vote) => Ok(apply_cast(&board, vote)),
                }
            },
        },
    }
}

/// Everything a remove-vote request decides, given the chain's context
/// and the store's answer to the lookup of the pair's record.
pub open spec fn spec_delete_vote(
    ctx: GateContext,
    vote_lookup: Result<Option<Vote>, StoreError>,
) -> Result<Vote, Error> {
    match spec_eval_chain(spec_gates_for(Endpoint::RemoveVote), ctx) {
        Err(e) => Err(e),
        Ok(_) => match ctx.board {
            Err(e) => Err(spec_store_failure(e)),
            Ok(board) => if !board.voting_open {
                Err(Error::Forbidden)
            } else {
                match vote_lookup {
                    Err(e) => Err(spec_store_failure(e)),
                    Ok(None) => Err(Error::NotFound),
                    Ok(Some(vote)) => Ok(spec_remove(vote)),
                }
            },
        },
    }
}

/// Decides a remove-vote request: the endpoint's gate chain, then the
/// board's voting phase, then the floored decrement of the pair's
/// record; a pair that never voted has nothing to remove. On success
/// the caller writes the returned record back.
pub fn delete_vote(ctx: GateContext, vote_lookup: Result<Option<Vote>, StoreError>) -> (r: Result<
    Vote,
    Error,
>)
    ensures
        r == spec_delete_vote(ctx, vote_lookup),
{
    let gates = gates_for(&Endpoint::RemoveVote);
    match eval_chain(&gates, &ctx) {
        Err(e) => Err(e),
        Ok(_) => match ctx.board {
            Err(e) => Err(store_failure(e)),
            Ok(board) => if !board.voting_open {
                Err(Error::Forbidden)
            } else {
                match vote_lookup {
                    Err(e) => Err(store_failure(e)),
                    Ok(None) => Err(Error::NotFound),
                    Ok(Some(vote)) => Ok(apply_remove(vote)),
                }
            },
        },
    }
}

/// Everything a list-votes request decides.
pub open spec fn spec_get_votes(
    ctx: GateContext,
    votes_lookup: Result<Vec<Vote>, StoreError>,
) -> Result<Vec<Vote>, Error> {
    match spec_eval_chain(spec_gates_for(Endpoint::ListVotes), ctx) {
        Err(e) => Err(e),
        Ok(_) => match votes_lookup {
            Err(_) => Err(Error::Unavailable),
            Ok(votes) => Ok(votes),
        },
    }
}

/// Decides a list-votes request: containment gates, then the card's
/// vote records exactly as the store listed them.
pub fn get_votes(ctx: GateContext, votes_lookup: Result<Vec<Vote>, StoreError>) -> (r: Result<
    Vec<Vote>,
    Error,
>)
    ensures
        r == spec_get_votes(ctx, votes_lookup),
{
    let gates = gates_for(&Endpoint::ListVotes);
    match eval_chain(&gates, &ctx) {
        Err(e) => Err(e),
        Ok(_) => match votes_lookup {
            Err(_) => Err(Error::Unavailable),
            Ok(votes) => Ok(votes),
        },
    }
}

} // verus!
