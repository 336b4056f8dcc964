use vstd::prelude::*;

use crate::chain::Endpoint;
use crate::chain::Gate;
use crate::chain::lemma_chain_first_failure;
use crate::chain::lemma_chain_ok_gate_ok;
use crate::chain::spec_eval_chain;
use crate::chain::spec_eval_gate;
use crate::chain::spec_gates_for;
use crate::errors::Error;
use crate::gates::GateContext;
use crate::models::Vote;
use crate::votes::TallyAction;
use crate::votes::spec_cast;
use crate::votes::spec_clamped_increment;
use crate::votes::spec_floor_decrement;
use crate::votes::spec_remove;

verus! {

/// Containment: a request that passes a chain carrying the containment
/// gates really addresses a rank of the path's board and a card of the
/// path's rank.
pub proof fn lemma_success_implies_containment(e: Endpoint, ctx: GateContext)
    requires
        spec_eval_chain(spec_gates_for(e), ctx) is Ok,
    ensures
        spec_gates_for(e).contains(Gate::RankInBoard) ==> (ctx.rank matches Ok(r)
            && r.board_id@ == ctx.board_id@),
        spec_gates_for(e).contains(Gate::CardInRank) ==> (ctx.card matches Ok(c) && c.column@
            == ctx.rank_id@),
{
    let gates = spec_gates_for(e);
    if gates.contains(Gate::RankInBoard) {
        let i = choose|i: int| 0 <= i < gates.len() && gates[i] == Gate::RankInBoard;
        lemma_chain_ok_gate_ok(gates, ctx, i);
    }
    if gates.contains(Gate::CardInRank) {
        let i = choose|i: int| 0 <= i < gates.len() && gates[i] == Gate::CardInRank;
        lemma_chain_ok_gate_ok(gates, ctx, i);
    }
}

/// Containment violations are denied: when every gate before the
/// rank-containment gate passes and the path's rank exists but belongs
/// to another board, the chain's outcome is Forbidden.
pub proof fn lemma_containment_violation_forbidden(e: Endpoint, ctx: GateContext, i: int)
    requires
        0 <= i < spec_gates_for(e).len(),
        spec_gates_for(e)[i] == Gate::RankInBoard,
        forall|j: int| 0 <= j < i ==> spec_eval_gate(spec_gates_for(e)[j], ctx) is Ok,
        ctx.rank matches Ok(r) && r.board_id@ != ctx.board_id@,
    ensures
        spec_eval_chain(spec_gates_for(e), ctx) == Err::<(), Error>(Error::Forbidden),
{
    lemma_chain_first_failure(spec_gates_for(e), ctx, i);
}

/// Gate ordering on a card update: when the rank-containment gate
/// fails, the chain reports that failure, and the ownership gate
/// further down the declared order — failing or not — plays no part.
pub proof fn lemma_gate_ordering_update_card(ctx: GateContext)
    requires
        spec_eval_gate(Gate::Identity, ctx) is Ok,
        spec_eval_gate(Gate::RankInBoard, ctx) is Err,
    ensures
        spec_eval_chain(spec_gates_for(Endpoint::UpdateCard), ctx) == spec_eval_gate(
            Gate::RankInBoard,
            ctx,
        ),
{
    let gates = spec_gates_for(Endpoint::UpdateCard);
    assert(gates[0] == Gate::Identity);
    assert(gates[1] == Gate::RankInBoard);
    lemma_chain_first_failure(gates, ctx, 1);
}

/// Vote bounds: a tally within the board's budget stays within it
/// under both transitions, and no transition drives a count negative.
pub proof fn lemma_vote_bounds(max_votes: int, vote: Vote)
    requires
        0 <= vote.count,
        max_votes <= i32::MAX as int,
    ensures
        0 <= spec_cast(max_votes, vote).vote().count,
        vote.count <= max_votes ==> spec_cast(max_votes, vote).vote().count <= max_votes,
        0 <= spec_floor_decrement(vote.count as int) <= vote.count,
{
}

/// A tally already at or over a (possibly lowered) budget is preserved
/// by a cast exactly as it stands: never increased, never clamped down.
pub proof fn lemma_over_limit_preserved(max_votes: int, vote: Vote)
    requires
        vote.count >= max_votes,
    ensures
        spec_cast(max_votes, vote) == TallyAction::Keep(vote),
{
}

/// Floor and ceiling: removing a vote at zero leaves zero, and casting
/// at the budget leaves the count unchanged.
pub proof fn lemma_clamp_edges(max_votes: int, vote: Vote)
    ensures
        vote.count == 0 ==> spec_remove(vote).count == 0,
        vote.count == max_votes ==> spec_cast(max_votes, vote) == TallyAction::Keep(vote),
{
}

/// The record-level transitions agree with the count-level machine
/// below, and neither touches the record's (card, participant) key: a
/// write always lands on the pair's one record, never on a second one.
pub proof fn lemma_tally_refines_counts(max_votes: int, vote: Vote)
    requires
        max_votes <= i32::MAX as int,
    ensures
        spec_cast(max_votes, vote).vote().count == spec_clamped_increment(
            vote.count as int,
            max_votes,
        ),
        spec_cast(max_votes, vote).vote().card_id == vote.card_id,
        spec_cast(max_votes, vote).vote().participant_id == vote.participant_id,
        spec_remove(vote).count == spec_floor_decrement(vote.count as int),
        spec_remove(vote).card_id == vote.card_id,
        spec_remove(vote).participant_id == vote.participant_id,
{
}

/// One pair's tally as the store holds it: no record until the first
/// cast, then exactly one count.
pub open spec fn spec_cast_next(state: Option<int>, max_votes: int) -> Option<int> {
    let count = match state {
        None => 0int,
        Some(c) => c,
    };
    Some(spec_clamped_increment(count, max_votes))
}

/// The tally after `n` sequential casts by one participant on one
/// card, starting with no record.
pub open spec fn spec_casts_from_empty(n: nat, max_votes: int) -> Option<int>
    decreases n,
{
    if n == 0 {
        None
    } else {
        spec_cast_next(spec_casts_from_empty((n - 1) as nat, max_votes), max_votes)
    }
}

/// Sequential casts saturate at the budget: after `n` casts the pair
/// holds one record whose count is the smaller of `n` and the budget.
pub proof fn lemma_sequential_casts(n: nat, max_votes: int)
    requires
        max_votes >= 0,
    ensures
        spec_casts_from_empty(n, max_votes) == (if n == 0 {
            Option::<int>::None
        } else {
            Some(if n <= max_votes {
                n as int
            } else {
                max_votes
            })
        }),
    decreases n,
{
    if n > 0 {
        lemma_sequential_casts((n - 1) as nat, max_votes);
    }
}

/// A store's vote table, keyed by (card, participant): every record it
/// holds sits within the bounds.
pub open spec fn spec_table_bounded(
    table: Map<(Seq<char>, Seq<char>), int>,
    max_votes: int,
) -> bool {
    forall|k: (Seq<char>, Seq<char>)|
        table.contains_key(k) ==> 0 <= #[trigger] table[k] <= max_votes
}

/// The table after one cast for pair `k`: the record found or created
/// at zero, written back with the clamped increment.
pub open spec fn spec_table_cast(
    table: Map<(Seq<char>, Seq<char>), int>,
    k: (Seq<char>, Seq<char>),
    max_votes: int,
) -> Map<(Seq<char>, Seq<char>), int> {
    let count = if table.contains_key(k) {
        table[k]
    } else {
        0
    };
    table.insert(k, spec_clamped_increment(count, max_votes))
}

/// The table after one removal for pair `k`, which holds a record.
pub open spec fn spec_table_remove(
    table: Map<(Seq<char>, Seq<char>), int>,
    k: (Seq<char>, Seq<char>),
) -> Map<(Seq<char>, Seq<char>), int> {
    table.insert(k, spec_floor_decrement(table[k]))
}

/// Vote bound invariant at rest: a store whose records all sit within
/// the board's budget keeps that property across any cast and any
/// removal, by any pair.
pub proof fn lemma_table_bounds_preserved(
    table: Map<(Seq<char>, Seq<char>), int>,
    k: (Seq<char>, Seq<char>),
    max_votes: int,
)
    requires
        max_votes >= 0,
        spec_table_bounded(table, max_votes),
    ensures
        spec_table_bounded(spec_table_cast(table, k, max_votes), max_votes),
        table.contains_key(k) ==> spec_table_bounded(spec_table_remove(table, k), max_votes),
{
}

/// Get-or-create is idempotent: the second of two sequential casts
/// finds the record the first made — there is one record, never two —
/// and with a budget of one its count is still one; a larger budget
/// lets the second cast lift the same record's count to two.
pub proof fn lemma_idempotent_get_or_create(max_votes: int)
    requires
        max_votes >= 1,
    ensures
        spec_casts_from_empty(1, max_votes) == Some(1int),
        max_votes == 1 ==> spec_casts_from_empty(2, max_votes) == Some(1int),
        max_votes >= 2 ==> spec_casts_from_empty(2, max_votes) == Some(2int),
{
    lemma_sequential_casts(1, max_votes);
    lemma_sequential_casts(2, max_votes);
}

} // verus!
