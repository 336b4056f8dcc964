use vstd::prelude::*;

use crate::errors::Error;
use crate::gates::GateContext;
use crate::gates::check_board_owner;
use crate::gates::check_card_in_rank;
use crate::gates::check_card_owner;
use crate::gates::check_cards_open;
use crate::gates::check_identity;
use crate::gates::check_rank_in_board;
use crate::gates::check_voting_open;
use crate::gates::spec_check_board_owner;
use crate::gates::spec_check_card_in_rank;
use crate::gates::spec_check_card_owner;
use crate::gates::spec_check_cards_open;
use crate::gates::spec_check_identity;
use crate::gates::spec_check_rank_in_board;
use crate::gates::spec_check_voting_open;

verus! {

/// The gates a request can be put behind, each a pure predicate over
/// the request's context.
#[derive(Debug, Clone, Copy, PartialEq, Eq, Structural)]
pub enum Gate {
    Identity,
    RankInBoard,
    CardInRank,
    CardOwner,
    BoardOwner,
    CardsOpen,
    VotingOpen,
}

/// The endpoints the core serves; each declares an ordered gate chain.
#[derive(Debug, Clone, Copy, PartialEq, Eq, Structural)]
pub enum Endpoint {
    CreateCard,
    ListBoardCards,
    ListRankCards,
    GetCard,
    UpdateCard,
    DeleteCard,
    CastVote,
    RemoveVote,
    ListVotes,
}

/// What one gate decides on one request context.
pub open spec fn spec_eval_gate(g: Gate, ctx: GateContext) -> Result<(), Error> {
    match g {
        Gate::Identity => spec_check_identity(ctx),
        Gate::RankInBoard => spec_check_rank_in_board(ctx),
        Gate::CardInRank => spec_check_card_in_rank(ctx),
        Gate::CardOwner => spec_check_card_owner(ctx),
        Gate::BoardOwner => spec_check_board_owner(ctx),
        Gate::CardsOpen => spec_check_cards_open(ctx),
        Gate::VotingOpen => spec_check_voting_open(ctx),
    }
}

/// Left-to-right evaluation of a gate chain: the first failing gate's
/// error is the outcome, and later gates are never consulted.
pub open spec fn spec_eval_chain(gates: Seq<Gate>, ctx: GateContext) -> Result<(), Error>
    decreases gates.len(),
{
    if gates.len() == 0 {
        Ok(())
    } else {
        match spec_eval_gate(gates[0], ctx) {
            Ok(_) => spec_eval_chain(gates.drop_first(), ctx),
            Err(e) => Err(e),
        }
    }
}

/// Each endpoint's declared gate chain, containment before ownership
/// and ownership before phase; the phase check of the two vote
/// mutations runs inside their handlers instead, after a board fetch
/// they need anyway.
pub open spec fn spec_gates_for(e: Endpoint) -> Seq<Gate> {
    match e {
        Endpoint::CreateCard => seq![Gate::Identity, Gate::RankInBoard, Gate::CardsOpen],
        Endpoint::ListBoardCards => seq![Gate::Identity],
        Endpoint::ListRankCards => seq![Gate::Identity, Gate::RankInBoard],
        Endpoint::GetCard => seq![Gate::Identity, Gate::RankInBoard, Gate::CardInRank],
        Endpoint::UpdateCard => seq![
            Gate::Identity,
            Gate::RankInBoard,
            Gate::CardInRank,
            Gate::CardOwner,
        ],
        Endpoint::DeleteCard => seq![Gate::Identity, Gate::RankInBoard, Gate::CardInRank],
        Endpoint::CastVote => seq![
            Gate::Identity,
            Gate::BoardOwner,
            Gate::RankInBoard,
            Gate::CardInRank,
        ],
        Endpoint::RemoveVote => seq![Gate::Identity, Gate::RankInBoard, Gate::CardInRank],
        Endpoint::ListVotes => seq![Gate::Identity, Gate::RankInBoard, Gate::CardInRank],
    }
}

/// Decides one gate.
pub fn eval_gate(g: &Gate, ctx: &GateContext) -> (r: Result<(), Error>)
    ensures
        r == spec_eval_gate(*g, *ctx),
{
    match g {
        Gate::Identity => check_identity(ctx),
        Gate::RankInBoard => check_rank_in_board(ctx),
        Gate::CardInRank => check_card_in_rank(ctx),
        Gate::CardOwner => check_card_owner(ctx),
        Gate::BoardOwner => check_board_owner(ctx),
        Gate::CardsOpen => check_cards_open(ctx),
        Gate::VotingOpen => check_voting_open(ctx),
    }
}

/// Evaluates a chain left to right, stopping at the first failure.
pub fn eval_chain(gates: &Vec<Gate>, ctx: &GateContext) -> (r: Result<(), Error>)
    ensures
        r == spec_eval_chain(gates@, *ctx),
{
    let mut i: usize = 0;
    proof {
        assert(gates@.skip(0) =~= gates@);
    }
    while i < gates.len()
        invariant
            0 <= i <= gates@.len(),
            spec_eval_chain(gates@, *ctx) == spec_eval_chain(gates@.skip(i as int), *ctx),
        decreases gates@.len() - i,
    {
        proof {
            assert(gates@.skip(i as int)[0] == gates@[i as int]);
        }
        match eval_gate(&gates[i], ctx) {
            Err(e) => {
                return Err(e);
            },
            Ok(_) => {
                proof {
                    assert(gates@.skip(i as int).drop_first() =~= gates@.skip(i as int + 1));
                }
                i = i + 1;
            },
        }
    }
    proof {
        assert(gates@.skip(i as int) =~= Seq::<Gate>::empty());
    }
    Ok(())
}

/// Builds an endpoint's declared gate chain.
pub fn gates_for(e: &Endpoint) -> (g: Vec<Gate>)
    ensures
        g@ == spec_gates_for(*e),
{
    let mut g: Vec<Gate> = Vec::new();
    match e {
        Endpoint::CreateCard => {
            g.push(Gate::Identity);
            g.push(Gate::RankInBoard);
            g.push(Gate::CardsOpen);
        },
        Endpoint::ListBoardCards => {
            g.push(Gate::Identity);
        },
        Endpoint::ListRankCards => {
            g.push(Gate::Identity);
            g.push(Gate::RankInBoard);
        },
        Endpoint::GetCard => {
            g.push(Gate::Identity);
            g.push(Gate::RankInBoard);
            g.push(Gate::CardInRank);
        },
        Endpoint::UpdateCard => {
            g.push(Gate::Identity);
            g.push(Gate::RankInBoard);
            g.push(Gate::CardInRank);
            g.push(Gate::CardOwner);
        },
        Endpoint::DeleteCard => {
            g.push(Gate::Identity);
            g.push(Gate::RankInBoard);
            g.push(Gate::CardInRank);
        },
        Endpoint::CastVote => {
            g.push(Gate::Identity);
            g.push(Gate::BoardOwner);
            g.push(Gate::RankInBoard);
            g.push(Gate::CardInRank);
        },
        Endpoint::RemoveVote => {
            g.push(Gate::Identity);
            g.push(Gate::RankInBoard);
            g.push(Gate::CardInRank);
        },
        Endpoint::ListVotes => {
            g.push(Gate::Identity);
            g.push(Gate::RankInBoard);
            g.push(Gate::CardInRank);
        },
    }
    proof {
        assert(g@ =~= spec_gates_for(*e));
    }
    g
}

/// A chain that passes has every one of its gates passing.
pub proof fn lemma_chain_ok_gate_ok(gates: Seq<Gate>, ctx: GateContext, i: int)
    requires
        spec_eval_chain(gates, ctx) is Ok,
        0 <= i < gates.len(),
    ensures
        spec_eval_gate(gates[i], ctx) is Ok,
    decreases i,
{
    if i == 0 {
        assert(spec_eval_gate(gates[0], ctx) is Ok);
    } else {
        assert(spec_eval_chain(gates.drop_first(), ctx) is Ok);
        lemma_chain_ok_gate_ok(gates.drop_first(), ctx, i - 1);
        assert(gates.drop_first()[i - 1] == gates[i]);
    }
}

/// The first failing gate determines a chain's outcome: when every gate
/// before position `i` passes and position `i`'s gate fails, the chain
/// reports exactly that gate's error, whatever later gates would say.
pub proof fn lemma_chain_first_failure(gates: Seq<Gate>, ctx: GateContext, i: int)
    requires
        0 <= i < gates.len(),
        forall|j: int| 0 <= j < i ==> spec_eval_gate(gates[j], ctx) is Ok,
        spec_eval_gate(gates[i], ctx) is Err,
    ensures
        spec_eval_chain(gates, ctx) == spec_eval_gate(gates[i], ctx),
    decreases i,
{
    if i == 0 {
    } else {
        assert(spec_eval_gate(gates[0], ctx) is Ok);
        assert forall|j: int| 0 <= j < i - 1 implies spec_eval_gate(
            gates.drop_first()[j],
            ctx,
        ) is Ok by {
            assert(gates.drop_first()[j] == gates[j + 1]);
        }
        assert(gates.drop_first()[i - 1] == gates[i]);
        lemma_chain_first_failure(gates.drop_first(), ctx, i - 1);
    }
}

} // verus!
