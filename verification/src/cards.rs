use vstd::prelude::*;

use crate::chain::Endpoint;
use crate::chain::Gate;
use crate::chain::eval_chain;
use crate::chain::gates_for;
use crate::chain::lemma_chain_ok_gate_ok;
use crate::chain::spec_eval_chain;
use crate::chain::spec_gates_for;
use crate::errors::Error;
use crate::errors::StoreError;
use crate::errors::spec_store_failure;
use crate::errors::store_failure;
use crate::gates::GateContext;
use crate::models::Card;
use crate::models::CardMessage;
use crate::models::NewCard;
use crate::models::Rank;
use vstd::pervasive::unreached;

verus! {

/// The contents of an absent optional string: empty.
pub open spec fn spec_or_empty(s: Option<String>) -> Seq<char> {
    match s {
        Some(t) => t@,
        None => Seq::<char>::empty(),
    }
}

/// Everything a create-card request decides.
pub open spec fn spec_post_card_err(ctx: GateContext) -> Result<(), Error> {
    spec_eval_chain(spec_gates_for(Endpoint::CreateCard), ctx)
}

/// Decides a create-card request: identity, the rank's containment in
/// the path's board, and the board's cards-open phase; when all pass,
/// the card to create sits under the path's rank, owned by the
/// resolved participant, with the body's text and author (empty when
/// absent). The caller stores it; the store assigns id and timestamp.
pub fn post_card(ctx: GateContext, body: CardMessage) -> (r: Result<NewCard, Error>)
    ensures
        (spec_post_card_err(ctx) matches Err(e) ==> r == Err::<NewCard, Error>(e)),
        spec_post_card_err(ctx) is Ok ==> (r matches Ok(c) && c.column@ == ctx.rank_id@
            && c.owner@ == ctx.participant->Some_0@ && c.author@ == spec_or_empty(body.author)
            && c.text@ == spec_or_empty(body.text)),
{
    let gates = gates_for(&Endpoint::CreateCard);
    match eval_chain(&gates, &ctx) {
        Err(e) => Err(e),
        Ok(_) => {
            proof {
                lemma_chain_ok_gate_ok(spec_gates_for(Endpoint::CreateCard), ctx, 0);
                assert(spec_gates_for(Endpoint::CreateCard)[0] == Gate::Identity);
            }
            let owner = match ctx.participant {
                Some(p) => p,
                None => unreached(),
            };
            let author = match body.author {
                Some(a) => a,
                None => String::new(),
            };
            let text = match body.text {
                Some(t) => t,
                None => String::new(),
            };
            Ok(NewCard { column: ctx.rank_id, owner, author, text })
        },
    }
}

/// Everything a list-board-cards request decides.
pub open spec fn spec_get_board_cards(
    ctx: GateContext,
    cards_lookup: Result<Vec<Card>, StoreError>,
) -> Result<Vec<Card>, Error> {
    match spec_eval_chain(spec_gates_for(Endpoint::ListBoardCards), ctx) {
        Err(e) => Err(e),
        Ok(_) => match cards_lookup {
            Err(e) => Err(spec_store_failure(e)),
            Ok(cards) => Ok(cards),
        },
    }
}

/// Decides a list-board-cards request: identity only, then the board's
/// cards exactly as the store listed them.
pub fn get_board_cards(ctx: GateContext, cards_lookup: Result<Vec<Card>, StoreError>) -> (r: Result<
    Vec<Card>,
    Error,
>)
    ensures
        r == spec_get_board_cards(ctx, cards_lookup),
{
    let gates = gates_for(&Endpoint::ListBoardCards);
    match eval_chain(&gates, &ctx) {
        Err(e) => Err(e),
        Ok(_) => match cards_lookup {
            Err(e) => Err(store_failure(e)),
            Ok(cards) => Ok(cards),
        },
    }
}

/// Everything a list-rank-cards request decides.
pub open spec fn spec_get_rank_cards(
    ctx: GateContext,
    cards_lookup: Result<Vec<Card>, StoreError>,
) -> Result<Vec<Card>, Error> {
    match spec_eval_chain(spec_gates_for(Endpoint::ListRankCards), ctx) {
        Err(e) => Err(e),
        Ok(_) => match cards_lookup {
            Err(e) => Err(spec_store_failure(e)),
            Ok(cards) => Ok(cards),
        },
    }
}

/// Decides a list-rank-cards request: identity and the rank's
/// containment, then the rank's cards as the store listed them.
pub fn get_rank_cards(ctx: GateContext, cards_lookup: Result<Vec<Card>, StoreError>) -> (r: Result<
    Vec<Card>,
    Error,
>)
    ensures
        r == spec_get_rank_cards(ctx, cards_lookup),
{
    let gates = gates_for(&Endpoint::ListRankCards);
    match eval_chain(&gates, &ctx) {
        Err(e) => Err(e),
        Ok(_) => match cards_lookup {
            Err(e) => Err(store_failure(e)),
            Ok(cards) => Ok(cards),
        },
    }
}

/// Everything a get-card request decides: on success, the card the
/// containment gates already fetched and checked.
pub open spec fn spec_get_card(ctx: GateContext) -> Result<Card, Error> {
    match spec_eval_chain(spec_gates_for(Endpoint::GetCard), ctx) {
        Err(e) => Err(e),
        Ok(_) => Ok(ctx.card->Ok_0),
    }
}

/// Decides a get-card request: identity and both containment gates,
/// then the path's card.
pub fn get_card(ctx: GateContext) -> (r: Result<Card, Error>)
    ensures
        r == spec_get_card(ctx),
{
    let gates = gates_for(&Endpoint::GetCard);
    match eval_chain(&gates, &ctx) {
        Err(e) => Err(e),
        Ok(_) => {
            proof {
                lemma_chain_ok_gate_ok(spec_gates_for(Endpoint::GetCard), ctx, 2);
                assert(spec_gates_for(Endpoint::GetCard)[2] == Gate::CardInRank);
            }
            match ctx.card {
                Ok(card) => Ok(card),
                Err(_) => unreached(),
            }
        },
    }
}

/// Re-parenting validation: a body that names a rank other than the
/// path's must name one in the path's board — re-parenting across
/// boards is never permitted. A rank that does not exist is missing; a
/// rank of another board is denied.
pub open spec fn spec_reparent_check(
    board_id: Seq<char>,
    rank_id: Seq<char>,
    body_column: Option<String>,
    new_rank: Result<Rank, StoreError>,
) -> Result<(), Error> {
    match body_column {
        None => Ok(()),
        Some(nc) => if nc@ == rank_id {
            Ok(())
        } else {
            match new_rank {
                Err(e) => Err(spec_store_failure(e)),
                Ok(rank) => if rank.board_id@ == board_id {
                    Ok(())
                } else {
                    Err(Error::Forbidden)
                },
            }
        },
    }
}

/// Decides the re-parenting validation, given the store's answer to
/// the lookup of the rank the body names.
pub fn reparent_check(
    board_id: &String,
    rank_id: &String,
    body_column: &Option<String>,
    new_rank: &Result<Rank, StoreError>,
) -> (r: Result<(), Error>)
    ensures
        r == spec_reparent_check(board_id@, rank_id@, *body_column, *new_rank),
{
    match body_column {
        None => Ok(()),
        Some(nc) => if *nc == *rank_id {
            Ok(())
        } else {
            match new_rank {
                Err(e) => Err(store_failure(*e)),
                Ok(rank) => if rank.board_id == *board_id {
                    Ok(())
                } else {
                    Err(Error::Forbidden)
                },
            }
        },
    }
}

/// The card an update writes back: each field the body names replaced,
/// everything else — identity, owner, timestamp, votes — untouched.
pub open spec fn spec_apply_patch(card: Card, body: CardMessage) -> Card {
    Card {
        column: match body.column {
            Some(c) => c,
            None => card.column,
        },
        author: match body.author {
            Some(a) => a,
            None => card.author,
        },
        text: match body.text {
            Some(t) => t,
            None => card.text,
        },
        ..card
    }
}

/// Applies an update body to a stored card.
pub fn apply_patch(card: Card, body: CardMessage) -> (r: Card)
    ensures
        r == spec_apply_patch(card, body),
{
    Card {
        id: card.id,
        column: match body.column {
            Some(c) => c,
            None => card.column,
        },
        owner: card.owner,
        author: match body.author {
            Some(a) => a,
            None => card.author,
        },
        text: match body.text {
            Some(t) => t,
            None => card.text,
        },
        created_at: card.created_at,
        votes: card.votes,
    }
}

/// Everything an update-card request decides, given the store's answer
/// for the rank the body may re-parent to.
pub open spec fn spec_patch_card(
    ctx: GateContext,
    body: CardMessage,
    new_rank: Result<Rank, StoreError>,
) -> Result<Card, Error> {
    match spec_eval_chain(spec_gates_for(Endpoint::UpdateCard), ctx) {
        Err(e) => Err(e),
        Ok(_) => match spec_reparent_check(ctx.board_id@, ctx.rank_id@, body.column, new_rank) {
            Err(e) => Err(e),
            Ok(_) => Ok(spec_apply_patch(ctx.card->Ok_0, body)),
        },
    }
}

/// Decides an update-card request: identity, both containment gates
/// and card ownership; then, because the body may re-parent the card,
/// the body's rank is validated against the path's board; on success
/// the caller writes the returned card back.
pub fn patch_card(ctx: GateContext, body: CardMessage, new_rank: Result<Rank, StoreError>) -> (r:
    Result<Card, Error>)
    ensures
        r == spec_patch_card(ctx, body, new_rank),
{
    let gates = gates_for(&Endpoint::UpdateCard);
    match eval_chain(&gates, &ctx) {
        Err(e) => Err(e),
        Ok(_) => {
            match reparent_check(&ctx.board_id, &ctx.rank_id, &body.column, &new_rank) {
                Err(e) => Err(e),
                Ok(_) => {
                    proof {
                        lemma_chain_ok_gate_ok(spec_gates_for(Endpoint::UpdateCard), ctx, 2);
                        assert(spec_gates_for(Endpoint::UpdateCard)[2] == Gate::CardInRank);
                    }
                    match ctx.card {
                        Ok(card) => Ok(apply_patch(card, body)),
                        Err(_) => unreached(),
                    }
                },
            }
        },
    }
}

/// Everything a delete-card request decides: on success, the path's
/// card is the one to remove.
pub open spec fn spec_delete_card(ctx: GateContext) -> Result<String, Error> {
    match spec_eval_chain(spec_gates_for(Endpoint::DeleteCard), ctx) {
        Err(e) => Err(e),
        Ok(_) => Ok(ctx.card_id),
    }
}

/// Decides a delete-card request: identity and both containment gates,
/// no ownership gate — any authenticated participant who satisfies
/// containment may delete the card, a deliberate moderation policy.
/// On success the caller removes the returned card id.
pub fn delete_card(ctx: GateContext) -> (r: Result<String, Error>)
    ensures
        r == spec_delete_card(ctx),
{
    let gates = gates_for(&Endpoint::DeleteCard);
    match eval_chain(&gates, &ctx) {
        Err(e) => Err(e),
        Ok(_) => Ok(ctx.card_id),
    }
}

} // verus!
