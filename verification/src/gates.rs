use vstd::prelude::*;

use crate::errors::Error;
use crate::errors::StoreError;
use crate::errors::spec_store_failure;
use crate::errors::store_failure;
use crate::models::Board;
use crate::models::Card;
use crate::models::Rank;

verus! {

/// Everything a gate may read about one request: the resolved identity
/// (`None` when resolution failed), the path's ids, and the store's
/// answers to the lookups of the entities the path names. The caller
/// fetches; the gates only decide.
pub struct GateContext {
    pub participant: Option<String>,
    pub board_id: String,
    pub rank_id: String,
    pub card_id: String,
    pub board: Result<Board, StoreError>,
    pub rank: Result<Rank, StoreError>,
    pub card: Result<Card, StoreError>,
}

/// Identity gate: the request must carry a resolved participant.
pub open spec fn spec_check_identity(ctx: GateContext) -> Result<(), Error> {
    match ctx.participant {
        Some(_) => Ok(()),
        None => Err(Error::Forbidden),
    }
}

/// Containment gate: the path's rank must exist and belong to the
/// path's board; a rank that exists elsewhere is denied, not hidden.
pub open spec fn spec_check_rank_in_board(ctx: GateContext) -> Result<(), Error> {
    match ctx.rank {
        Ok(rank) => if rank.board_id@ == ctx.board_id@ {
            Ok(())
        } else {
            Err(Error::Forbidden)
        },
        Err(e) => Err(spec_store_failure(e)),
    }
}

/// Containment gate: the path's card must exist and sit under the
/// path's rank.
pub open spec fn spec_check_card_in_rank(ctx: GateContext) -> Result<(), Error> {
    match ctx.card {
        Ok(card) => if card.column@ == ctx.rank_id@ {
            Ok(())
        } else {
            Err(Error::Forbidden)
        },
        Err(e) => Err(spec_store_failure(e)),
    }
}

/// Ownership gate: the resolved participant must be the card's owner.
pub open spec fn spec_check_card_owner(ctx: GateContext) -> Result<(), Error> {
    match ctx.participant {
        None => Err(Error::Forbidden),
        Some(p) => match ctx.card {
            Ok(card) => if card.owner@ == p@ {
                Ok(())
            } else {
                Err(Error::Forbidden)
            },
            Err(e) => Err(spec_store_failure(e)),
        },
    }
}

/// Ownership gate: the resolved participant must own the board.
pub open spec fn spec_check_board_owner(ctx: GateContext) -> Result<(), Error> {
    match ctx.participant {
        None => Err(Error::Forbidden),
        Some(p) => match ctx.board {
            Ok(board) => if board.owner_participant_id@ == p@ {
                Ok(())
            } else {
                Err(Error::Forbidden)
            },
            Err(e) => Err(spec_store_failure(e)),
        },
    }
}

/// Phase gate: the board must currently accept new cards. The board
/// exists and the caller is authorized, so a closed phase is a denial,
/// not a missing entity.
pub open spec fn spec_check_cards_open(ctx: GateContext) -> Result<(), Error> {
    match ctx.board {
        Ok(board) => if board.cards_open {
            Ok(())
        } else {
            Err(Error::Forbidden)
        },
        Err(e) => Err(spec_store_failure(e)),
    }
}

/// Phase gate: the board must currently accept votes.
pub open spec fn spec_check_voting_open(ctx: GateContext) -> Result<(), Error> {
    match ctx.board {
        Ok(board) => if board.voting_open {
            Ok(())
        } else {
            Err(Error::Forbidden)
        },
        Err(e) => Err(spec_store_failure(e)),
    }
}

/// Decides the identity gate.
pub fn check_identity(ctx: &GateContext) -> (r: Result<(), Error>)
    ensures
        r == spec_check_identity(*ctx),
{
    match &ctx.participant {
        Some(_) => Ok(()),
        None => Err(Error::Forbidden),
    }
}

/// Decides the rank-in-board containment gate.
pub fn check_rank_in_board(ctx: &GateContext) -> (r: Result<(), Error>)
    ensures
        r == spec_check_rank_in_board(*ctx),
{
    match &ctx.rank {
        Ok(rank) => if rank.board_id == ctx.board_id {
            Ok(())
        } else {
            Err(Error::Forbidden)
        },
        Err(e) => Err(store_failure(*e)),
    }
}

/// Decides the card-in-rank containment gate.
pub fn check_card_in_rank(ctx: &GateContext) -> (r: Result<(), Error>)
    ensures
        r == spec_check_card_in_rank(*ctx),
{
    match &ctx.card {
        Ok(card) => if card.column == ctx.rank_id {
            Ok(())
        } else {
            Err(Error::Forbidden)
        },
        Err(e) => Err(store_failure(*e)),
    }
}

/// Decides the card-ownership gate.
pub fn check_card_owner(ctx: &GateContext) -> (r: Result<(), Error>)
    ensures
        r == spec_check_card_owner(*ctx),
{
    match &ctx.participant {
        None => Err(Error::Forbidden),
        Some(p) => match &ctx.card {
            Ok(card) => if card.owner == *p {
                Ok(())
            } else {
                Err(Error::Forbidden)
            },
            Err(e) => Err(store_failure(*e)),
        },
    }
}

/// Decides the board-ownership gate.
pub fn check_board_owner(ctx: &GateContext) -> (r: Result<(), Error>)
    ensures
        r == spec_check_board_owner(*ctx),
{
    match &ctx.participant {
        None => Err(Error::Forbidden),
        Some(p) => match &ctx.board {
            Ok(board) => if board.owner_participant_id == *p {
                Ok(())
            } else {
                Err(Error::Forbidden)
            },
            Err(e) => Err(store_failure(*e)),
        },
    }
}

/// Decides the cards-open phase gate.
pub fn check_cards_open(ctx: &GateContext) -> (r: Result<(), Error>)
    ensures
        r == spec_check_cards_open(*ctx),
{
    match &ctx.board {
        Ok(board) => if board.cards_open {
            Ok(())
        } else {
            Err(Error::Forbidden)
        },
        Err(e) => Err(store_failure(*e)),
    }
}

/// Decides the voting-open phase gate.
pub fn check_voting_open(ctx: &GateContext) -> (r: Result<(), Error>)
    ensures
        r == spec_check_voting_open(*ctx),
{
    match &ctx.board {
        Ok(board) => if board.voting_open {
            Ok(())
        } else {
            Err(Error::Forbidden)
        },
        Err(e) => Err(store_failure(*e)),
    }
}

} // verus!
