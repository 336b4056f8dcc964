use retroboard::cards::delete_card;
use retroboard::cards::get_board_cards;
use retroboard::cards::get_card;
use retroboard::cards::get_rank_cards;
use retroboard::cards::patch_card;
use retroboard::cards::post_card;
use retroboard::chain::Endpoint;
use retroboard::chain::Gate;
use retroboard::chain::gates_for;
use retroboard::errors::Error;
use retroboard::errors::StoreError;
use retroboard::gates::GateContext;
use retroboard::models::Board;
use retroboard::models::Card;
use retroboard::models::CardMessage;
use retroboard::models::Rank;

fn board(id: &str, owner: &str, cards_open: bool, voting_open: bool, max_votes: i32) -> Board {
    Board {
        id: id.to_string(),
        owner_participant_id: owner.to_string(),
        cards_open,
        voting_open,
        max_votes,
    }
}

fn rank(id: &str, board_id: &str) -> Rank {
    Rank { id: id.to_string(), board_id: board_id.to_string() }
}

fn card(id: &str, column: &str, owner: &str) -> Card {
    Card {
        id: id.to_string(),
        column: column.to_string(),
        owner: owner.to_string(),
        author: "author".to_string(),
        text: "text".to_string(),
        created_at: 7,
        votes: vec![],
    }
}

fn happy_ctx() -> GateContext {
    GateContext {
        participant: Some("p1".to_string()),
        board_id: "b1".to_string(),
        rank_id: "r1".to_string(),
        card_id: "c1".to_string(),
        board: Ok(board("b1", "p1", true, true, 2)),
        rank: Ok(rank("r1", "b1")),
        card: Ok(card("c1", "r1", "p1")),
    }
}

fn empty_body() -> CardMessage {
    CardMessage { column_id: None, author: None, text: None, column: None }
}

#[test]
fn cards_closed_post_card_forbidden() {
    let mut ctx = happy_ctx();
    ctx.board = Ok(board("b1", "p1", false, true, 2));
    let r = post_card(ctx, empty_body());
    assert_eq!(r, Err(Error::Forbidden));
    assert_eq!(Error::Forbidden.status(), 403);
}

#[test]
fn rank_of_other_board_get_card_forbidden() {
    let mut ctx = happy_ctx();
    ctx.rank = Ok(rank("r1", "b2"));
    assert_eq!(get_card(ctx), Err(Error::Forbidden));
}

#[test]
fn rank_of_other_board_delete_card_forbidden() {
    let mut ctx = happy_ctx();
    ctx.rank = Ok(rank("r1", "b2"));
    assert_eq!(delete_card(ctx), Err(Error::Forbidden));
}

#[test]
fn rank_of_other_board_post_card_forbidden() {
    let mut ctx = happy_ctx();
    ctx.rank = Ok(rank("r1", "b2"));
    assert_eq!(post_card(ctx, empty_body()), Err(Error::Forbidden));
}

#[test]
fn first_failing_gate_decides_the_error() {
    // The rank lookup fails with NotFound while the ownership gate
    // further down the chain would deny with Forbidden: the chain must
    // report the earlier gate's NotFound, never the later Forbidden.
    let mut ctx = happy_ctx();
    ctx.rank = Err(StoreError::NotFound);
    ctx.card = Ok(card("c1", "r1", "someone-else"));
    let r = patch_card(ctx, empty_body(), Err(StoreError::NotFound));
    assert_eq!(r, Err(Error::NotFound));
}

#[test]
fn missing_identity_forbidden() {
    let mut ctx = happy_ctx();
    ctx.participant = None;
    assert_eq!(get_board_cards(ctx, Ok(vec![])), Err(Error::Forbidden));
}

#[test]
fn rank_lookup_unavailable_is_server_trouble() {
    let mut ctx = happy_ctx();
    ctx.rank = Err(StoreError::Unavailable);
    let r = get_rank_cards(ctx, Ok(vec![]));
    assert_eq!(r, Err(Error::Unavailable));
    assert_eq!(Error::Unavailable.status(), 500);
}

#[test]
fn card_lookup_not_found_is_missing() {
    let mut ctx = happy_ctx();
    ctx.card = Err(StoreError::NotFound);
    let r = get_card(ctx);
    assert_eq!(r, Err(Error::NotFound));
    assert_eq!(Error::NotFound.status(), 404);
}

#[test]
fn delete_card_needs_no_ownership() {
    let mut ctx = happy_ctx();
    ctx.card = Ok(card("c1", "r1", "someone-else"));
    assert_eq!(delete_card(ctx), Ok("c1".to_string()));
}

#[test]
fn get_card_returns_the_fetched_card() {
    let ctx = happy_ctx();
    let r = get_card(ctx).expect("gates pass");
    assert_eq!(r.id, "c1".to_string());
    assert_eq!(r.column, "r1".to_string());
}

#[test]
fn list_board_cards_passes_the_listing_through() {
    let ctx = happy_ctx();
    let listed = vec![card("c1", "r1", "p1"), card("c2", "r1", "p2")];
    let r = get_board_cards(ctx, Ok(listed)).expect("identity passes");
    assert_eq!(r.len(), 2);
    assert_eq!(r[0].id, "c1".to_string());
    assert_eq!(r[1].id, "c2".to_string());
}

#[test]
fn list_rank_cards_requires_containment() {
    let mut ctx = happy_ctx();
    ctx.rank = Ok(rank("r1", "b2"));
    assert_eq!(get_rank_cards(ctx, Ok(vec![])), Err(Error::Forbidden));
}

#[test]
fn declared_chains_match_the_table() {
    assert_eq!(
        gates_for(&Endpoint::CreateCard),
        vec![Gate::Identity, Gate::RankInBoard, Gate::CardsOpen]
    );
    assert_eq!(gates_for(&Endpoint::ListBoardCards), vec![Gate::Identity]);
    assert_eq!(
        gates_for(&Endpoint::UpdateCard),
        vec![Gate::Identity, Gate::RankInBoard, Gate::CardInRank, Gate::CardOwner]
    );
    assert_eq!(
        gates_for(&Endpoint::CastVote),
        vec![Gate::Identity, Gate::BoardOwner, Gate::RankInBoard, Gate::CardInRank]
    );
    assert_eq!(
        gates_for(&Endpoint::RemoveVote),
        vec![Gate::Identity, Gate::RankInBoard, Gate::CardInRank]
    );
}

#[test]
fn conflict_status_is_server_trouble() {
    assert_eq!(Error::Conflict.status(), 500);
}
