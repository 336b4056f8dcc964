use retroboard::cards::patch_card;
use retroboard::cards::post_card;
use retroboard::errors::Error;
use retroboard::errors::StoreError;
use retroboard::gates::GateContext;
use retroboard::models::Board;
use retroboard::models::Card;
use retroboard::models::CardMessage;
use retroboard::models::CardResponse;
use retroboard::models::Config;
use retroboard::models::Participant;
use retroboard::models::Rank;
use retroboard::models::participant_reference;

fn rank(id: &str, board_id: &str) -> Rank {
    Rank { id: id.to_string(), board_id: board_id.to_string() }
}

fn stored_card() -> Card {
    Card {
        id: "c1".to_string(),
        column: "r1".to_string(),
        owner: "p1".to_string(),
        author: "Dana".to_string(),
        text: "original text".to_string(),
        created_at: 7,
        votes: vec![],
    }
}

fn happy_ctx() -> GateContext {
    GateContext {
        participant: Some("p1".to_string()),
        board_id: "b1".to_string(),
        rank_id: "r1".to_string(),
        card_id: "c1".to_string(),
        board: Ok(Board {
            id: "b1".to_string(),
            owner_participant_id: "p1".to_string(),
            cards_open: true,
            voting_open: true,
            max_votes: 2,
        }),
        rank: Ok(rank("r1", "b1")),
        card: Ok(stored_card()),
    }
}

fn body(author: Option<&str>, text: Option<&str>, column: Option<&str>) -> CardMessage {
    CardMessage {
        column_id: None,
        author: author.map(|s| s.to_string()),
        text: text.map(|s| s.to_string()),
        column: column.map(|s| s.to_string()),
    }
}

#[test]
fn post_card_builds_the_card_under_the_path_rank() {
    let r = post_card(happy_ctx(), body(Some("Dana"), Some("try pairing"), None));
    let c = r.expect("gates pass");
    assert_eq!(c.column, "r1".to_string());
    assert_eq!(c.owner, "p1".to_string());
    assert_eq!(c.author, "Dana".to_string());
    assert_eq!(c.text, "try pairing".to_string());
}

#[test]
fn post_card_fills_absent_fields_with_empty_text() {
    let c = post_card(happy_ctx(), body(None, None, None)).expect("gates pass");
    assert_eq!(c.author, String::new());
    assert_eq!(c.text, String::new());
}

#[test]
fn patch_replaces_only_the_named_fields() {
    let r = patch_card(happy_ctx(), body(None, Some("new text"), None), Err(StoreError::NotFound));
    let c = r.expect("gates pass; no re-parenting");
    assert_eq!(c.text, "new text".to_string());
    assert_eq!(c.author, "Dana".to_string());
    assert_eq!(c.column, "r1".to_string());
    assert_eq!(c.id, "c1".to_string());
    assert_eq!(c.owner, "p1".to_string());
    assert_eq!(c.created_at, 7);
}

#[test]
fn patch_reparents_within_the_same_board() {
    let r = patch_card(happy_ctx(), body(None, None, Some("r2")), Ok(rank("r2", "b1")));
    let c = r.expect("the new rank is in the path's board");
    assert_eq!(c.column, "r2".to_string());
}

#[test]
fn patch_never_reparents_across_boards() {
    let r = patch_card(happy_ctx(), body(None, None, Some("r9")), Ok(rank("r9", "b2")));
    assert_eq!(r, Err(Error::Forbidden));
}

#[test]
fn patch_to_a_missing_rank_is_missing() {
    let r = patch_card(happy_ctx(), body(None, None, Some("r9")), Err(StoreError::NotFound));
    assert_eq!(r, Err(Error::NotFound));
}

#[test]
fn patch_naming_the_path_rank_needs_no_lookup() {
    let r = patch_card(happy_ctx(), body(None, None, Some("r1")), Err(StoreError::Unavailable));
    let c = r.expect("no re-parenting happens");
    assert_eq!(c.column, "r1".to_string());
}

#[test]
fn patch_by_a_non_owner_is_forbidden() {
    let mut ctx = happy_ctx();
    ctx.participant = Some("p2".to_string());
    let r = patch_card(ctx, body(None, Some("hijack"), None), Err(StoreError::NotFound));
    assert_eq!(r, Err(Error::Forbidden));
}

#[test]
fn participant_reference_is_the_qualified_document_path() {
    let r = participant_reference(&"proj".to_string(), &"p1".to_string());
    assert_eq!(r, "projects/proj/databases/(default)/documents/participants/p1".to_string());
}

#[test]
fn from_card_marks_owner_and_voted() {
    let config = Config { firestore_project: "proj".to_string() };
    let me = Participant { id: "p1".to_string() };
    let mut card = stored_card();
    card.votes = vec![
        participant_reference(&config.firestore_project, &"p2".to_string()),
        participant_reference(&config.firestore_project, &me.id),
    ];
    let r = CardResponse::from_card(&config, card, &me);
    assert!(r.owner);
    assert!(r.voted);
    assert_eq!(r.votes, 2);
    assert_eq!(r.id, "c1".to_string());
    assert_eq!(r.author, "Dana".to_string());
    assert_eq!(r.text, "original text".to_string());
    assert_eq!(r.created_at, 7);
}

#[test]
fn from_card_for_a_stranger_is_neither_owner_nor_voted() {
    let config = Config { firestore_project: "proj".to_string() };
    let other = Participant { id: "p3".to_string() };
    let mut card = stored_card();
    card.votes = vec![participant_reference(&config.firestore_project, &"p2".to_string())];
    let r = CardResponse::from_card(&config, card, &other);
    assert!(!r.owner);
    assert!(!r.voted);
    assert_eq!(r.votes, 1);
}
