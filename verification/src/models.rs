use vstd::prelude::*;
use vstd::string::StringExecFns;

verus! {

/// A participant resolved from the request's session identity.
#[derive(Debug, Clone, PartialEq)]
pub struct Participant {
    pub id: String,
}

/// Deployment configuration the card projection needs: participant
/// references inside a card's vote list are qualified by project.
#[derive(Debug, Clone, PartialEq)]
pub struct Config {
    pub firestore_project: String,
}

/// A retrospective board: the top-level container, with its owner, its
/// phase flags, and the per-participant vote budget.
#[derive(Debug, Clone, PartialEq)]
pub struct Board {
    pub id: String,
    pub owner_participant_id: String,
    pub cards_open: bool,
    pub voting_open: bool,
    pub max_votes: i32,
}

impl Board {
    /// A board's vote budget is never negative.
    pub open spec fn wf(self) -> bool {
        self.max_votes >= 0
    }
}

/// A rank (column) grouping cards; it belongs to exactly one board.
#[derive(Debug, Clone, PartialEq)]
pub struct Rank {
    pub id: String,
    pub board_id: String,
}

/// A per-(card, participant) bounded tally record. At most one exists
/// per pair; it is created on first cast and then only re-counted.
#[derive(Debug, Clone, PartialEq)]
pub struct Vote {
    pub card_id: String,
    pub participant_id: String,
    pub count: i32,
}

impl Vote {
    /// A tally at rest is never negative.
    pub open spec fn wf(self) -> bool {
        self.count >= 0
    }
}

/// Body of a card create or update request; an absent field leaves the
/// stored card's field unchanged.
#[derive(Debug, Clone, PartialEq)]
pub struct CardMessage {
    pub column_id: Option<String>,
    pub author: Option<String>,
    pub text: Option<String>,
    pub column: Option<String>,
}

/// A card as stored: one contributed item under a rank (its `column`),
/// owned by the participant who created it; `votes` holds the
/// references of the participants who voted for it.
#[derive(Debug, Clone, PartialEq)]
pub struct Card {
    pub id: String,
    pub column: String,
    pub owner: String,
    pub author: String,
    pub text: String,
    pub created_at: i64,
    pub votes: Vec<String>,
}

/// Content of a card to be created; the store assigns `id` and
/// `created_at`.
#[derive(Debug, Clone, PartialEq)]
pub struct NewCard {
    pub column: String,
    pub owner: String,
    pub author: String,
    pub text: String,
}

/// A card as returned to the requesting participant: ownership reduced
/// to a flag for that participant, the vote list reduced to its size
/// and to whether that participant is in it.
#[derive(Debug, Clone, PartialEq)]
pub struct CardResponse {
    pub id: String,
    pub column: String,
    pub owner: bool,
    pub author: String,
    pub text: String,
    pub created_at: i64,
    pub votes: usize,
    pub voted: bool,
}

/// The reference string a card's vote list stores for a participant,
/// qualified by the project's document tree.
pub open spec fn spec_participant_reference(project: Seq<char>, id: Seq<char>) -> Seq<char> {
    "projects/"@ + project + "/databases/(default)/documents/participants/"@ + id
}

/// Builds the stored reference for a participant of a project.
pub fn participant_reference(project: &String, id: &String) -> (r: String)
    ensures
        r@ == spec_participant_reference(project@, id@),
{
    let mut r = String::new();
    r.append("projects/");
    r.append(project.as_str());
    r.append("/databases/(default)/documents/participants/");
    r.append(id.as_str());
    proof {
        assert(r@ =~= spec_participant_reference(project@, id@));
    }
    r
}

/// Whether some entry of `entries` has the contents of `needle`.
pub open spec fn spec_contains_string(entries: Seq<String>, needle: Seq<char>) -> bool {
    exists|i: int| 0 <= i < entries.len() && entries[i]@ == needle
}

/// Linear search for an entry equal to `needle`, compared by contents.
pub fn contains_string(entries: &Vec<String>, needle: &String) -> (r: bool)
    ensures
        r == spec_contains_string(entries@, needle@),
{
    let mut i: usize = 0;
    while i < entries.len()
        invariant
            0 <= i <= entries@.len(),
            forall|j: int| 0 <= j < i ==> entries@[j]@ != needle@,
        decreases entries@.len() - i,
    {
        if entries[i] == *needle {
            proof {
                assert(spec_contains_string(entries@, needle@));
            }
            return true;
        }
        i = i + 1;
    }
    false
}

impl CardResponse {
    /// Projects a stored card for one requesting participant: marks
    /// whether that participant owns the card and whether they have
    /// voted on it, and replaces the vote list by its size.
    pub fn from_card(config: &Config, card: Card, participant: &Participant) -> (r: CardResponse)
        ensures
            r.id == card.id,
            r.column == card.column,
            r.owner == (card.owner@ == participant.id@),
            r.author == card.author,
            r.text == card.text,
            r.created_at == card.created_at,
            r.votes == card.votes@.len(),
            r.voted == spec_contains_string(
                card.votes@,
                spec_participant_reference(config.firestore_project@, participant.id@),
            ),
    {
        let reference = participant_reference(&config.firestore_project, &participant.id);
        let owner = card.owner == participant.id;
        let voted = contains_string(&card.votes, &reference);
        let votes = card.votes.len();
        CardResponse {
            id: card.id,
            column: card.column,
            owner,
            author: card.author,
            text: card.text,
            created_at: card.created_at,
            votes,
            voted,
        }
    }
}

} // verus!
