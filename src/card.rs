use vstd::prelude::*;

verus! {

/// The suit of a playing card.
#[derive(Clone, Copy, Debug, PartialEq, Eq, Structural)]
pub enum Suit {
    Hearts,
    Diamonds,
    Clubs,
    Spades,
}

/// The rank of a playing card, ace low.
#[derive(Clone, Copy, Debug, PartialEq, Eq, Structural)]
pub enum Rank {
    Ace,
    Two,
    Three,
    Four,
    Five,
    Six,
    Seven,
    Eight,
    Nine,
    Ten,
    Jack,
    Queen,
    King,
}

/// A playing card as the table reports it.
#[derive(Clone, Copy, Debug, PartialEq, Eq, Structural)]
pub struct Card(pub Rank, pub Suit);

/// The kind of combination a score claim is made for during the play.
#[derive(Clone, Copy, Debug, PartialEq, Eq, Structural)]
pub enum ScoreKind {
    Fifteen,
    Pair,
    PairRoyal,
    DoublePairRoyal,
    Run,
    ThirtyOne,
    Go,
    LastCard,
}

/// One claim of points for a play. The client only carries, compares and
/// shows these; the table decides whether they are right.
#[derive(Clone, Copy, Debug, PartialEq, Eq, Structural)]
pub struct ScoreEvent {
    pub kind: ScoreKind,
    pub points: u8,
}

} // verus!
