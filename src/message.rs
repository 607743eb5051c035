use crate::card::{Card, ScoreEvent};
use vstd::prelude::*;

verus! {

/// Messages the client sends to the table.
#[derive(Debug)]
pub enum ClientToGame {
    /// Opens the conversation.
    Greeting,
    /// Assent: the game may go on.
    Confirmation,
    /// Refusal, where the player is given a yes/no choice.
    Denial,
    /// The name the player wishes to be known by.
    Name(String),
    /// One card of the hand goes to the crib.
    DiscardOne { index: u8 },
    /// Two cards of the hand go to the crib.
    DiscardTwo { index_one: u8, index_two: u8 },
    /// The hand slot played, or `None` for a go.
    PlayTurn(Option<u8>),
    /// The points the player claims for the latest play.
    PlayScore(Vec<ScoreEvent>),
}

/// Messages the table sends to the client.
#[derive(Debug)]
pub enum GameToClient {
    DeniedTableFull,
    WaitName,
    PlayerJoinNotification { name: String, number: u8, of: u8 },
    WaitInitialCut,
    InitialCutResult { name: String, card: Card },
    InitialCutSuccess(String),
    InitialCutFailure,
    WaitDeal,
    Dealing,
    DealtHand(Vec<Card>),
    WaitDiscardOne,
    WaitDiscardTwo,
    DiscardPlacedOne(String),
    DiscardPlacedTwo(String),
    AllDiscards,
    WaitCutStarter,
    CutStarter(String, Card),
    WaitNibs,
    Nibs,
    CardPlayed { name: String, card: Card, scores: Vec<ScoreEvent> },
    WaitPlay(Vec<u8>),
    WaitPlayScore,
    InvalidPlayScoring,
    IncompletePlayScoring,
    ScoreUpdate(Vec<(String, u8)>),
    Error(String),
    Disconnect,
}

/// What a `ClientToGame` value means, with text as characters and lists as
/// sequences.
pub enum ClientMessage {
    Greeting,
    Confirmation,
    Denial,
    Name(Seq<char>),
    DiscardOne(u8),
    DiscardTwo(u8, u8),
    PlayTurn(Option<u8>),
    PlayScore(Seq<ScoreEvent>),
}

/// What a `GameToClient` value means; two messages are the same event
/// exactly when their meanings are equal.
pub enum ServerMessage {
    DeniedTableFull,
    WaitName,
    PlayerJoinNotification(Seq<char>, u8, u8),
    WaitInitialCut,
    InitialCutResult(Seq<char>, Card),
    InitialCutSuccess(Seq<char>),
    InitialCutFailure,
    WaitDeal,
    Dealing,
    DealtHand(Seq<Card>),
    WaitDiscardOne,
    WaitDiscardTwo,
    DiscardPlacedOne(Seq<char>),
    DiscardPlacedTwo(Seq<char>),
    AllDiscards,
    WaitCutStarter,
    CutStarter(Seq<char>, Card),
    WaitNibs,
    Nibs,
    CardPlayed(Seq<char>, Card, Seq<ScoreEvent>),
    WaitPlay(Seq<u8>),
    WaitPlayScore,
    InvalidPlayScoring,
    IncompletePlayScoring,
    ScoreUpdate(Seq<(Seq<char>, u8)>),
    Error(Seq<char>),
    Disconnect,
}

/// The meaning of a score table: each name as characters, with its points.
pub open spec fn scores_view(v: Seq<(String, u8)>) -> Seq<(Seq<char>, u8)> {
    v.map_values(|p: (String, u8)| (p.0@, p.1))
}

impl View for ClientToGame {
    type V = ClientMessage;

    open spec fn view(&self) -> ClientMessage {
        match self {
            ClientToGame::Greeting => ClientMessage::Greeting,
            ClientToGame::Confirmation => ClientMessage::Confirmation,
            ClientToGame::Denial => ClientMessage::Denial,
            ClientToGame::Name(n) => ClientMessage::Name(n@),
            ClientToGame::DiscardOne { index } => ClientMessage::DiscardOne(*index),
            ClientToGame::DiscardTwo { index_one, index_two } => ClientMessage::DiscardTwo(
                *index_one,
                *index_two,
            ),
            ClientToGame::PlayTurn(i) => ClientMessage::PlayTurn(*i),
            ClientToGame::PlayScore(s) => ClientMessage::PlayScore(s@),
        }
    }
}

impl View for GameToClient {
    type V = ServerMessage;

    open spec fn view(&self) -> ServerMessage {
        match self {
            GameToClient::DeniedTableFull => ServerMessage::DeniedTableFull,
            GameToClient::WaitName => ServerMessage::WaitName,
            GameToClient::PlayerJoinNotification { name, number, of } =>
                ServerMessage::PlayerJoinNotification(name@, *number, *of),
            GameToClient::WaitInitialCut => ServerMessage::WaitInitialCut,
            GameToClient::InitialCutResult { name, card } => ServerMessage::InitialCutResult(
                name@,
                *card,
            ),
            GameToClient::InitialCutSuccess(n) => ServerMessage::InitialCutSuccess(n@),
            GameToClient::InitialCutFailure => ServerMessage::InitialCutFailure,
            GameToClient::WaitDeal => ServerMessage::WaitDeal,
            GameToClient::Dealing => ServerMessage::Dealing,
            GameToClient::DealtHand(h) => ServerMessage::DealtHand(h@),
            GameToClient::WaitDiscardOne => ServerMessage::WaitDiscardOne,
            GameToClient::WaitDiscardTwo => ServerMessage::WaitDiscardTwo,
            GameToClient::DiscardPlacedOne(n) => ServerMessage::DiscardPlacedOne(n@),
            GameToClient::DiscardPlacedTwo(n) => ServerMessage::DiscardPlacedTwo(n@),
            GameToClient::AllDiscards => ServerMessage::AllDiscards,
            GameToClient::WaitCutStarter => ServerMessage::WaitCutStarter,
            GameToClient::CutStarter(n, c) => ServerMessage::CutStarter(n@, *c),
            GameToClient::WaitNibs => ServerMessage::WaitNibs,
            GameToClient::Nibs => ServerMessage::Nibs,
            GameToClient::CardPlayed { name, card, scores } => ServerMessage::CardPlayed(
                name@,
                *card,
                scores@,
            ),
            GameToClient::WaitPlay(v) => ServerMessage::WaitPlay(v@),
            GameToClient::WaitPlayScore => ServerMessage::WaitPlayScore,
            GameToClient::InvalidPlayScoring => ServerMessage::InvalidPlayScoring,
            GameToClient::IncompletePlayScoring => ServerMessage::IncompletePlayScoring,
            GameToClient::ScoreUpdate(v) => ServerMessage::ScoreUpdate(scores_view(v@)),
            GameToClient::Error(s) => ServerMessage::Error(s@),
            GameToClient::Disconnect => ServerMessage::Disconnect,
        }
    }
}

fn same_cards(a: &Vec<Card>, b: &Vec<Card>) -> (r: bool)
    ensures
        r == (a@ == b@),
{
    if a.len() != b.len() {
        return false;
    }
    let mut i: usize = 0;
    while i < a.len()
        invariant
            a@.len() == b@.len(),
            i <= a@.len(),
            a@.subrange(0, i as int) == b@.subrange(0, i as int),
        decreases a@.len() - i,
    {
        if a[i] != b[i] {
            assert(a@[i as int] == a@.subrange(0, i as int + 1)[i as int]);
            return false;
        }
        assert(a@.subrange(0, i as int + 1) =~= a@.subrange(0, i as int).push(a@[i as int]));
        assert(b@.subrange(0, i as int + 1) =~= b@.subrange(0, i as int).push(b@[i as int]));
        i = i + 1;
    }
    assert(a@ =~= a@.subrange(0, i as int));
    assert(b@ =~= b@.subrange(0, i as int));
    true
}

fn same_scores(a: &Vec<ScoreEvent>, b: &Vec<ScoreEvent>) -> (r: bool)
    ensures
        r == (a@ == b@),
{
    if a.len() != b.len() {
        return false;
    }
    let mut i: usize = 0;
    while i < a.len()
        invariant
            a@.len() == b@.len(),
            i <= a@.len(),
            a@.subrange(0, i as int) == b@.subrange(0, i as int),
        decreases a@.len() - i,
    {
        if a[i] != b[i] {
            assert(a@[i as int] == a@.subrange(0, i as int + 1)[i as int]);
            return false;
        }
        assert(a@.subrange(0, i as int + 1) =~= a@.subrange(0, i as int).push(a@[i as int]));
        assert(b@.subrange(0, i as int + 1) =~= b@.subrange(0, i as int).push(b@[i as int]));
        i = i + 1;
    }
    assert(a@ =~= a@.subrange(0, i as int));
    assert(b@ =~= b@.subrange(0, i as int));
    true
}

fn same_bytes(a: &Vec<u8>, b: &Vec<u8>) -> (r: bool)
    ensures
        r == (a@ == b@),
{
    if a.len() != b.len() {
        return false;
    }
    let mut i: usize = 0;
    while i < a.len()
        invariant
            a@.len() == b@.len(),
            i <= a@.len(),
            a@.subrange(0, i as int) == b@.subrange(0, i as int),
        decreases a@.len() - i,
    {
        if a[i] != b[i] {
            assert(a@[i as int] == a@.subrange(0, i as int + 1)[i as int]);
            return false;
        }
        assert(a@.subrange(0, i as int + 1) =~= a@.subrange(0, i as int).push(a@[i as int]));
        assert(b@.subrange(0, i as int + 1) =~= b@.subrange(0, i as int).push(b@[i as int]));
        i = i + 1;
    }
    assert(a@ =~= a@.subrange(0, i as int));
    assert(b@ =~= b@.subrange(0, i as int));
    true
}

fn same_score_table(a: &Vec<(String, u8)>, b: &Vec<(String, u8)>) -> (r: bool)
    ensures
        r == (scores_view(a@) == scores_view(b@)),
{
    if a.len() != b.len() {
        assert(scores_view(a@).len() != scores_view(b@).len());
        return false;
    }
    let mut i: usize = 0;
    while i < a.len()
        invariant
            a@.len() == b@.len(),
            i <= a@.len(),
            scores_view(a@).subrange(0, i as int) == scores_view(b@).subrange(0, i as int),
        decreases a@.len() - i,
    {
        let ghost va = scores_view(a@);
        let ghost vb = scores_view(b@);
        if a[i].0 != b[i].0 || a[i].1 != b[i].1 {
            assert(va[i as int] == va.subrange(0, i as int + 1)[i as int]);
            assert(vb[i as int] == vb.subrange(0, i as int + 1)[i as int]);
            return false;
        }
        assert(va.subrange(0, i as int + 1) =~= va.subrange(0, i as int).push(va[i as int]));
        assert(vb.subrange(0, i as int + 1) =~= vb.subrange(0, i as int).push(vb[i as int]));
        i = i + 1;
    }
    assert(scores_view(a@) =~= scores_view(a@).subrange(0, i as int));
    assert(scores_view(b@) =~= scores_view(b@).subrange(0, i as int));
    true
}

impl GameToClient {
    /// Whether two messages are the same event: the same kind with equal
    /// contents.
    pub fn same_as(&self, other: &GameToClient) -> (r: bool)
        ensures
            r == (self@ == other@),
    {
        match (self, other) {
            (GameToClient::DeniedTableFull, GameToClient::DeniedTableFull) => true,
            (GameToClient::WaitName, GameToClient::WaitName) => true,
            (
                GameToClient::PlayerJoinNotification { name: a, number: x, of: y },
                GameToClient::PlayerJoinNotification { name: b, number: u, of: v },
            ) => *a == *b && *x == *u && *y == *v,
            (GameToClient::WaitInitialCut, GameToClient::WaitInitialCut) => true,
            (
                GameToClient::InitialCutResult { name: a, card: x },
                GameToClient::InitialCutResult { name: b, card: y },
            ) => *a == *b && *x == *y,
            (GameToClient::InitialCutSuccess(a), GameToClient::InitialCutSuccess(b)) => *a == *b,
            (GameToClient::InitialCutFailure, GameToClient::InitialCutFailure) => true,
            (GameToClient::WaitDeal, GameToClient::WaitDeal) => true,
            (GameToClient::Dealing, GameToClient::Dealing) => true,
            (GameToClient::DealtHand(a), GameToClient::DealtHand(b)) => same_cards(a, b),
            (GameToClient::WaitDiscardOne, GameToClient::WaitDiscardOne) => true,
            (GameToClient::WaitDiscardTwo, GameToClient::WaitDiscardTwo) => true,
            (GameToClient::DiscardPlacedOne(a), GameToClient::DiscardPlacedOne(b)) => *a == *b,
            (GameToClient::DiscardPlacedTwo(a), GameToClient::DiscardPlacedTwo(b)) => *a == *b,
            (GameToClient::AllDiscards, GameToClient::AllDiscards) => true,
            (GameToClient::WaitCutStarter, GameToClient::WaitCutStarter) => true,
            (GameToClient::CutStarter(a, x), GameToClient::CutStarter(b, y)) => *a == *b && *x
                == *y,
            (GameToClient::WaitNibs, GameToClient::WaitNibs) => true,
            (GameToClient::Nibs, GameToClient::Nibs) => true,
            (
                GameToClient::CardPlayed { name: a, card: x, scores: s },
                GameToClient::CardPlayed { name: b, card: y, scores: t },
            ) => *a == *b && *x == *y && same_scores(s, t),
            (GameToClient::WaitPlay(a), GameToClient::WaitPlay(b)) => same_bytes(a, b),
            (GameToClient::WaitPlayScore, GameToClient::WaitPlayScore) => true,
            (GameToClient::InvalidPlayScoring, GameToClient::InvalidPlayScoring) => true,
            (GameToClient::IncompletePlayScoring, GameToClient::IncompletePlayScoring) => true,
            (GameToClient::ScoreUpdate(a), GameToClient::ScoreUpdate(b)) => same_score_table(a, b),
            (GameToClient::Error(a), GameToClient::Error(b)) => *a == *b,
            (GameToClient::Disconnect, GameToClient::Disconnect) => true,
            _ => false,
        }
    }
}

impl ClientToGame {
    /// Whether two outgoing messages say the same thing.
    pub fn same_as(&self, other: &ClientToGame) -> (r: bool)
        ensures
            r == (self@ == other@),
    {
        match (self, other) {
            (ClientToGame::Greeting, ClientToGame::Greeting) => true,
            (ClientToGame::Confirmation, ClientToGame::Confirmation) => true,
            (ClientToGame::Denial, ClientToGame::Denial) => true,
            (ClientToGame::Name(a), ClientToGame::Name(b)) => *a == *b,
            (ClientToGame::DiscardOne { index: a }, ClientToGame::DiscardOne { index: b }) => *a
                == *b,
            (
                ClientToGame::DiscardTwo { index_one: a, index_two: x },
                ClientToGame::DiscardTwo { index_one: b, index_two: y },
            ) => *a == *b && *x == *y,
            (ClientToGame::PlayTurn(a), ClientToGame::PlayTurn(b)) => match (a, b) {
                (Some(x), Some(y)) => *x == *y,
                (None, None) => true,
                _ => false,
            },
            (ClientToGame::PlayScore(a), ClientToGame::PlayScore(b)) => same_scores(a, b),
            _ => false,
        }
    }
}

impl PartialEq for GameToClient {
    fn eq(&self, other: &GameToClient) -> (r: bool) {
        self.same_as(other)
    }
}

impl vstd::std_specs::cmp::PartialEqSpecImpl for GameToClient {
    open spec fn obeys_eq_spec() -> bool {
        true
    }

    open spec fn eq_spec(&self, other: &GameToClient) -> bool {
        self@ == other@
    }
}

impl PartialEq for ClientToGame {
    fn eq(&self, other: &ClientToGame) -> (r: bool) {
        self.same_as(other)
    }
}

impl vstd::std_specs::cmp::PartialEqSpecImpl for ClientToGame {
    open spec fn obeys_eq_spec() -> bool {
        true
    }

    open spec fn eq_spec(&self, other: &ClientToGame) -> bool {
        self@ == other@
    }
}

} // verus!

verus! {

fn copy_items<T: Copy>(a: &Vec<T>) -> (r: Vec<T>)
    ensures
        r@ == a@,
{
    let mut out: Vec<T> = Vec::new();
    let mut i: usize = 0;
    while i < a.len()
        invariant
            i <= a@.len(),
            out@ == a@.subrange(0, i as int),
        decreases a@.len() - i,
    {
        out.push(a[i]);
        i = i + 1;
    }
    assert(out@ =~= a@);
    out
}

fn copy_score_table(a: &Vec<(String, u8)>) -> (r: Vec<(String, u8)>)
    ensures
        scores_view(r@) == scores_view(a@),
{
    let mut out: Vec<(String, u8)> = Vec::new();
    let mut i: usize = 0;
    while i < a.len()
        invariant
            i <= a@.len(),
            out@.len() == i,
            scores_view(out@) == scores_view(a@).subrange(0, i as int),
        decreases a@.len() - i,
    {
        let name = a[i].0.clone();
        let ghost before = out@;
        out.push((name, a[i].1));
        assert forall|j: int| 0 <= j <= i implies scores_view(out@)[j] == scores_view(
            a@,
        ).subrange(0, i as int + 1)[j] by {
            if j < i {
                assert(out@[j] == before[j]);
                assert(scores_view(before)[j] == scores_view(a@).subrange(0, i as int)[j]);
            }
        }
        assert(scores_view(out@) =~= scores_view(a@).subrange(0, i as int + 1));
        i = i + 1;
    }
    assert(scores_view(out@) =~= scores_view(a@));
    out
}

impl GameToClient {
    /// A copy of the message with the same meaning.
    pub fn duplicate(&self) -> (r: GameToClient)
        ensures
            r@ == self@,
    {
        match self {
            GameToClient::DeniedTableFull => GameToClient::DeniedTableFull,
            GameToClient::WaitName => GameToClient::WaitName,
            GameToClient::PlayerJoinNotification { name, number, of } =>
                GameToClient::PlayerJoinNotification { name: name.clone(), number: *number, of: *of },
            GameToClient::WaitInitialCut => GameToClient::WaitInitialCut,
            GameToClient::InitialCutResult { name, card } => GameToClient::InitialCutResult {
                name: name.clone(),
                card: *card,
            },
            GameToClient::InitialCutSuccess(n) => GameToClient::InitialCutSuccess(n.clone()),
            GameToClient::InitialCutFailure => GameToClient::InitialCutFailure,
            GameToClient::WaitDeal => GameToClient::WaitDeal,
            GameToClient::Dealing => GameToClient::Dealing,
            GameToClient::DealtHand(h) => GameToClient::DealtHand(copy_items(h)),
            GameToClient::WaitDiscardOne => GameToClient::WaitDiscardOne,
            GameToClient::WaitDiscardTwo => GameToClient::WaitDiscardTwo,
            GameToClient::DiscardPlacedOne(n) => GameToClient::DiscardPlacedOne(n.clone()),
            GameToClient::DiscardPlacedTwo(n) => GameToClient::DiscardPlacedTwo(n.clone()),
            GameToClient::AllDiscards => GameToClient::AllDiscards,
            GameToClient::WaitCutStarter => GameToClient::WaitCutStarter,
            GameToClient::CutStarter(n, c) => GameToClient::CutStarter(n.clone(), *c),
            GameToClient::WaitNibs => GameToClient::WaitNibs,
            GameToClient::Nibs => GameToClient::Nibs,
            GameToClient::CardPlayed { name, card, scores } => GameToClient::CardPlayed {
                name: name.clone(),
                card: *card,
                scores: copy_items(scores),
            },
            GameToClient::WaitPlay(v) => GameToClient::WaitPlay(copy_items(v)),
            GameToClient::WaitPlayScore => GameToClient::WaitPlayScore,
            GameToClient::InvalidPlayScoring => GameToClient::InvalidPlayScoring,
            GameToClient::IncompletePlayScoring => GameToClient::IncompletePlayScoring,
            GameToClient::ScoreUpdate(v) => GameToClient::ScoreUpdate(copy_score_table(v)),
            GameToClient::Error(s) => GameToClient::Error(s.clone()),
            GameToClient::Disconnect => GameToClient::Disconnect,
        }
    }

    /// The player a message is about, for the kinds that name one.
    pub fn subject(&self) -> (r: Option<&String>)
        ensures
            match r {
                Some(n) => subject_of(self@) == Some(n@),
                None => subject_of(self@) is None,
            },
    {
        match self {
            GameToClient::InitialCutResult { name, .. } => Some(name),
            GameToClient::InitialCutSuccess(n) => Some(n),
            GameToClient::DiscardPlacedOne(n) => Some(n),
            GameToClient::DiscardPlacedTwo(n) => Some(n),
            GameToClient::CutStarter(n, _) => Some(n),
            GameToClient::CardPlayed { name, .. } => Some(name),
            _ => None,
        }
    }
}

/// The player a message reports on: who cut, won the cut, discarded, cut
/// the starter or played a card.
pub open spec fn subject_of(m: ServerMessage) -> Option<Seq<char>> {
    match m {
        ServerMessage::InitialCutResult(n, _) => Some(n),
        ServerMessage::InitialCutSuccess(n) => Some(n),
        ServerMessage::DiscardPlacedOne(n) => Some(n),
        ServerMessage::DiscardPlacedTwo(n) => Some(n),
        ServerMessage::CutStarter(n, _) => Some(n),
        ServerMessage::CardPlayed(n, _, _) => Some(n),
        _ => None,
    }
}

} // verus!
