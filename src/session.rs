use crate::message::{subject_of, ClientMessage, ClientToGame, GameToClient, ServerMessage};
use vstd::prelude::*;

verus! {

/// Where a session stands between two events.
#[derive(Clone, Copy, Debug, PartialEq, Eq, Structural)]
pub enum Phase {
    /// Blocking reads; each message is answered as it comes.
    Receiving,
    /// A press-to-continue prompt is up; a keypress sends the confirmation.
    AwaitingKeypress,
    /// One card is to be discarded; `sent` once the local choice went out.
    DiscardingOne { sent: bool },
    /// Two cards are to be discarded: the first local choice, held back
    /// until the second arrives, and whether the pair went out.
    DiscardingTwo { first: Option<u8>, sent: bool },
    /// The table said goodbye.
    Ended,
    /// The session stopped on a fatal error.
    Failed,
}

/// The press-to-continue prompts.
#[derive(Clone, Copy, Debug, PartialEq, Eq, Structural)]
pub enum Prompt {
    CutDeck,
    DealHands,
    CutStarter,
}

/// Why a session cannot go on.
#[derive(Clone, Copy, Debug, PartialEq, Eq, Structural)]
pub enum SessionError {
    /// A frame from the table could not be decoded.
    ProtocolViolation,
    /// The table sent a message that has no place where the session stands.
    UnexpectedMessage,
    /// The event cannot happen in the session's phase (a keypress with no
    /// prompt up, a message after the end).
    OutOfTurn,
}

/// What the driver hands the session.
#[derive(Debug)]
pub enum Event {
    /// A decoded message from the table.
    Message(GameToClient),
    /// A frame that did not decode.
    Malformed,
    /// A non-blocking read found nothing yet.
    Idle,
    /// The player pressed return at a prompt.
    Keypress,
    /// The discard collector handed over a card index.
    LocalIndex(u8),
}

/// What the session asks the driver to do, in order.
#[derive(Debug)]
pub enum Action {
    /// Show the message to the player; `about_you` when the player it
    /// names is the local one.
    Show { message: GameToClient, about_you: bool },
    /// Put up a prompt and report the keypress.
    AwaitKeypress(Prompt),
    /// Send this message to the table.
    Send(ClientToGame),
    /// Start collecting this many discard indices from the player, and read
    /// without blocking until the discards are done.
    StartDiscards(u8),
}

/// What an `Event` means.
pub enum EventModel {
    Message(ServerMessage),
    Malformed,
    Idle,
    Keypress,
    LocalIndex(u8),
}

/// What an `Action` means.
pub enum ActionModel {
    Show(ServerMessage, bool),
    AwaitKeypress(Prompt),
    Send(ClientMessage),
    StartDiscards(u8),
}

impl View for Event {
    type V = EventModel;

    open spec fn view(&self) -> EventModel {
        match self {
            Event::Message(m) => EventModel::Message(m@),
            Event::Malformed => EventModel::Malformed,
            Event::Idle => EventModel::Idle,
            Event::Keypress => EventModel::Keypress,
            Event::LocalIndex(i) => EventModel::LocalIndex(*i),
        }
    }
}

impl View for Action {
    type V = ActionModel;

    open spec fn view(&self) -> ActionModel {
        match self {
            Action::Show { message, about_you } => ActionModel::Show(message@, *about_you),
            Action::AwaitKeypress(p) => ActionModel::AwaitKeypress(*p),
            Action::Send(m) => ActionModel::Send(m@),
            Action::StartDiscards(n) => ActionModel::StartDiscards(*n),
        }
    }
}

/// What a session is: the local player's name, the last message taken in,
/// and the phase.
pub struct SessionView {
    pub user: Seq<char>,
    pub last: Option<ServerMessage>,
    pub phase: Phase,
}

/// The outcome of one step, as values.
pub type Outcome = Result<Seq<ActionModel>, SessionError>;

/// The meaning of each action of a list.
pub open spec fn actions_view(v: Seq<Action>) -> Seq<ActionModel> {
    v.map_values(|a: Action| a@)
}

pub open spec fn outcome_view(r: Result<Vec<Action>, SessionError>) -> Outcome {
    match r {
        Ok(v) => Ok(actions_view(v@)),
        Err(e) => Err(e),
    }
}

/// Showing a message to a player named `user`.
pub open spec fn show(user: Seq<char>, m: ServerMessage) -> ActionModel {
    ActionModel::Show(m, subject_of(m) == Some(user))
}

/// The phases in which the session reads from the table.
pub open spec fn reading(p: Phase) -> bool {
    p is Receiving || p is DiscardingOne || p is DiscardingTwo
}

/// The phases in which the discards are being placed.
pub open spec fn discarding(p: Phase) -> bool {
    p is DiscardingOne || p is DiscardingTwo
}

/// How a new message is answered outside the discard phase: the next phase
/// and what to do.
pub open spec fn answer(user: Seq<char>, m: ServerMessage) -> (Phase, Outcome) {
    match m {
        ServerMessage::WaitName => (
            Phase::Receiving,
            Ok(seq![ActionModel::Send(ClientMessage::Name(user))]),
        ),
        ServerMessage::WaitInitialCut => (
            Phase::AwaitingKeypress,
            Ok(seq![ActionModel::AwaitKeypress(Prompt::CutDeck)]),
        ),
        ServerMessage::WaitDeal => (
            Phase::AwaitingKeypress,
            Ok(seq![ActionModel::AwaitKeypress(Prompt::DealHands)]),
        ),
        ServerMessage::WaitCutStarter => (
            Phase::AwaitingKeypress,
            Ok(seq![ActionModel::AwaitKeypress(Prompt::CutStarter)]),
        ),
        ServerMessage::WaitDiscardOne => (
            Phase::DiscardingOne { sent: false },
            Ok(seq![ActionModel::StartDiscards(1)]),
        ),
        ServerMessage::WaitDiscardTwo => (
            Phase::DiscardingTwo { first: None, sent: false },
            Ok(seq![ActionModel::StartDiscards(2)]),
        ),
        ServerMessage::Disconnect => (Phase::Ended, Ok(seq![show(user, m)])),
        ServerMessage::DiscardPlacedOne(_)
        | ServerMessage::DiscardPlacedTwo(_)
        | ServerMessage::AllDiscards
        | ServerMessage::WaitNibs
        | ServerMessage::WaitPlay(_)
        | ServerMessage::WaitPlayScore => (Phase::Failed, Err(SessionError::UnexpectedMessage)),
        _ => (Phase::Receiving, Ok(seq![show(user, m)])),
    }
}

/// How a new message is answered while the discards are being placed:
/// placements are shown, the end of the discards and the end of the game
/// close the phase, anything else is passed over.
pub open spec fn answer_discarding(p: Phase, user: Seq<char>, m: ServerMessage) -> (
    Phase,
    Outcome,
) {
    match m {
        ServerMessage::Disconnect => (Phase::Ended, Ok(seq![show(user, m)])),
        ServerMessage::AllDiscards => (Phase::Receiving, Ok(seq![show(user, m)])),
        ServerMessage::DiscardPlacedOne(_) | ServerMessage::DiscardPlacedTwo(_) => (
            p,
            Ok(seq![show(user, m)]),
        ),
        _ => (p, Ok(Seq::empty())),
    }
}

/// How a discard index chosen by the local player is taken in.
pub open spec fn take_index(p: Phase, i: u8) -> (Phase, Outcome) {
    match p {
        Phase::DiscardingOne { sent } => if sent {
            (p, Ok(Seq::empty()))
        } else {
            (
                Phase::DiscardingOne { sent: true },
                Ok(seq![ActionModel::Send(ClientMessage::DiscardOne(i))]),
            )
        },
        Phase::DiscardingTwo { first, sent } => match first {
            None => (Phase::DiscardingTwo { first: Some(i), sent }, Ok(Seq::empty())),
            Some(f) => if sent {
                (p, Ok(Seq::empty()))
            } else {
                (
                    Phase::DiscardingTwo { first, sent: true },
                    Ok(seq![ActionModel::Send(ClientMessage::DiscardTwo(f, i))]),
                )
            },
        },
        _ => (p, Err(SessionError::OutOfTurn)),
    }
}

impl SessionView {
    /// The session with another phase and last message.
    pub open spec fn with(self, p: Phase, last: Option<ServerMessage>) -> SessionView {
        SessionView { user: self.user, last, phase: p }
    }

    /// The session's invariant: the last message taken in was the goodbye
    /// only once the session has ended; the discard phase is never entered
    /// on its own closing message; a pair of discards goes out only after its
    /// first index is held.
    pub open spec fn wf(self) -> bool {
        &&& self.last == Some(ServerMessage::Disconnect) ==> self.phase is Ended
        &&& discarding(self.phase) ==> self.last != Some(ServerMessage::AllDiscards)
        &&& (self.phase matches Phase::DiscardingTwo { first, sent } ==> (first is None
            ==> !sent))
    }
}

/// One step of the session: receive, compare with the last message, answer,
/// record.
pub open spec fn next(s: SessionView, e: EventModel) -> (SessionView, Outcome) {
    match e {
        EventModel::Message(m) => if s.last == Some(m) {
            (s, Ok(Seq::empty()))
        } else if s.phase is Receiving {
            let (p, r) = answer(s.user, m);
            (s.with(p, Some(m)), r)
        } else if discarding(s.phase) {
            let (p, r) = answer_discarding(s.phase, s.user, m);
            (s.with(p, Some(m)), r)
        } else {
            (s, Err(SessionError::OutOfTurn))
        },
        EventModel::Malformed => if reading(s.phase) {
            (s.with(Phase::Failed, s.last), Err(SessionError::ProtocolViolation))
        } else {
            (s, Err(SessionError::OutOfTurn))
        },
        EventModel::Idle => if discarding(s.phase) {
            (s, Ok(Seq::empty()))
        } else {
            (s, Err(SessionError::OutOfTurn))
        },
        EventModel::Keypress => if s.phase is AwaitingKeypress {
            (
                s.with(Phase::Receiving, s.last),
                Ok(seq![ActionModel::Send(ClientMessage::Confirmation)]),
            )
        } else {
            (s, Err(SessionError::OutOfTurn))
        },
        EventModel::LocalIndex(i) => {
            let (p, r) = take_index(s.phase, i);
            (s.with(p, s.last), r)
        },
    }
}

} // verus!

verus! {

/// A client session with the table: the state machine that decides how each
/// event is answered. The driver around it performs the actions it returns.
pub struct Session {
    user: String,
    last: Option<GameToClient>,
    phase: Phase,
}

/// The meaning of the last message taken in, if any.
pub open spec fn last_view(m: Option<GameToClient>) -> Option<ServerMessage> {
    match m {
        Some(m) => Some(m@),
        None => None,
    }
}

impl View for Session {
    type V = SessionView;

    closed spec fn view(&self) -> SessionView {
        SessionView { user: self.user@, last: last_view(self.last), phase: self.phase }
    }
}

fn single(a: Action) -> (r: Vec<Action>)
    ensures
        actions_view(r@) == seq![a@],
{
    let mut v: Vec<Action> = Vec::new();
    v.push(a);
    assert(actions_view(v@) =~= seq![a@]);
    v
}

fn nothing() -> (r: Vec<Action>)
    ensures
        actions_view(r@) == Seq::<ActionModel>::empty(),
{
    let v: Vec<Action> = Vec::new();
    assert(actions_view(v@) =~= Seq::<ActionModel>::empty());
    v
}

impl Session {
    /// A session for the player named `user`, before any message.
    pub fn new(user: String) -> (r: Session)
        ensures
            r@ == (SessionView { user: user@, last: None, phase: Phase::Receiving }),
            r@.wf(),
    {
        Session { user, last: None, phase: Phase::Receiving }
    }

    /// The phase the session is in.
    pub fn phase(&self) -> (r: Phase)
        ensures
            r == self@.phase,
    {
        self.phase
    }

    /// Whether reads from the table must not block: while the discards are
    /// placed the driver also watches the player's choices.
    pub fn polls(&self) -> (r: bool)
        ensures
            r == discarding(self@.phase),
    {
        match self.phase {
            Phase::DiscardingOne { .. } | Phase::DiscardingTwo { .. } => true,
            _ => false,
        }
    }

    /// Whether the session is over, by a goodbye or by a fatal error.
    pub fn is_over(&self) -> (r: bool)
        ensures
            r == (self@.phase is Ended || self@.phase is Failed),
    {
        match self.phase {
            Phase::Ended | Phase::Failed => true,
            _ => false,
        }
    }

    fn show(&self, m: &GameToClient) -> (r: Action)
        ensures
            r@ == show(self.user@, m@),
    {
        let about_you = match m.subject() {
            Some(n) => *n == self.user,
            None => false,
        };
        Action::Show { message: m.duplicate(), about_you }
    }

    fn answer(&self, m: &GameToClient) -> (r: (Phase, Result<Vec<Action>, SessionError>))
        ensures
            (r.0, outcome_view(r.1)) == answer(self.user@, m@),
    {
        match m {
            GameToClient::WaitName => (
                Phase::Receiving,
                Ok(single(Action::Send(ClientToGame::Name(self.user.clone())))),
            ),
            GameToClient::WaitInitialCut => (
                Phase::AwaitingKeypress,
                Ok(single(Action::AwaitKeypress(Prompt::CutDeck))),
            ),
            GameToClient::WaitDeal => (
                Phase::AwaitingKeypress,
                Ok(single(Action::AwaitKeypress(Prompt::DealHands))),
            ),
            GameToClient::WaitCutStarter => (
                Phase::AwaitingKeypress,
                Ok(single(Action::AwaitKeypress(Prompt::CutStarter))),
            ),
            GameToClient::WaitDiscardOne => (
                Phase::DiscardingOne { sent: false },
                Ok(single(Action::StartDiscards(1))),
            ),
            GameToClient::WaitDiscardTwo => (
                Phase::DiscardingTwo { first: None, sent: false },
                Ok(single(Action::StartDiscards(2))),
            ),
            GameToClient::Disconnect => (Phase::Ended, Ok(single(self.show(m)))),
            GameToClient::DiscardPlacedOne(_)
            | GameToClient::DiscardPlacedTwo(_)
            | GameToClient::AllDiscards
            | GameToClient::WaitNibs
            | GameToClient::WaitPlay(_)
            | GameToClient::WaitPlayScore => (Phase::Failed, Err(SessionError::UnexpectedMessage)),
            _ => (Phase::Receiving, Ok(single(self.show(m)))),
        }
    }

    fn answer_discarding(&self, m: &GameToClient) -> (r: (Phase, Result<Vec<Action>, SessionError>))
        ensures
            (r.0, outcome_view(r.1)) == answer_discarding(self.phase, self.user@, m@),
    {
        match m {
            GameToClient::Disconnect => (Phase::Ended, Ok(single(self.show(m)))),
            GameToClient::AllDiscards => (Phase::Receiving, Ok(single(self.show(m)))),
            GameToClient::DiscardPlacedOne(_) | GameToClient::DiscardPlacedTwo(_) => (
                self.phase,
                Ok(single(self.show(m))),
            ),
            _ => (self.phase, Ok(nothing())),
        }
    }

    fn take_index(&self, i: u8) -> (r: (Phase, Result<Vec<Action>, SessionError>))
        ensures
            (r.0, outcome_view(r.1)) == take_index(self.phase, i),
    {
        match self.phase {
            Phase::DiscardingOne { sent } => if sent {
                (self.phase, Ok(nothing()))
            } else {
                (
                    Phase::DiscardingOne { sent: true },
                    Ok(single(Action::Send(ClientToGame::DiscardOne { index: i }))),
                )
            },
            Phase::DiscardingTwo { first, sent } => match first {
                None => (Phase::DiscardingTwo { first: Some(i), sent }, Ok(nothing())),
                Some(f) => if sent {
                    (self.phase, Ok(nothing()))
                } else {
                    (
                        Phase::DiscardingTwo { first, sent: true },
                        Ok(single(Action::Send(ClientToGame::DiscardTwo { index_one: f, index_two: i }))),
                    )
                },
            },
            _ => (self.phase, Err(SessionError::OutOfTurn)),
        }
    }

    /// Takes one event in: a message the same as the last one is passed over
    /// with nothing done; otherwise the event is answered by the actions
    /// returned, to be performed in order, or by the error that ends the
    /// session.
    pub fn step(&mut self, e: Event) -> (r: Result<Vec<Action>, SessionError>)
        ensures
            (final(self)@, outcome_view(r)) == next(old(self)@, e@),
            old(self)@.wf() ==> final(self)@.wf(),
    {
        match e {
            Event::Message(m) => {
                let repeated = match &self.last {
                    Some(l) => l.same_as(&m),
                    None => false,
                };
                if repeated {
                    return Ok(nothing());
                }
                let (p, r) = match self.phase {
                    Phase::Receiving => self.answer(&m),
                    Phase::DiscardingOne { .. } | Phase::DiscardingTwo { .. } => {
                        self.answer_discarding(&m)
                    },
                    _ => return Err(SessionError::OutOfTurn),
                };
                self.phase = p;
                self.last = Some(m);
                r
            },
            Event::Malformed => match self.phase {
                Phase::Receiving | Phase::DiscardingOne { .. } | Phase::DiscardingTwo { .. } => {
                    self.phase = Phase::Failed;
                    Err(SessionError::ProtocolViolation)
                },
                _ => Err(SessionError::OutOfTurn),
            },
            Event::Idle => match self.phase {
                Phase::DiscardingOne { .. } | Phase::DiscardingTwo { .. } => Ok(nothing()),
                _ => Err(SessionError::OutOfTurn),
            },
            Event::Keypress => match self.phase {
                Phase::AwaitingKeypress => {
                    self.phase = Phase::Receiving;
                    Ok(single(Action::Send(ClientToGame::Confirmation)))
                },
                _ => Err(SessionError::OutOfTurn),
            },
            Event::LocalIndex(i) => {
                let (p, r) = self.take_index(i);
                self.phase = p;
                r
            },
        }
    }
}

} // verus!

verus! {

/// Runs a session through a sequence of events, stopping at the first
/// error: the state reached, the actions asked for, and the error if one
/// stopped it.
pub open spec fn run(s: SessionView, evs: Seq<EventModel>) -> (
    SessionView,
    Seq<ActionModel>,
    Option<SessionError>,
)
    decreases evs.len(),
{
    if evs.len() == 0 {
        (s, Seq::empty(), None)
    } else {
        let (s1, r) = next(s, evs[0]);
        match r {
            Ok(acts) => {
                let (s2, more, err) = run(s1, evs.drop_first());
                (s2, acts + more, err)
            },
            Err(e) => (s1, Seq::empty(), Some(e)),
        }
    }
}

/// The messages sent to the table by a sequence of actions, in order.
pub open spec fn sent(acts: Seq<ActionModel>) -> Seq<ClientMessage>
    decreases acts.len(),
{
    if acts.len() == 0 {
        Seq::empty()
    } else {
        let rest = sent(acts.drop_first());
        match acts[0] {
            ActionModel::Send(m) => seq![m] + rest,
            _ => rest,
        }
    }
}

/// The discard indices the player chose, in the order they arrived.
pub open spec fn local_indices(evs: Seq<EventModel>) -> Seq<u8>
    decreases evs.len(),
{
    if evs.len() == 0 {
        Seq::empty()
    } else {
        let rest = local_indices(evs.drop_first());
        match evs[0] {
            EventModel::LocalIndex(i) => seq![i] + rest,
            _ => rest,
        }
    }
}

/// The events that leave a discard phase open: idle polls, the player's
/// choices, and any message but the end of the discards or of the game.
pub open spec fn keeps_discarding(e: EventModel) -> bool {
    match e {
        EventModel::Idle => true,
        EventModel::LocalIndex(_) => true,
        EventModel::Message(m) => m != ServerMessage::AllDiscards && m
            != ServerMessage::Disconnect,
        _ => false,
    }
}

proof fn lemma_sent_concat(a: Seq<ActionModel>, b: Seq<ActionModel>)
    ensures
        sent(a + b) == sent(a) + sent(b),
    decreases a.len(),
{
    if a.len() == 0 {
        assert(a + b =~= b);
        assert(sent(a) + sent(b) =~= sent(b));
    } else {
        assert((a + b).drop_first() =~= a.drop_first() + b);
        lemma_sent_concat(a.drop_first(), b);
        assert((a + b)[0] == a[0]);
        match a[0] {
            ActionModel::Send(m) => {
                assert(seq![m] + (sent(a.drop_first()) + sent(b)) =~= (seq![m] + sent(
                    a.drop_first(),
                )) + sent(b));
            },
            _ => {},
        }
    }
}

/// Every step keeps the session's invariant.
pub proof fn lemma_step_keeps_invariant(s: SessionView, e: EventModel)
    requires
        s.wf(),
    ensures
        next(s, e).0.wf(),
{
}

/// A message the same as the one before it is passed over: nothing is
/// shown, nothing is sent, and the session does not change.
pub proof fn lemma_repeat_is_silent(s: SessionView, m: ServerMessage)
    requires
        s.last == Some(m),
    ensures
        next(s, EventModel::Message(m)) == (s, Ok::<Seq<ActionModel>, SessionError>(
            Seq::empty(),
        )),
{
}

/// The goodbye ends a session wherever it reads from the table, the very
/// first message included, and it is no error.
pub proof fn lemma_disconnect_ends(s: SessionView)
    requires
        s.wf(),
        reading(s.phase),
    ensures
        next(s, EventModel::Message(ServerMessage::Disconnect)) == (s.with(
            Phase::Ended,
            Some(ServerMessage::Disconnect),
        ), Ok::<Seq<ActionModel>, SessionError>(
            seq![ActionModel::Show(ServerMessage::Disconnect, false)],
        )),
{
}

/// A frame that does not decode stops a reading session with a protocol
/// violation.
pub proof fn lemma_malformed_is_fatal(s: SessionView)
    requires
        reading(s.phase),
    ensures
        next(s, EventModel::Malformed).0.phase == Phase::Failed,
        next(s, EventModel::Malformed).1 == Err::<Seq<ActionModel>, SessionError>(
            SessionError::ProtocolViolation,
        ),
{
}

/// While discards are placed, another placement is shown and the phase
/// stays open.
pub proof fn lemma_placement_is_shown(s: SessionView, m: ServerMessage)
    requires
        discarding(s.phase),
        m is DiscardPlacedOne || m is DiscardPlacedTwo,
        s.last != Some(m),
    ensures
        next(s, EventModel::Message(m)) == (s.with(s.phase, Some(m)), Ok::<
            Seq<ActionModel>,
            SessionError,
        >(seq![show(s.user, m)])),
{
}

/// The end of the discards closes the discard phase and the session reads
/// on as before.
pub proof fn lemma_all_discards_close(s: SessionView)
    requires
        s.wf(),
        discarding(s.phase),
    ensures
        next(s, EventModel::Message(ServerMessage::AllDiscards)) == (s.with(
            Phase::Receiving,
            Some(ServerMessage::AllDiscards),
        ), Ok::<Seq<ActionModel>, SessionError>(
            seq![ActionModel::Show(ServerMessage::AllDiscards, false)],
        )),
{
}

/// In the one-card discard phase, whatever comes before the end of the
/// discards leaves the phase open, and exactly one discard goes out, with
/// the player's first choice, once the player has chosen.
pub proof fn lemma_single_discard(s: SessionView, evs: Seq<EventModel>)
    requires
        s.phase is DiscardingOne,
        forall|k: int| 0 <= k < evs.len() ==> keeps_discarding(#[trigger] evs[k]),
    ensures
        run(s, evs).2 is None,
        run(s, evs).0.phase == (Phase::DiscardingOne {
            sent: s.phase->DiscardingOne_sent || local_indices(evs).len() > 0,
        }),
        sent(run(s, evs).1) == if !s.phase->DiscardingOne_sent && local_indices(evs).len() > 0 {
            seq![ClientMessage::DiscardOne(local_indices(evs)[0])]
        } else {
            Seq::empty()
        },
    decreases evs.len(),
{
    if evs.len() > 0 {
        let (s1, r) = next(s, evs[0]);
        let rest = evs.drop_first();
        assert forall|k: int| 0 <= k < rest.len() implies keeps_discarding(#[trigger] rest[k]) by {
            assert(rest[k] == evs[k + 1]);
        }
        assert(keeps_discarding(evs[0]));
        lemma_single_discard(s1, rest);
        let acts = r->Ok_0;
        lemma_sent_concat(acts, run(s1, rest).1);
        match evs[0] {
            EventModel::LocalIndex(i) => {
                if !s.phase->DiscardingOne_sent {
                    assert(sent(acts) == seq![ClientMessage::DiscardOne(i)] + sent(
                        acts.drop_first(),
                    ));
                    assert(sent(acts) =~= seq![ClientMessage::DiscardOne(i)]);
                } else {
                    assert(sent(acts) =~= Seq::<ClientMessage>::empty());
                }
            },
            EventModel::Message(m) => {
                if acts.len() > 0 {
                    assert(acts.len() == 1 && acts[0] is Show);
                    assert(acts.drop_first() =~= Seq::<ActionModel>::empty());
                    assert(sent(acts.drop_first()) =~= Seq::<ClientMessage>::empty());
                }
                assert(sent(acts) =~= Seq::<ClientMessage>::empty());
            },
            _ => {
                assert(sent(acts) =~= Seq::<ClientMessage>::empty());
            },
        }
        assert(sent(acts) + sent(run(s1, rest).1) =~= sent(run(s, evs).1));
    }
}

} // verus!

verus! {

/// The local discard index a two-card phase already holds.
pub open spec fn held(p: Phase) -> Seq<u8> {
    match p {
        Phase::DiscardingTwo { first: Some(f), .. } => seq![f],
        _ => Seq::empty(),
    }
}

/// The local choices of a two-card phase: those held, then those to come.
pub open spec fn chosen(s: SessionView, evs: Seq<EventModel>) -> Seq<u8> {
    held(s.phase) + local_indices(evs)
}

/// In the two-card discard phase, whatever comes before the end of the
/// discards leaves the phase open; the pair is held back until the player
/// has chosen two cards, and then goes out exactly once, as one message with
/// the first two choices in order.
pub proof fn lemma_double_discard(s: SessionView, evs: Seq<EventModel>)
    requires
        s.wf(),
        s.phase is DiscardingTwo,
        forall|k: int| 0 <= k < evs.len() ==> keeps_discarding(#[trigger] evs[k]),
    ensures
        run(s, evs).2 is None,
        run(s, evs).0.phase == (Phase::DiscardingTwo {
            first: if chosen(s, evs).len() > 0 {
                Some(chosen(s, evs)[0])
            } else {
                None
            },
            sent: s.phase->DiscardingTwo_sent || chosen(s, evs).len() >= 2,
        }),
        sent(run(s, evs).1) == if !s.phase->DiscardingTwo_sent && chosen(s, evs).len() >= 2 {
            seq![ClientMessage::DiscardTwo(chosen(s, evs)[0], chosen(s, evs)[1])]
        } else {
            Seq::empty()
        },
    decreases evs.len(),
{
    if evs.len() == 0 {
        assert(chosen(s, evs) =~= held(s.phase));
    } else {
        let (s1, r) = next(s, evs[0]);
        let rest = evs.drop_first();
        assert forall|k: int| 0 <= k < rest.len() implies keeps_discarding(#[trigger] rest[k]) by {
            assert(rest[k] == evs[k + 1]);
        }
        assert(keeps_discarding(evs[0]));
        lemma_step_keeps_invariant(s, evs[0]);
        lemma_double_discard(s1, rest);
        let acts = r->Ok_0;
        lemma_sent_concat(acts, run(s1, rest).1);
        match evs[0] {
            EventModel::LocalIndex(i) => {
                assert(local_indices(evs) == seq![i] + local_indices(rest));
                match s.phase->DiscardingTwo_first {
                    None => {
                        assert(chosen(s1, rest) =~= chosen(s, evs));
                        assert(sent(acts) =~= Seq::<ClientMessage>::empty());
                    },
                    Some(f) => {
                        assert(chosen(s, evs) =~= seq![f, i] + local_indices(rest));
                        assert(chosen(s1, rest) =~= seq![f] + local_indices(rest));
                        if !s.phase->DiscardingTwo_sent {
                            assert(sent(acts) == seq![ClientMessage::DiscardTwo(f, i)] + sent(
                                acts.drop_first(),
                            ));
                            assert(sent(acts) =~= seq![ClientMessage::DiscardTwo(f, i)]);
                        } else {
                            assert(sent(acts) =~= Seq::<ClientMessage>::empty());
                        }
                    },
                }
            },
            EventModel::Message(m) => {
                assert(local_indices(evs) == local_indices(rest));
                assert(chosen(s1, rest) =~= chosen(s, evs));
                if acts.len() > 0 {
                    assert(acts.len() == 1 && acts[0] is Show);
                    assert(acts.drop_first() =~= Seq::<ActionModel>::empty());
                    assert(sent(acts.drop_first()) =~= Seq::<ClientMessage>::empty());
                }
                assert(sent(acts) =~= Seq::<ClientMessage>::empty());
            },
            _ => {
                assert(local_indices(evs) == local_indices(rest));
                assert(chosen(s1, rest) =~= chosen(s, evs));
                assert(sent(acts) =~= Seq::<ClientMessage>::empty());
            },
        }
        assert(sent(acts) + sent(run(s1, rest).1) =~= sent(run(s, evs).1));
    }
}

} // verus!
