use cribbage_client::{
    Action, Card, ClientToGame, Event, GameToClient, Phase, Prompt, Rank, ScoreEvent, ScoreKind,
    Session, SessionError, Suit,
};

fn sends(actions: &[Action]) -> Vec<&ClientToGame> {
    actions
        .iter()
        .filter_map(|a| match a {
            Action::Send(m) => Some(m),
            _ => None,
        })
        .collect()
}

fn feed(s: &mut Session, m: GameToClient) -> Vec<Action> {
    s.step(Event::Message(m)).expect("the session goes on")
}

#[test]
fn cut_prompt_then_keypress_sends_one_confirmation() {
    let mut s = Session::new("alice".to_string());
    let acts = feed(&mut s, GameToClient::WaitInitialCut);
    assert_eq!(acts.len(), 1);
    assert!(matches!(acts[0], Action::AwaitKeypress(Prompt::CutDeck)));
    assert_eq!(s.phase(), Phase::AwaitingKeypress);
    let acts = s.step(Event::Keypress).unwrap();
    assert_eq!(acts.len(), 1);
    assert!(matches!(acts[0], Action::Send(ClientToGame::Confirmation)));
    assert_eq!(s.phase(), Phase::Receiving);
}

#[test]
fn scripted_cut_sequence_sends_name_then_confirmation() {
    let mut s = Session::new("alice".to_string());
    let script = vec![
        Event::Message(GameToClient::WaitName),
        Event::Message(GameToClient::PlayerJoinNotification {
            name: "alice".to_string(),
            number: 1,
            of: 2,
        }),
        Event::Message(GameToClient::WaitInitialCut),
        Event::Keypress,
        Event::Message(GameToClient::InitialCutResult {
            name: "alice".to_string(),
            card: Card(Rank::Ace, Suit::Spades),
        }),
        Event::Message(GameToClient::InitialCutFailure),
        Event::Message(GameToClient::InitialCutResult {
            name: "alice".to_string(),
            card: Card(Rank::King, Suit::Hearts),
        }),
        Event::Message(GameToClient::InitialCutSuccess("alice".to_string())),
        Event::Message(GameToClient::Disconnect),
    ];
    let mut out: Vec<Action> = Vec::new();
    for e in script {
        assert!(!s.is_over());
        out.extend(s.step(e).unwrap());
    }
    assert!(s.is_over());
    assert_eq!(s.phase(), Phase::Ended);
    let sent = sends(&out);
    assert_eq!(sent.len(), 2);
    assert!(*sent[0] == ClientToGame::Name("alice".to_string()));
    assert!(*sent[1] == ClientToGame::Confirmation);
    assert!(matches!(
        out.last(),
        Some(Action::Show { message: GameToClient::Disconnect, about_you: false })
    ));
}

#[test]
fn disconnect_as_first_message_ends_without_error() {
    let mut s = Session::new("alice".to_string());
    let acts = feed(&mut s, GameToClient::Disconnect);
    assert_eq!(acts.len(), 1);
    assert!(sends(&acts).is_empty());
    assert_eq!(s.phase(), Phase::Ended);
    assert!(s.is_over());
}

#[test]
fn disconnect_during_discards_ends() {
    let mut s = Session::new("alice".to_string());
    feed(&mut s, GameToClient::WaitDiscardTwo);
    feed(&mut s, GameToClient::Disconnect);
    assert_eq!(s.phase(), Phase::Ended);
}

#[test]
fn malformed_frame_is_a_protocol_violation() {
    let mut s = Session::new("alice".to_string());
    assert_eq!(s.step(Event::Malformed).unwrap_err(), SessionError::ProtocolViolation);
    assert_eq!(s.phase(), Phase::Failed);
    assert!(s.is_over());
    assert_eq!(s.step(Event::Malformed).unwrap_err(), SessionError::OutOfTurn);
}

#[test]
fn repeated_message_has_no_effect() {
    let mut s = Session::new("alice".to_string());
    let first = feed(&mut s, GameToClient::WaitName);
    assert_eq!(sends(&first).len(), 1);
    let again = feed(&mut s, GameToClient::WaitName);
    assert!(again.is_empty());
    let shown = feed(&mut s, GameToClient::Error("oops".to_string()));
    assert_eq!(shown.len(), 1);
    assert!(feed(&mut s, GameToClient::Error("oops".to_string())).is_empty());
    assert_eq!(feed(&mut s, GameToClient::Error("other".to_string())).len(), 1);
}

#[test]
fn repeated_hand_is_shown_once() {
    let mut s = Session::new("alice".to_string());
    let hand = vec![Card(Rank::Two, Suit::Clubs), Card(Rank::Ten, Suit::Diamonds)];
    assert_eq!(feed(&mut s, GameToClient::DealtHand(hand.clone())).len(), 1);
    assert!(feed(&mut s, GameToClient::DealtHand(hand)).is_empty());
    let other = vec![Card(Rank::Two, Suit::Clubs), Card(Rank::Ten, Suit::Hearts)];
    assert_eq!(feed(&mut s, GameToClient::DealtHand(other)).len(), 1);
}

#[test]
fn repeated_prompt_sends_one_confirmation() {
    let mut s = Session::new("alice".to_string());
    feed(&mut s, GameToClient::WaitDeal);
    assert_eq!(sends(&s.step(Event::Keypress).unwrap()).len(), 1);
    assert!(feed(&mut s, GameToClient::WaitDeal).is_empty());
    assert_eq!(s.phase(), Phase::Receiving);
}

#[test]
fn single_discard_phase() {
    let mut s = Session::new("alice".to_string());
    let acts = feed(&mut s, GameToClient::WaitDiscardOne);
    assert!(matches!(acts[..], [Action::StartDiscards(1)]));
    assert!(s.polls());
    let acts = feed(&mut s, GameToClient::DiscardPlacedOne("bob".to_string()));
    assert!(matches!(acts[..], [Action::Show { about_you: false, .. }]));
    assert_eq!(s.phase(), Phase::DiscardingOne { sent: false });
    assert!(s.step(Event::Idle).unwrap().is_empty());
    let acts = s.step(Event::LocalIndex(3)).unwrap();
    assert!(matches!(acts[..], [Action::Send(ClientToGame::DiscardOne { index: 3 })]));
    assert!(s.step(Event::LocalIndex(4)).unwrap().is_empty());
    let acts = feed(&mut s, GameToClient::DiscardPlacedOne("alice".to_string()));
    assert!(matches!(acts[..], [Action::Show { about_you: true, .. }]));
    assert_eq!(s.phase(), Phase::DiscardingOne { sent: true });
    let acts = feed(&mut s, GameToClient::AllDiscards);
    assert!(matches!(acts[..], [Action::Show { message: GameToClient::AllDiscards, .. }]));
    assert_eq!(s.phase(), Phase::Receiving);
    assert!(!s.polls());
}

#[test]
fn double_discard_waits_for_both_indices() {
    let mut s = Session::new("alice".to_string());
    let acts = feed(&mut s, GameToClient::WaitDiscardTwo);
    assert!(matches!(acts[..], [Action::StartDiscards(2)]));
    assert!(s.step(Event::LocalIndex(1)).unwrap().is_empty());
    assert_eq!(s.phase(), Phase::DiscardingTwo { first: Some(1), sent: false });
    assert_eq!(feed(&mut s, GameToClient::DiscardPlacedTwo("bob".to_string())).len(), 1);
    assert!(s.step(Event::Idle).unwrap().is_empty());
    let acts = s.step(Event::LocalIndex(4)).unwrap();
    assert!(matches!(
        acts[..],
        [Action::Send(ClientToGame::DiscardTwo { index_one: 1, index_two: 4 })]
    ));
    assert!(s.step(Event::LocalIndex(5)).unwrap().is_empty());
    feed(&mut s, GameToClient::AllDiscards);
    assert_eq!(s.phase(), Phase::Receiving);
}

#[test]
fn discards_closed_before_choice_send_nothing() {
    let mut s = Session::new("alice".to_string());
    feed(&mut s, GameToClient::WaitDiscardOne);
    feed(&mut s, GameToClient::AllDiscards);
    assert_eq!(s.step(Event::LocalIndex(2)).unwrap_err(), SessionError::OutOfTurn);
}

#[test]
fn messages_with_no_place_are_fatal() {
    for m in [
        GameToClient::WaitNibs,
        GameToClient::WaitPlay(vec![0, 1]),
        GameToClient::WaitPlayScore,
        GameToClient::AllDiscards,
        GameToClient::DiscardPlacedOne("bob".to_string()),
    ] {
        let mut s = Session::new("alice".to_string());
        assert_eq!(s.step(Event::Message(m)).unwrap_err(), SessionError::UnexpectedMessage);
        assert_eq!(s.phase(), Phase::Failed);
    }
}

#[test]
fn keypress_without_prompt_is_out_of_turn() {
    let mut s = Session::new("alice".to_string());
    assert_eq!(s.step(Event::Keypress).unwrap_err(), SessionError::OutOfTurn);
    assert_eq!(s.step(Event::Idle).unwrap_err(), SessionError::OutOfTurn);
    assert_eq!(s.phase(), Phase::Receiving);
}

#[test]
fn informational_messages_are_shown() {
    let mut s = Session::new("alice".to_string());
    let msgs = vec![
        GameToClient::DeniedTableFull,
        GameToClient::Dealing,
        GameToClient::Nibs,
        GameToClient::CardPlayed {
            name: "bob".to_string(),
            card: Card(Rank::Five, Suit::Hearts),
            scores: vec![ScoreEvent { kind: ScoreKind::Fifteen, points: 2 }],
        },
        GameToClient::InvalidPlayScoring,
        GameToClient::IncompletePlayScoring,
        GameToClient::ScoreUpdate(vec![("alice".to_string(), 4), ("bob".to_string(), 2)]),
        GameToClient::CutStarter("alice".to_string(), Card(Rank::Jack, Suit::Clubs)),
    ];
    for m in msgs {
        let acts = feed(&mut s, m);
        assert_eq!(acts.len(), 1);
        assert!(matches!(acts[0], Action::Show { .. }));
    }
    assert!(matches!(
        feed(&mut s, GameToClient::InitialCutSuccess("bob".to_string()))[..],
        [Action::Show { about_you: false, .. }]
    ));
    assert_eq!(s.phase(), Phase::Receiving);
}

#[test]
fn starter_prompt_and_message_equality() {
    let mut s = Session::new("alice".to_string());
    assert!(matches!(
        feed(&mut s, GameToClient::WaitCutStarter)[..],
        [Action::AwaitKeypress(Prompt::CutStarter)]
    ));
    let a = GameToClient::ScoreUpdate(vec![("alice".to_string(), 4)]);
    assert!(a == GameToClient::ScoreUpdate(vec![("alice".to_string(), 4)]));
    assert!(a != GameToClient::ScoreUpdate(vec![("alice".to_string(), 5)]));
    assert!(a.duplicate() == a);
    assert!(GameToClient::Nibs != GameToClient::Dealing);
    assert!(ClientToGame::PlayTurn(None) != ClientToGame::PlayTurn(Some(0)));
}
