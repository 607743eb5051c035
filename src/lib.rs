//! Client side of a turn-based cribbage table protocol: message vocabularies,
//! fixed-size framing, the session state machine that answers the table's
//! prompts, the discard-index collector and the connection retry policy.

pub mod card;
pub mod collector;
pub mod dialer;
pub mod frame;
pub mod message;
pub mod session;

pub use card::{Card, Rank, ScoreEvent, ScoreKind, Suit};
pub use collector::{parse_index, DiscardCollector, DiscardPrompt, HAND_SLOTS};
pub use dialer::{Dialer, Progress, MAX_ATTEMPTS};
pub use frame::{
    check_server_frame, frame_tag, seal_frame, FrameError, FRAME_SIZE, SERVER_MESSAGE_KINDS,
};
pub use message::{ClientToGame, GameToClient};
pub use session::{Action, Event, Phase, Prompt, Session, SessionError};
