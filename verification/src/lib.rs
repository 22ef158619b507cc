//! Client-side session engine for a turn-based arena game: it reads the
//! coordinator's JSON envelopes, keeps the identity the coordinator assigned,
//! and answers every state tick with the move a pluggable strategy picks.
//!
//! The engine is the part that decides. It takes frames and hands back what
//! to send and what to tell the operator; the socket, the send queue and the
//! tasks around it belong to the program that embeds it.

pub mod codec;
pub mod decode;
pub mod json;
pub mod laws;
pub mod render;
pub mod report;
pub mod session;
pub mod text;
pub mod types;
pub mod wire;

pub use crate::codec::{DecodeError, EncodeError, Frame};
pub use crate::report::Printout;
pub use crate::session::{
    Bomber, BomberBot, Incoming, Notice, Outbound, Purpose, Reaction, ReadStep, SessionState,
};
pub use crate::types::{
    BombState, ClassicInputPayload, ClassicStatePayload, ErrorMessage, FieldState, GameInfo,
    GameStartPayload, LobbyEntry, LobbyUpdateMessage, Message, PlayerInfo, PlayerState,
    PlayerStatusUpdatePayload, Tile, Vec2, WelcomeMessage,
};
pub use crate::wire::{MessageType, PlayerMove};
