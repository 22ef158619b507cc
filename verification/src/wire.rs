//! The two closed enumerations of the protocol and their wire names.

use vstd::prelude::*;
use crate::text::{owned, same_text};

verus! {

/// The discriminant of an envelope: it selects the payload's shape and the reaction.
#[derive(Debug, Clone, Copy, PartialEq, Eq, Hash, Structural)]
pub enum MessageType {
    Welcome,
    BackToLobby,
    UpdateLobby,
    PlayerStatusUpdate,
    Error,
    ClassicInput,
    ClassicState,
    GameStart,
}

/// An action a player can take on a tick.
#[derive(Debug, Clone, Copy, PartialEq, Eq, Hash, Structural)]
pub enum PlayerMove {
    Nothing,
    MoveUp,
    MoveRight,
    MoveDown,
    MoveLeft,
    PlaceBomb,
}

impl View for PlayerMove {
    type V = PlayerMove;

    open spec fn view(&self) -> PlayerMove {
        *self
    }
}

impl MessageType {
    /// The name of the kind on the wire.
    pub open spec fn wire_name(self) -> Seq<char> {
        match self {
            MessageType::Welcome => "welcome"@,
            MessageType::BackToLobby => "back_to_lobby"@,
            MessageType::UpdateLobby => "update_lobby"@,
            MessageType::PlayerStatusUpdate => "player_status_update"@,
            MessageType::Error => "error"@,
            MessageType::ClassicInput => "classic_input"@,
            MessageType::ClassicState => "classic_state"@,
            MessageType::GameStart => "game_start"@,
        }
    }

    /// The kind that a wire name stands for, if it stands for one.
    pub open spec fn named(name: Seq<char>) -> Option<MessageType> {
        if name == "welcome"@ {
            Some(MessageType::Welcome)
        } else if name == "back_to_lobby"@ {
            Some(MessageType::BackToLobby)
        } else if name == "update_lobby"@ {
            Some(MessageType::UpdateLobby)
        } else if name == "player_status_update"@ {
            Some(MessageType::PlayerStatusUpdate)
        } else if name == "error"@ {
            Some(MessageType::Error)
        } else if name == "classic_input"@ {
            Some(MessageType::ClassicInput)
        } else if name == "classic_state"@ {
            Some(MessageType::ClassicState)
        } else if name == "game_start"@ {
            Some(MessageType::GameStart)
        } else {
            None
        }
    }

    /// Whether the client sends this kind; every other kind only arrives.
    pub open spec fn is_outbound(self) -> bool {
        self == MessageType::PlayerStatusUpdate || self == MessageType::ClassicInput
    }

    pub fn as_str(&self) -> (r: &'static str)
        ensures
            r@ == self.wire_name(),
    {
        match self {
            MessageType::Welcome => "welcome",
            MessageType::BackToLobby => "back_to_lobby",
            MessageType::UpdateLobby => "update_lobby",
            MessageType::PlayerStatusUpdate => "player_status_update",
            MessageType::Error => "error",
            MessageType::ClassicInput => "classic_input",
            MessageType::ClassicState => "classic_state",
            MessageType::GameStart => "game_start",
        }
    }

    pub fn from_wire_name(name: &str) -> (r: Option<MessageType>)
        ensures
            r == MessageType::named(name@),
    {
        if same_text(name, "welcome") {
            Some(MessageType::Welcome)
        } else if same_text(name, "back_to_lobby") {
            Some(MessageType::BackToLobby)
        } else if same_text(name, "update_lobby") {
            Some(MessageType::UpdateLobby)
        } else if same_text(name, "player_status_update") {
            Some(MessageType::PlayerStatusUpdate)
        } else if same_text(name, "error") {
            Some(MessageType::Error)
        } else if same_text(name, "classic_input") {
            Some(MessageType::ClassicInput)
        } else if same_text(name, "classic_state") {
            Some(MessageType::ClassicState)
        } else if same_text(name, "game_start") {
            Some(MessageType::GameStart)
        } else {
            None
        }
    }

    pub fn sent_by_client(&self) -> (r: bool)
        ensures
            r == self.is_outbound(),
    {
        match self {
            MessageType::PlayerStatusUpdate => true,
            MessageType::ClassicInput => true,
            _ => false,
        }
    }
}

impl PlayerMove {
    /// The name of the move on the wire.
    pub open spec fn wire_name(self) -> Seq<char> {
        match self {
            PlayerMove::Nothing => "nothing"@,
            PlayerMove::MoveUp => "move_up"@,
            PlayerMove::MoveRight => "move_right"@,
            PlayerMove::MoveDown => "move_down"@,
            PlayerMove::MoveLeft => "move_left"@,
            PlayerMove::PlaceBomb => "place_bomb"@,
        }
    }

    /// The move that a wire name stands for, if it stands for one.
    pub open spec fn named(name: Seq<char>) -> Option<PlayerMove> {
        if name == "nothing"@ {
            Some(PlayerMove::Nothing)
        } else if name == "move_up"@ {
            Some(PlayerMove::MoveUp)
        } else if name == "move_right"@ {
            Some(PlayerMove::MoveRight)
        } else if name == "move_down"@ {
            Some(PlayerMove::MoveDown)
        } else if name == "move_left"@ {
            Some(PlayerMove::MoveLeft)
        } else if name == "place_bomb"@ {
            Some(PlayerMove::PlaceBomb)
        } else {
            None
        }
    }

    pub fn as_str(&self) -> (r: &'static str)
        ensures
            r@ == self.wire_name(),
    {
        match self {
            PlayerMove::Nothing => "nothing",
            PlayerMove::MoveUp => "move_up",
            PlayerMove::MoveRight => "move_right",
            PlayerMove::MoveDown => "move_down",
            PlayerMove::MoveLeft => "move_left",
            PlayerMove::PlaceBomb => "place_bomb",
        }
    }

    /// The wire name as an owned string.
    pub fn to_string(&self) -> (r: String)
        ensures
            r@ == self.wire_name(),
    {
        owned(self.as_str())
    }

    pub fn from_wire_name(name: &str) -> (r: Option<PlayerMove>)
        ensures
            r == PlayerMove::named(name@),
    {
        if same_text(name, "nothing") {
            Some(PlayerMove::Nothing)
        } else if same_text(name, "move_up") {
            Some(PlayerMove::MoveUp)
        } else if same_text(name, "move_right") {
            Some(PlayerMove::MoveRight)
        } else if same_text(name, "move_down") {
            Some(PlayerMove::MoveDown)
        } else if same_text(name, "move_left") {
            Some(PlayerMove::MoveLeft)
        } else if same_text(name, "place_bomb") {
            Some(PlayerMove::PlaceBomb)
        } else {
            None
        }
    }
}

/// Decoding the wire name of a move gives the move back.
pub proof fn lemma_move_name_round_trip(m: PlayerMove)
    ensures
        PlayerMove::named(m.wire_name()) == Some(m),
{
    reveal_strlit("nothing");
    reveal_strlit("move_up");
    reveal_strlit("move_right");
    reveal_strlit("move_down");
    reveal_strlit("move_left");
    reveal_strlit("place_bomb");
    assert("nothing"@.len() == 7 && "nothing"@[0] == 'n');
    assert("move_up"@.len() == 7 && "move_up"@[0] == 'm');
    assert("move_right"@.len() == 10 && "move_right"@[0] == 'm');
    assert("move_down"@.len() == 9 && "move_down"@[5] == 'd');
    assert("move_left"@.len() == 9 && "move_left"@[5] == 'l');
    assert("place_bomb"@.len() == 10 && "place_bomb"@[0] == 'p');
}

/// A name that decodes to a move is that move's wire name.
pub proof fn lemma_move_name_is_canonical(name: Seq<char>, m: PlayerMove)
    requires
        PlayerMove::named(name) == Some(m),
    ensures
        m.wire_name() == name,
{
}

/// Decoding the wire name of a kind gives the kind back.
pub proof fn lemma_kind_name_round_trip(kind: MessageType)
    ensures
        MessageType::named(kind.wire_name()) == Some(kind),
{
    reveal_strlit("welcome");
    reveal_strlit("back_to_lobby");
    reveal_strlit("update_lobby");
    reveal_strlit("player_status_update");
    reveal_strlit("error");
    reveal_strlit("classic_input");
    reveal_strlit("classic_state");
    reveal_strlit("game_start");
    assert("welcome"@.len() == 7);
    assert("back_to_lobby"@.len() == 13 && "back_to_lobby"@[8] == 'l');
    assert("update_lobby"@.len() == 12);
    assert("player_status_update"@.len() == 20);
    assert("error"@.len() == 5);
    assert("classic_input"@.len() == 13 && "classic_input"@[8] == 'i');
    assert("classic_state"@.len() == 13 && "classic_state"@[8] == 's');
    assert("game_start"@.len() == 10);
}

/// A name that decodes to a kind is that kind's wire name.
pub proof fn lemma_kind_name_is_canonical(name: Seq<char>, kind: MessageType)
    requires
        MessageType::named(name) == Some(kind),
    ensures
        kind.wire_name() == name,
{
}

} // verus!
