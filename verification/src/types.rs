//! The payload shapes of the protocol, each with its mathematical view.

use vstd::prelude::*;
use crate::wire::{MessageType, PlayerMove};

verus! {

/// The views of a sequence of values, in order.
pub open spec fn views<T: View>(items: Seq<T>) -> Seq<T::V> {
    items.map_values(|t: T| t@)
}

/// A position on the board. It may lie outside the field.
#[derive(Debug, Clone, Copy, PartialEq, Eq, Hash, Structural)]
pub struct Vec2 {
    pub x: i32,
    pub y: i32,
}

impl View for Vec2 {
    type V = Vec2;

    open spec fn view(&self) -> Vec2 {
        *self
    }
}

/// What occupies one cell of the field.
#[derive(Debug, Clone, Copy, PartialEq, Eq, Structural)]
pub enum Tile {
    AIR,
    WALL,
    BOX,
}

impl View for Tile {
    type V = Tile;

    open spec fn view(&self) -> Tile {
        *self
    }
}

/// A game the coordinator offers.
#[derive(Debug, Clone, PartialEq, Eq)]
pub struct GameInfo {
    pub name: String,
    pub description: String,
}

pub struct GameInfoView {
    pub name: Seq<char>,
    pub description: Seq<char>,
}

impl View for GameInfo {
    type V = GameInfoView;

    open spec fn view(&self) -> GameInfoView {
        GameInfoView { name: self.name@, description: self.description@ }
    }
}

/// The coordinator's greeting: the identity it assigned and the games it offers.
#[derive(Debug, Clone, PartialEq, Eq)]
pub struct WelcomeMessage {
    pub client_id: String,
    pub current_games: Vec<GameInfo>,
}

pub struct WelcomeView {
    pub client_id: Seq<char>,
    pub current_games: Seq<GameInfoView>,
}

impl View for WelcomeMessage {
    type V = WelcomeView;

    open spec fn view(&self) -> WelcomeView {
        WelcomeView { client_id: self.client_id@, current_games: views(self.current_games@) }
    }
}

/// One player's standing in the lobby.
#[derive(Debug, Clone, Copy, PartialEq, Eq, Structural)]
pub struct PlayerInfo {
    pub in_game: bool,
    pub is_ready: bool,
    pub score: i32,
}

impl View for PlayerInfo {
    type V = PlayerInfo;

    open spec fn view(&self) -> PlayerInfo {
        *self
    }
}

/// One entry of the lobby: a player's id and standing.
#[derive(Debug, Clone, PartialEq, Eq)]
pub struct LobbyEntry {
    pub id: String,
    pub info: PlayerInfo,
}

/// The lobby: every player's standing under the player's id, each id once.
#[derive(Debug, Clone, PartialEq, Eq)]
pub struct LobbyUpdateMessage {
    pub players: Vec<LobbyEntry>,
}

impl LobbyUpdateMessage {
    /// No id occurs twice.
    pub open spec fn well_formed(&self) -> bool {
        forall|i: int, j: int|
            0 <= i < j < self.players.len() ==> #[trigger] self.players[i].id@
                != #[trigger] self.players[j].id@
    }

    /// Whether an entry stands under `id`.
    pub open spec fn lists(&self, id: Seq<char>) -> bool {
        exists|i: int| 0 <= i < self.players.len() && #[trigger] self.players[i].id@ == id
    }

    /// The standing under `id`, where an entry stands under it.
    pub open spec fn standing(&self, id: Seq<char>) -> PlayerInfo {
        let i = choose|i: int| 0 <= i < self.players.len() && #[trigger] self.players[i].id@ == id;
        self.players[i].info
    }
}

impl View for LobbyUpdateMessage {
    type V = Map<Seq<char>, PlayerInfo>;

    open spec fn view(&self) -> Map<Seq<char>, PlayerInfo> {
        Map::new(|id: Seq<char>| self.lists(id), |id: Seq<char>| self.standing(id))
    }
}

/// The client's readiness, with the token that authenticates it.
#[derive(Debug, Clone, PartialEq, Eq)]
pub struct PlayerStatusUpdatePayload {
    pub is_ready: bool,
    pub auth_token: String,
}

pub struct PlayerStatusView {
    pub is_ready: bool,
    pub auth_token: Seq<char>,
}

impl View for PlayerStatusUpdatePayload {
    type V = PlayerStatusView;

    open spec fn view(&self) -> PlayerStatusView {
        PlayerStatusView { is_ready: self.is_ready, auth_token: self.auth_token@ }
    }
}

/// The announcement of a new game.
#[derive(Debug, Clone, PartialEq, Eq)]
pub struct GameStartPayload {
    pub name: String,
    pub description: String,
    pub game_id: String,
}

pub struct GameStartView {
    pub name: Seq<char>,
    pub description: Seq<char>,
    pub game_id: Seq<char>,
}

impl View for GameStartPayload {
    type V = GameStartView;

    open spec fn view(&self) -> GameStartView {
        GameStartView { name: self.name@, description: self.description@, game_id: self.game_id@ }
    }
}

/// A complaint of the coordinator.
#[derive(Debug, Clone, PartialEq, Eq)]
pub struct ErrorMessage {
    pub message: String,
}

impl View for ErrorMessage {
    type V = Seq<char>;

    open spec fn view(&self) -> Seq<char> {
        self.message@
    }
}

/// The client's answer to a tick.
#[derive(Debug, Clone, Copy, PartialEq, Eq, Structural)]
pub struct ClassicInputPayload {
    pub a_move: PlayerMove,
}

impl View for ClassicInputPayload {
    type V = ClassicInputPayload;

    open spec fn view(&self) -> ClassicInputPayload {
        *self
    }
}

/// One player on the board.
#[derive(Debug, Clone, PartialEq, Eq)]
pub struct PlayerState {
    pub id: String,
    pub pos: Vec2,
    pub health: i32,
    pub score: i32,
}

pub struct PlayerStateView {
    pub id: Seq<char>,
    pub pos: Vec2,
    pub health: i32,
    pub score: i32,
}

impl View for PlayerState {
    type V = PlayerStateView;

    open spec fn view(&self) -> PlayerStateView {
        PlayerStateView { id: self.id@, pos: self.pos, health: self.health, score: self.score }
    }
}

/// The board: `tiles` holds the cells row by row. Nothing checks that its
/// length is `width * height`: readers test an index before they use it.
#[derive(Debug, Clone, PartialEq, Eq)]
pub struct FieldState {
    pub width: usize,
    pub height: usize,
    pub tiles: Vec<Tile>,
}

pub struct FieldView {
    pub width: usize,
    pub height: usize,
    pub tiles: Seq<Tile>,
}

impl View for FieldState {
    type V = FieldView;

    open spec fn view(&self) -> FieldView {
        FieldView { width: self.width, height: self.height, tiles: self.tiles@ }
    }
}

/// A bomb on the board and the ticks left on its fuse.
#[derive(Debug, Clone, Copy, PartialEq, Eq, Structural)]
pub struct BombState {
    pub pos: Vec2,
    pub fuse: i32,
}

impl View for BombState {
    type V = BombState;

    open spec fn view(&self) -> BombState {
        *self
    }
}

/// The whole game at one tick.
#[derive(Debug, Clone, PartialEq, Eq)]
pub struct ClassicStatePayload {
    pub players: Vec<PlayerState>,
    pub field: FieldState,
    pub bombs: Vec<BombState>,
    pub explosions: Vec<Vec2>,
}

pub struct ClassicStateView {
    pub players: Seq<PlayerStateView>,
    pub field: FieldView,
    pub bombs: Seq<BombState>,
    pub explosions: Seq<Vec2>,
}

impl View for ClassicStatePayload {
    type V = ClassicStateView;

    open spec fn view(&self) -> ClassicStateView {
        ClassicStateView {
            players: views(self.players@),
            field: self.field@,
            bombs: self.bombs@,
            explosions: self.explosions@,
        }
    }
}

/// An envelope as it arrived: the kind, and the payload still undecoded.
#[derive(Debug)]
pub struct Message {
    pub type_of: MessageType,
    pub payload: serde_json::Value,
}

} // verus!
