//! Decoding documents into the protocol's payloads.
//!
//! Every shape has a specification, [`Decode::decoded`], that says which
//! documents are of that shape and what they hold, and an executable decoder
//! proved to compute it. A shape is an object with its required members; other
//! members are ignored.

use vstd::prelude::*;
use crate::json::{get_member, json_model, json_models, lists_keys, member_names, Json};
use crate::text::owned;
use crate::types::{
    views, BombState, ClassicInputPayload, ClassicStatePayload, ClassicStateView, ErrorMessage,
    FieldState, FieldView, GameInfo, GameInfoView, GameStartPayload, GameStartView, LobbyEntry,
    LobbyUpdateMessage, PlayerInfo, PlayerState, PlayerStateView, PlayerStatusUpdatePayload,
    PlayerStatusView, Tile, Vec2, WelcomeMessage, WelcomeView,
};
use crate::wire::PlayerMove;

verus! {

/// Whether a decoder's answer is what the specification asks for.
pub open spec fn agrees<T: View>(r: Option<T>, expected: Option<T::V>) -> bool {
    match r {
        Some(t) => expected == Some(t@),
        None => expected is None,
    }
}

/// Whether a list decoder's answer is what the specification asks for.
pub open spec fn agrees_each<T: View>(r: Option<Vec<T>>, expected: Option<Seq<T::V>>) -> bool {
    match r {
        Some(list) => expected == Some(views(list@)),
        None => expected is None,
    }
}

/// A value that can be read from a JSON document.
pub trait Decode: Sized + View {
    /// What a document decodes to: `None` where it is not of this shape.
    spec fn decoded(j: Json) -> Option<Self::V>;

    fn decode(v: &serde_json::Value) -> (r: Option<Self>)
        ensures
            agrees(r, Self::decoded(json_model(*v))),
    ;
}

/// What the member `key` of `j` decodes to; `None` where it is missing.
pub open spec fn member_decoded<T: Decode>(j: Json, key: Seq<char>) -> Option<T::V> {
    match j.member(key) {
        Some(m) => T::decoded(m),
        None => None,
    }
}

/// What an array decodes to, element by element; `None` where `j` is no array
/// or one element is not of the shape.
pub open spec fn list_decoded<T: Decode>(j: Json) -> Option<Seq<T::V>> {
    match j {
        Json::Array(items) => if forall|i: int|
            0 <= i < items.len() ==> (#[trigger] T::decoded(items[i])) is Some {
            Some(Seq::new(items.len(), |i: int| T::decoded(items[i])->Some_0))
        } else {
            None
        },
        _ => None,
    }
}

/// What the array under `key` decodes to.
pub open spec fn member_list_decoded<T: Decode>(j: Json, key: Seq<char>) -> Option<Seq<T::V>> {
    match j.member(key) {
        Some(m) => list_decoded::<T>(m),
        None => None,
    }
}

pub fn decode_member<T: Decode>(v: &serde_json::Value, key: &str) -> (r: Option<T>)
    ensures
        agrees(r, member_decoded::<T>(json_model(*v), key@)),
{
    match get_member(v, key) {
        Some(m) => T::decode(m),
        None => None,
    }
}

pub fn decode_list<T: Decode>(v: &serde_json::Value) -> (r: Option<Vec<T>>)
    ensures
        agrees_each(r, list_decoded::<T>(json_model(*v))),
{
    match v.as_array() {
        None => None,
        Some(items) => {
            let ghost models = json_models(items@);
            let mut out: Vec<T> = Vec::new();
            let mut i: usize = 0;
            while i < items.len()
                invariant
                    i <= items.len(),
                    out.len() == i,
                    models == json_models(items@),
                    json_model(*v).as_items() == Some(models),
                    forall|k: int|
                        0 <= k < i ==> (#[trigger] T::decoded(models[k])) == Some(out@[k]@),
                decreases items.len() - i,
            {
                match T::decode(&items[i]) {
                    Some(t) => {
                        out.push(t);
                    },
                    None => {
                        assert(T::decoded(models[i as int]) is None);
                        return None;
                    },
                }
                i += 1;
            }
            proof {
                assert forall|k: int| 0 <= k < models.len() implies (#[trigger] T::decoded(
                    models[k],
                )) is Some by {}
                assert(views(out@) =~= Seq::new(
                    models.len(),
                    |k: int| T::decoded(models[k])->Some_0,
                ));
            }
            Some(out)
        },
    }
}

pub fn decode_member_list<T: Decode>(v: &serde_json::Value, key: &str) -> (r: Option<Vec<T>>)
    ensures
        agrees_each(r, member_list_decoded::<T>(json_model(*v), key@)),
{
    match get_member(v, key) {
        Some(m) => decode_list::<T>(m),
        None => None,
    }
}

impl Decode for bool {
    open spec fn decoded(j: Json) -> Option<bool> {
        j.as_flag()
    }

    fn decode(v: &serde_json::Value) -> (r: Option<bool>) {
        v.as_bool()
    }
}

impl Decode for i32 {
    /// An integer that fits in 32 signed bits.
    open spec fn decoded(j: Json) -> Option<i32> {
        match j {
            Json::Int(i) => if i32::MIN <= i <= i32::MAX {
                Some(i as i32)
            } else {
                None
            },
            _ => None,
        }
    }

    fn decode(v: &serde_json::Value) -> (r: Option<i32>) {
        match v.as_i64() {
            Some(n) => if -2147483648i64 <= n && n <= 2147483647i64 {
                Some(n as i32)
            } else {
                None
            },
            None => None,
        }
    }
}

impl Decode for usize {
    /// An integer that is not negative and fits in a `usize`.
    open spec fn decoded(j: Json) -> Option<usize> {
        match j {
            Json::Int(i) => if 0 <= i <= usize::MAX {
                Some(i as usize)
            } else {
                None
            },
            _ => None,
        }
    }

    fn decode(v: &serde_json::Value) -> (r: Option<usize>) {
        match v.as_u64() {
            Some(n) => if n <= usize::MAX as u64 {
                Some(n as usize)
            } else {
                None
            },
            None => None,
        }
    }
}

impl Decode for String {
    open spec fn decoded(j: Json) -> Option<Seq<char>> {
        j.as_text()
    }

    fn decode(v: &serde_json::Value) -> (r: Option<String>) {
        match v.as_str() {
            Some(s) => Some(owned(s)),
            None => None,
        }
    }
}

impl Decode for Vec2 {
    /// `{"x": int, "y": int}`.
    open spec fn decoded(j: Json) -> Option<Vec2> {
        match (member_decoded::<i32>(j, "x"@), member_decoded::<i32>(j, "y"@)) {
            (Some(x), Some(y)) => Some(Vec2 { x, y }),
            _ => None,
        }
    }

    fn decode(v: &serde_json::Value) -> (r: Option<Vec2>) {
        let x: i32 = decode_member::<i32>(v, "x")?;
        let y: i32 = decode_member::<i32>(v, "y")?;
        Some(Vec2 { x, y })
    }
}

impl Tile {
    /// The tile that a name stands for.
    pub open spec fn named(name: Seq<char>) -> Option<Tile> {
        if name == "AIR"@ {
            Some(Tile::AIR)
        } else if name == "WALL"@ {
            Some(Tile::WALL)
        } else if name == "BOX"@ {
            Some(Tile::BOX)
        } else {
            None
        }
    }
}

impl Decode for Tile {
    /// One of the strings `"AIR"`, `"WALL"`, `"BOX"`.
    open spec fn decoded(j: Json) -> Option<Tile> {
        match j {
            Json::Text(name) => Tile::named(name),
            _ => None,
        }
    }

    fn decode(v: &serde_json::Value) -> (r: Option<Tile>) {
        match v.as_str() {
            Some(name) => if crate::text::same_text(name, "AIR") {
                Some(Tile::AIR)
            } else if crate::text::same_text(name, "WALL") {
                Some(Tile::WALL)
            } else if crate::text::same_text(name, "BOX") {
                Some(Tile::BOX)
            } else {
                None
            },
            None => None,
        }
    }
}

impl Decode for GameInfo {
    /// `{"name": string, "description": string}`.
    open spec fn decoded(j: Json) -> Option<GameInfoView> {
        match (
            member_decoded::<String>(j, "name"@),
            member_decoded::<String>(j, "description"@),
        ) {
            (Some(name), Some(description)) => Some(GameInfoView { name, description }),
            _ => None,
        }
    }

    fn decode(v: &serde_json::Value) -> (r: Option<GameInfo>) {
        let name: String = decode_member::<String>(v, "name")?;
        let description: String = decode_member::<String>(v, "description")?;
        Some(GameInfo { name, description })
    }
}

impl Decode for WelcomeMessage {
    /// `{"client_id": string, "current_games": [game, ..]}`.
    open spec fn decoded(j: Json) -> Option<WelcomeView> {
        match (
            member_decoded::<String>(j, "client_id"@),
            member_list_decoded::<GameInfo>(j, "current_games"@),
        ) {
            (Some(client_id), Some(current_games)) => Some(
                WelcomeView { client_id, current_games },
            ),
            _ => None,
        }
    }

    fn decode(v: &serde_json::Value) -> (r: Option<WelcomeMessage>) {
        let client_id: String = decode_member::<String>(v, "client_id")?;
        let current_games: Vec<GameInfo> = decode_member_list::<GameInfo>(v, "current_games")?;
        Some(WelcomeMessage { client_id, current_games })
    }
}

impl Decode for PlayerInfo {
    /// `{"in_game": bool, "is_ready": bool, "score": int}`.
    open spec fn decoded(j: Json) -> Option<PlayerInfo> {
        match (
            member_decoded::<bool>(j, "in_game"@),
            member_decoded::<bool>(j, "is_ready"@),
            member_decoded::<i32>(j, "score"@),
        ) {
            (Some(in_game), Some(is_ready), Some(score)) => Some(
                PlayerInfo { in_game, is_ready, score },
            ),
            _ => None,
        }
    }

    fn decode(v: &serde_json::Value) -> (r: Option<PlayerInfo>) {
        let in_game: bool = decode_member::<bool>(v, "in_game")?;
        let is_ready: bool = decode_member::<bool>(v, "is_ready")?;
        let score: i32 = decode_member::<i32>(v, "score")?;
        Some(PlayerInfo { in_game, is_ready, score })
    }
}

/// What an object of players decodes to: every member's standing under the
/// member's key; `None` where one member is no standing.
pub open spec fn standings_decoded(members: Map<Seq<char>, Json>) -> Option<
    Map<Seq<char>, PlayerInfo>,
> {
    if forall|id: Seq<char>|
        members.contains_key(id) ==> (#[trigger] PlayerInfo::decoded(members[id])) is Some {
        Some(
            Map::new(
                |id: Seq<char>| members.contains_key(id),
                |id: Seq<char>| PlayerInfo::decoded(members[id])->Some_0,
            ),
        )
    } else {
        None
    }
}

impl Decode for LobbyUpdateMessage {
    /// `{"players": {id: standing, ..}}`.
    open spec fn decoded(j: Json) -> Option<Map<Seq<char>, PlayerInfo>> {
        match j.member("players"@) {
            Some(Json::Object(members)) => standings_decoded(members),
            _ => None,
        }
    }

    fn decode(v: &serde_json::Value) -> (r: Option<LobbyUpdateMessage>)
        ensures
            r matches Some(lobby) ==> lobby.well_formed(),
    {
        let players: &serde_json::Value = get_member(v, "players")?;
        let names: Vec<String> = member_names(players)?;
        let ghost members = json_model(*players)->Object_0;
        let mut out: Vec<LobbyEntry> = Vec::new();
        let mut i: usize = 0;
        while i < names.len()
            invariant
                i <= names.len(),
                out.len() == i,
                json_model(*players) == Json::Object(members),
                json_model(*v).member("players"@) == Some(json_model(*players)),
                lists_keys(names@, members),
                forall|k: int| 0 <= k < i ==> (#[trigger] out@[k]).id@ == names@[k]@,
                forall|k: int|
                    0 <= k < i ==> PlayerInfo::decoded(members[names@[k]@]) == Some(
                        (#[trigger] out@[k]).info,
                    ),
            decreases names.len() - i,
        {
            let id: &String = &names[i];
            assert(members.contains_key(names@[i as int]@));
            let info: PlayerInfo = match get_member(players, id.as_str()) {
                Some(m) => match PlayerInfo::decode(m) {
                    Some(info) => info,
                    None => {
                        assert(PlayerInfo::decoded(members[names@[i as int]@]) is None);
                        return None;
                    },
                },
                None => {
                    return None;
                },
            };
            out.push(LobbyEntry { id: id.clone(), info });
            i += 1;
        }
        let lobby = LobbyUpdateMessage { players: out };
        proof {
            assert forall|id: Seq<char>| members.contains_key(id) implies (
            #[trigger] PlayerInfo::decoded(members[id])) is Some by {
                let k = choose|k: int| 0 <= k < names@.len() && names@[k]@ == id;
                assert(lobby.players@[k].id@ == id);
            }
            assert forall|id: Seq<char>| lobby.lists(id) == members.contains_key(id) by {
                if members.contains_key(id) {
                    let k = choose|k: int| 0 <= k < names@.len() && names@[k]@ == id;
                    assert(lobby.players@[k].id@ == id);
                }
            }
            assert forall|id: Seq<char>| lobby.lists(id) implies lobby.standing(id)
                == PlayerInfo::decoded(members[id])->Some_0 by {
                let k = choose|k: int|
                    0 <= k < lobby.players.len() && #[trigger] lobby.players[k].id@ == id;
                assert(PlayerInfo::decoded(members[names@[k]@]) == Some(lobby.players@[k].info));
            }
            assert(lobby@ =~= standings_decoded(members)->Some_0);
        }
        Some(lobby)
    }
}

impl Decode for GameStartPayload {
    /// `{"name": string, "description": string, "game_id": string}`.
    open spec fn decoded(j: Json) -> Option<GameStartView> {
        match (
            member_decoded::<String>(j, "name"@),
            member_decoded::<String>(j, "description"@),
            member_decoded::<String>(j, "game_id"@),
        ) {
            (Some(name), Some(description), Some(game_id)) => Some(
                GameStartView { name, description, game_id },
            ),
            _ => None,
        }
    }

    fn decode(v: &serde_json::Value) -> (r: Option<GameStartPayload>) {
        let name: String = decode_member::<String>(v, "name")?;
        let description: String = decode_member::<String>(v, "description")?;
        let game_id: String = decode_member::<String>(v, "game_id")?;
        Some(GameStartPayload { name, description, game_id })
    }
}

impl Decode for ErrorMessage {
    /// `{"message": string}`.
    open spec fn decoded(j: Json) -> Option<Seq<char>> {
        member_decoded::<String>(j, "message"@)
    }

    fn decode(v: &serde_json::Value) -> (r: Option<ErrorMessage>) {
        let message: String = decode_member::<String>(v, "message")?;
        Some(ErrorMessage { message })
    }
}

impl Decode for PlayerState {
    /// `{"id": string, "pos": position, "health": int, "score": int}`.
    open spec fn decoded(j: Json) -> Option<PlayerStateView> {
        match (
            member_decoded::<String>(j, "id"@),
            member_decoded::<Vec2>(j, "pos"@),
            member_decoded::<i32>(j, "health"@),
            member_decoded::<i32>(j, "score"@),
        ) {
            (Some(id), Some(pos), Some(health), Some(score)) => Some(
                PlayerStateView { id, pos, health, score },
            ),
            _ => None,
        }
    }

    fn decode(v: &serde_json::Value) -> (r: Option<PlayerState>) {
        let id: String = decode_member::<String>(v, "id")?;
        let pos: Vec2 = decode_member::<Vec2>(v, "pos")?;
        let health: i32 = decode_member::<i32>(v, "health")?;
        let score: i32 = decode_member::<i32>(v, "score")?;
        Some(PlayerState { id, pos, health, score })
    }
}

impl Decode for FieldState {
    /// `{"width": size, "height": size, "tiles": [tile, ..]}`.
    open spec fn decoded(j: Json) -> Option<FieldView> {
        match (
            member_decoded::<usize>(j, "width"@),
            member_decoded::<usize>(j, "height"@),
            member_list_decoded::<Tile>(j, "tiles"@),
        ) {
            (Some(width), Some(height), Some(tiles)) => Some(FieldView { width, height, tiles }),
            _ => None,
        }
    }

    fn decode(v: &serde_json::Value) -> (r: Option<FieldState>) {
        let width: usize = decode_member::<usize>(v, "width")?;
        let height: usize = decode_member::<usize>(v, "height")?;
        let tiles: Vec<Tile> = decode_member_list::<Tile>(v, "tiles")?;
        assert(views(tiles@) =~= tiles@);
        Some(FieldState { width, height, tiles })
    }
}

impl Decode for BombState {
    /// `{"pos": position, "fuse": int}`.
    open spec fn decoded(j: Json) -> Option<BombState> {
        match (member_decoded::<Vec2>(j, "pos"@), member_decoded::<i32>(j, "fuse"@)) {
            (Some(pos), Some(fuse)) => Some(BombState { pos, fuse }),
            _ => None,
        }
    }

    fn decode(v: &serde_json::Value) -> (r: Option<BombState>) {
        let pos: Vec2 = decode_member::<Vec2>(v, "pos")?;
        let fuse: i32 = decode_member::<i32>(v, "fuse")?;
        Some(BombState { pos, fuse })
    }
}

impl Decode for PlayerMove {
    /// The wire name of a move.
    open spec fn decoded(j: Json) -> Option<PlayerMove> {
        match j {
            Json::Text(name) => PlayerMove::named(name),
            _ => None,
        }
    }

    fn decode(v: &serde_json::Value) -> (r: Option<PlayerMove>) {
        match v.as_str() {
            Some(name) => PlayerMove::from_wire_name(name),
            None => None,
        }
    }
}

impl Decode for ClassicInputPayload {
    /// `{"move": name}`.
    open spec fn decoded(j: Json) -> Option<ClassicInputPayload> {
        match member_decoded::<PlayerMove>(j, "move"@) {
            Some(a_move) => Some(ClassicInputPayload { a_move }),
            None => None,
        }
    }

    fn decode(v: &serde_json::Value) -> (r: Option<ClassicInputPayload>) {
        let a_move: PlayerMove = decode_member::<PlayerMove>(v, "move")?;
        Some(ClassicInputPayload { a_move })
    }
}

impl Decode for PlayerStatusUpdatePayload {
    /// `{"is_ready": bool, "auth_token": string}`.
    open spec fn decoded(j: Json) -> Option<PlayerStatusView> {
        match (
            member_decoded::<bool>(j, "is_ready"@),
            member_decoded::<String>(j, "auth_token"@),
        ) {
            (Some(is_ready), Some(auth_token)) => Some(PlayerStatusView { is_ready, auth_token }),
            _ => None,
        }
    }

    fn decode(v: &serde_json::Value) -> (r: Option<PlayerStatusUpdatePayload>) {
        let is_ready: bool = decode_member::<bool>(v, "is_ready")?;
        let auth_token: String = decode_member::<String>(v, "auth_token")?;
        Some(PlayerStatusUpdatePayload { is_ready, auth_token })
    }
}

impl Decode for ClassicStatePayload {
    /// `{"players": [player, ..], "field": field, "bombs": [bomb, ..],
    /// "explosions": [position, ..]}`.
    open spec fn decoded(j: Json) -> Option<ClassicStateView> {
        match (
            member_list_decoded::<PlayerState>(j, "players"@),
            member_decoded::<FieldState>(j, "field"@),
            member_list_decoded::<BombState>(j, "bombs"@),
            member_list_decoded::<Vec2>(j, "explosions"@),
        ) {
            (Some(players), Some(field), Some(bombs), Some(explosions)) => Some(
                ClassicStateView { players, field, bombs, explosions },
            ),
            _ => None,
        }
    }

    fn decode(v: &serde_json::Value) -> (r: Option<ClassicStatePayload>) {
        let players: Vec<PlayerState> = decode_member_list::<PlayerState>(v, "players")?;
        let field: FieldState = decode_member::<FieldState>(v, "field")?;
        let bombs: Vec<BombState> = decode_member_list::<BombState>(v, "bombs")?;
        let explosions: Vec<Vec2> = decode_member_list::<Vec2>(v, "explosions")?;
        assert(views(bombs@) =~= bombs@);
        assert(views(explosions@) =~= explosions@);
        Some(ClassicStatePayload { players, field, bombs, explosions })
    }
}

} // verus!
