use client_rust::render::{cell_icon, player_icon, render_classic_state};
use client_rust::{BombState, ClassicStatePayload, FieldState, PlayerState, Tile, Vec2};

const CLEAR: &str = "\x1B[H\x1B[2J";

fn player(id: &str, x: i32, y: i32, health: i32, score: i32) -> PlayerState {
    PlayerState { id: id.to_string(), pos: Vec2 { x, y }, health, score }
}

fn board(width: usize, height: usize, tiles: Vec<Tile>) -> ClassicStatePayload {
    ClassicStatePayload {
        players: Vec::new(),
        field: FieldState { width, height, tiles },
        bombs: Vec::new(),
        explosions: Vec::new(),
    }
}

#[test]
fn an_empty_board_is_two_borders_and_a_heading() {
    let state = board(0, 0, Vec::new());
    assert_eq!(
        render_classic_state(&state, "me"),
        format!("{}\u{2554}\u{2557}\n\u{255A}\u{255D}\n-- PLAYERS --\n", CLEAR)
    );
}

#[test]
fn a_lone_player_on_an_open_field() {
    let mut state = board(3, 3, Vec::new());
    state.players.push(player("ann", 1, 1, 100, 0));
    let expected = format!(
        "{}{}",
        CLEAR,
        "\u{2554}\u{2550}\u{2550}\u{2550}\u{2550}\u{2550}\u{2550}\u{2557}\n\
         \u{2551}      \u{2551}\n\
         \u{2551}  \u{1F916}  \u{2551}\n\
         \u{2551}      \u{2551}\n\
         \u{255A}\u{2550}\u{2550}\u{2550}\u{2550}\u{2550}\u{2550}\u{255D}\n\
         -- PLAYERS --\n\
         \u{1F916} Player ...ann | Health: 100, Score: 0\n"
    );
    assert_eq!(render_classic_state(&state, "ann"), expected);
}

#[test]
fn a_crowded_board() {
    let mut state = board(4, 2, vec![Tile::WALL, Tile::AIR, Tile::BOX, Tile::BOX, Tile::WALL]);
    state.players.push(player("me", 0, 0, 3, 10));
    state.players.push(player("zed", 1, 1, -1, 0));
    state.players.push(player("amy", 3, 1, 100, -5));
    state.players.push(player("bobby-tables", 9, 9, 0, 0));
    state.bombs.push(BombState { pos: Vec2 { x: 2, y: 0 }, fuse: 3 });
    state.bombs.push(BombState { pos: Vec2 { x: -4, y: 7 }, fuse: -1 });
    state.explosions.push(Vec2 { x: 1, y: 0 });
    state.explosions.push(Vec2 { x: 2, y: 0 });
    state.explosions.push(Vec2 { x: -1, y: 0 });
    state.explosions.push(Vec2 { x: 0, y: 2 });
    let expected = format!(
        "{}{}",
        CLEAR,
        "\u{2554}\u{2550}\u{2550}\u{2550}\u{2550}\u{2550}\u{2550}\u{2550}\u{2550}\u{2557}\n\
         \u{2551}\u{1F916}\u{1F4A5}\u{1F4A3}\u{1F4E6}\u{2551}\n\
         \u{2551}\u{1F9F1}\u{1F483}  \u{1F3C3}\u{2551}\n\
         \u{255A}\u{2550}\u{2550}\u{2550}\u{2550}\u{2550}\u{2550}\u{2550}\u{2550}\u{255D}\n\
         -- PLAYERS --\n\
         \u{1F916} Player ...me | Health: 3, Score: 10\n\
         \u{1F483} Player ...zed | Health: -1, Score: 0\n\
         \u{1F3C3} Player ...amy | Health: 100, Score: -5\n\
         \u{1F6B6} Player ...bles | Health: 0, Score: 0\n\
         -- BOMBS --\n\
         \u{1F4A3} at (2,0) | Fuse: 3\n\
         \u{1F4A3} at (-4,7) | Fuse: -1\n"
    );
    assert_eq!(render_classic_state(&state, "me"), expected);
}

#[test]
fn rivals_take_their_glyphs_by_turns_in_the_order_of_their_ids() {
    let players = vec![
        player("e", 0, 0, 1, 1),
        player("own", 0, 0, 1, 1),
        player("c", 0, 0, 1, 1),
        player("a", 0, 0, 1, 1),
        player("d", 0, 0, 1, 1),
        player("b", 0, 0, 1, 1),
    ];
    assert_eq!(player_icon(&players, "own", "own"), "\u{1F916}");
    assert_eq!(player_icon(&players, "own", "a"), "\u{1F3C3}");
    assert_eq!(player_icon(&players, "own", "b"), "\u{1F6B6}");
    assert_eq!(player_icon(&players, "own", "c"), "\u{1F483}");
    assert_eq!(player_icon(&players, "own", "d"), "\u{1F57A}");
    assert_eq!(player_icon(&players, "own", "e"), "\u{1F3C3}");
}

#[test]
fn rivals_that_share_an_id_share_the_glyph_of_the_last() {
    let players = vec![
        player("b", 0, 0, 1, 1),
        player("a", 0, 0, 1, 1),
        player("a", 1, 0, 1, 1),
        player("c", 0, 0, 1, 1),
    ];
    assert_eq!(player_icon(&players, "own", "a"), "\u{1F6B6}");
    assert_eq!(player_icon(&players, "own", "b"), "\u{1F483}");
    assert_eq!(player_icon(&players, "own", "c"), "\u{1F57A}");
}

#[test]
fn an_id_that_no_rival_reaches_has_a_space() {
    let players = vec![player("m", 0, 0, 1, 1)];
    assert_eq!(player_icon(&players, "own", "a"), " ");
    assert_eq!(player_icon(&Vec::new(), "own", "a"), " ");
    assert_eq!(player_icon(&Vec::new(), "own", "own"), "\u{1F916}");
}

#[test]
fn the_last_player_in_a_cell_is_the_one_shown() {
    let mut state = board(1, 1, vec![Tile::WALL]);
    state.bombs.push(BombState { pos: Vec2 { x: 0, y: 0 }, fuse: 1 });
    state.explosions.push(Vec2 { x: 0, y: 0 });
    assert_eq!(cell_icon(&state, "me", 0, 0), "\u{1F4A3}");
    state.players.push(player("me", 0, 0, 1, 1));
    assert_eq!(cell_icon(&state, "me", 0, 0), "\u{1F916}");
    state.players.push(player("you", 0, 0, 1, 1));
    assert_eq!(cell_icon(&state, "me", 0, 0), "\u{1F3C3}");
}

#[test]
fn what_lies_under_a_cell_shows_in_order() {
    let mut state = board(2, 2, vec![Tile::AIR, Tile::WALL, Tile::BOX]);
    assert_eq!(cell_icon(&state, "me", 0, 0), "  ");
    assert_eq!(cell_icon(&state, "me", 1, 0), "\u{1F9F1}");
    assert_eq!(cell_icon(&state, "me", 0, 1), "\u{1F4E6}");
    assert_eq!(cell_icon(&state, "me", 1, 1), "  ");
    state.explosions.push(Vec2 { x: 1, y: 0 });
    assert_eq!(cell_icon(&state, "me", 1, 0), "\u{1F4A5}");
    state.bombs.push(BombState { pos: Vec2 { x: 1, y: 0 }, fuse: 2 });
    assert_eq!(cell_icon(&state, "me", 1, 0), "\u{1F4A3}");
}

#[test]
fn a_cell_far_beyond_the_tiles_is_empty() {
    let state = board(usize::MAX, usize::MAX, vec![Tile::WALL]);
    assert_eq!(cell_icon(&state, "me", 0, 0), "\u{1F9F1}");
    assert_eq!(cell_icon(&state, "me", 1, 0), "  ");
    assert_eq!(cell_icon(&state, "me", usize::MAX - 1, usize::MAX - 1), "  ");
    assert_eq!(cell_icon(&state, "me", 1, 1), "  ");
}

#[test]
fn short_and_long_ids_in_the_player_lines() {
    let mut state = board(0, 0, Vec::new());
    state.players.push(player("", 0, 0, 1, 2));
    state.players.push(player("abcd", 0, 0, i32::MAX, i32::MIN));
    state.players.push(player("abcde", 0, 0, 0, 0));
    state.players.push(player("\u{e9}t\u{e9}-\u{1F600}x", 0, 0, 7, 8));
    let expected = format!(
        "{}{}",
        CLEAR,
        "\u{2554}\u{2557}\n\
         \u{255A}\u{255D}\n\
         -- PLAYERS --\n\
         \u{1F3C3} Player ... | Health: 1, Score: 2\n\
         \u{1F6B6} Player ...abcd | Health: 2147483647, Score: -2147483648\n\
         \u{1F483} Player ...bcde | Health: 0, Score: 0\n\
         \u{1F57A} Player ...\u{e9}-\u{1F600}x | Health: 7, Score: 8\n"
    );
    assert_eq!(render_classic_state(&state, "nobody"), expected);
}
