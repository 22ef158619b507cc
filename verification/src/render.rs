//! The picture of a tick: the board as a bordered grid of glyphs, then a line
//! for every player and every bomb.

use vstd::prelude::*;
use vstd::string::StringExecFns;
use crate::text::{
    append_decimal, at_most, decimal, same_text, tail_four, text_at_most, text_tail_four,
};
use crate::types::{
    views, BombState, ClassicStatePayload, ClassicStateView, FieldState, FieldView, PlayerState,
    PlayerStateView, Tile, Vec2,
};

verus! {

/// The glyph of the player the picture is drawn for.
pub open spec fn own_glyph() -> Seq<char> {
    "\u{1F916}"@
}

/// The glyphs of the other players, by turns.
pub open spec fn rival_glyph(k: int) -> Seq<char> {
    if k == 0 {
        "\u{1F3C3}"@
    } else if k == 1 {
        "\u{1F6B6}"@
    } else if k == 2 {
        "\u{1F483}"@
    } else {
        "\u{1F57A}"@
    }
}

pub open spec fn wall_glyph() -> Seq<char> {
    "\u{1F9F1}"@
}

pub open spec fn box_glyph() -> Seq<char> {
    "\u{1F4E6}"@
}

pub open spec fn blast_glyph() -> Seq<char> {
    "\u{1F4A5}"@
}

pub open spec fn bomb_glyph() -> Seq<char> {
    "\u{1F4A3}"@
}

/// An empty cell: two spaces, as wide as a glyph.
pub open spec fn blank() -> Seq<char> {
    "  "@
}

/// Whether a position is the cell in column `x` of row `y`.
pub open spec fn stands_at(pos: Vec2, x: int, y: int) -> bool {
    pos.x == x && pos.y == y
}

/// How many of the first `n` players are rivals (their id is not `own`) whose
/// id is at most `id` in the order of strings.
pub open spec fn rivals_up_to(players: Seq<PlayerStateView>, own: Seq<char>, id: Seq<char>, n: int)
    -> nat
    decreases n,
{
    if n <= 0 {
        0
    } else {
        let rest = rivals_up_to(players, own, id, n - 1);
        if players[n - 1].id != own && at_most(players[n - 1].id, id) {
            rest + 1
        } else {
            rest
        }
    }
}

/// The glyph of the player `id`. The player `own` has a glyph of its own. The
/// rivals take theirs by turns in the order of their ids; of rivals that share
/// an id the last one counts.
pub open spec fn icon_of(players: Seq<PlayerStateView>, own: Seq<char>, id: Seq<char>) -> Seq<
    char,
> {
    if id == own {
        own_glyph()
    } else {
        let k = rivals_up_to(players, own, id, players.len() as int);
        if k == 0 {
            " "@
        } else {
            rival_glyph((k - 1) % 4)
        }
    }
}

/// The last of the first `n` players that stands in the cell, if one does.
pub open spec fn last_player_at(players: Seq<PlayerStateView>, x: int, y: int, n: int) -> Option<
    int,
>
    decreases n,
{
    if n <= 0 {
        None
    } else if stands_at(players[n - 1].pos, x, y) {
        Some(n - 1)
    } else {
        last_player_at(players, x, y, n - 1)
    }
}

pub open spec fn bomb_at(bombs: Seq<BombState>, x: int, y: int) -> bool {
    exists|i: int| 0 <= i < bombs.len() && stands_at(#[trigger] bombs[i].pos, x, y)
}

pub open spec fn blast_at(explosions: Seq<Vec2>, x: int, y: int) -> bool {
    exists|i: int| 0 <= i < explosions.len() && stands_at(#[trigger] explosions[i], x, y)
}

/// The glyph of the tile in a cell. A cell that `tiles` does not reach is empty.
pub open spec fn tile_glyph(field: FieldView, x: int, y: int) -> Seq<char> {
    let index = y * field.width + x;
    if 0 <= index < field.tiles.len() {
        match field.tiles[index] {
            Tile::WALL => wall_glyph(),
            Tile::BOX => box_glyph(),
            Tile::AIR => blank(),
        }
    } else {
        blank()
    }
}

/// What a cell shows: a player before a bomb, a bomb before an explosion, an
/// explosion before the tile; of several players the last.
pub open spec fn cell(state: ClassicStateView, own: Seq<char>, x: int, y: int) -> Seq<char> {
    match last_player_at(state.players, x, y, state.players.len() as int) {
        Some(i) => icon_of(state.players, own, state.players[i].id),
        None => if bomb_at(state.bombs, x, y) {
            bomb_glyph()
        } else if blast_at(state.explosions, x, y) {
            blast_glyph()
        } else {
            tile_glyph(state.field, x, y)
        },
    }
}

/// The first `n` cells of row `y`.
pub open spec fn cells(state: ClassicStateView, own: Seq<char>, y: int, n: int) -> Seq<char>
    decreases n,
{
    if n <= 0 {
        Seq::empty()
    } else {
        cells(state, own, y, n - 1) + cell(state, own, n - 1, y)
    }
}

/// The first `n` rows, each between its side borders.
pub open spec fn rows(state: ClassicStateView, own: Seq<char>, n: int) -> Seq<char>
    decreases n,
{
    if n <= 0 {
        Seq::empty()
    } else {
        rows(state, own, n - 1) + "\u{2551}"@ + cells(state, own, n - 1, state.field.width as int)
            + "\u{2551}\n"@
    }
}

/// A horizontal border over `n` cells.
pub open spec fn bar(n: int) -> Seq<char>
    decreases n,
{
    if n <= 0 {
        Seq::empty()
    } else {
        bar(n - 1) + "\u{2550}\u{2550}"@
    }
}

pub open spec fn player_line(players: Seq<PlayerStateView>, own: Seq<char>, p: PlayerStateView)
    -> Seq<char> {
    icon_of(players, own, p.id) + " Player ..."@ + tail_four(p.id) + " | Health: "@ + decimal(
        p.health as int,
    ) + ", Score: "@ + decimal(p.score as int) + "\n"@
}

/// The lines of the first `n` players.
pub open spec fn player_lines(players: Seq<PlayerStateView>, own: Seq<char>, n: int) -> Seq<char>
    decreases n,
{
    if n <= 0 {
        Seq::empty()
    } else {
        player_lines(players, own, n - 1) + player_line(players, own, players[n - 1])
    }
}

pub open spec fn bomb_line(bomb: BombState) -> Seq<char> {
    bomb_glyph() + " at ("@ + decimal(bomb.pos.x as int) + ","@ + decimal(bomb.pos.y as int)
        + ") | Fuse: "@ + decimal(bomb.fuse as int) + "\n"@
}

/// The lines of the first `n` bombs.
pub open spec fn bomb_lines(bombs: Seq<BombState>, n: int) -> Seq<char>
    decreases n,
{
    if n <= 0 {
        Seq::empty()
    } else {
        bomb_lines(bombs, n - 1) + bomb_line(bombs[n - 1])
    }
}

/// The section on bombs; nothing where there is no bomb.
pub open spec fn bomb_section(bombs: Seq<BombState>) -> Seq<char> {
    if bombs.len() == 0 {
        Seq::empty()
    } else {
        "-- BOMBS --\n"@ + bomb_lines(bombs, bombs.len() as int)
    }
}

/// The whole picture: the screen is cleared, then come the bordered grid, the
/// players and the bombs.
pub open spec fn picture(state: ClassicStateView, own: Seq<char>) -> Seq<char> {
    "\x1B[H\x1B[2J"@ + "\u{2554}"@ + bar(state.field.width as int) + "\u{2557}\n"@ + rows(
        state,
        own,
        state.field.height as int,
    ) + "\u{255A}"@ + bar(state.field.width as int) + "\u{255D}\n"@ + "-- PLAYERS --\n"@
        + player_lines(state.players, own, state.players.len() as int) + bomb_section(state.bombs)
}

fn rival_icon(k: usize) -> (r: &'static str)
    requires
        k < 4,
    ensures
        r@ == rival_glyph(k as int),
{
    if k == 0 {
        "\u{1F3C3}"
    } else if k == 1 {
        "\u{1F6B6}"
    } else if k == 2 {
        "\u{1F483}"
    } else {
        "\u{1F57A}"
    }
}

/// The glyph of the player `id` among `players`, drawn for `own_id`.
pub fn player_icon(players: &Vec<PlayerState>, own_id: &str, id: &str) -> (r: &'static str)
    ensures
        r@ == icon_of(views(players@), own_id@, id@),
{
    if same_text(id, own_id) {
        return "\u{1F916}";
    }
    let mut count: usize = 0;
    let mut i: usize = 0;
    while i < players.len()
        invariant
            i <= players.len(),
            count <= i,
            count == rivals_up_to(views(players@), own_id@, id@, i as int),
        decreases players.len() - i,
    {
        let other: &str = players[i].id.as_str();
        if !same_text(other, own_id) && text_at_most(other, id) {
            count += 1;
        }
        i += 1;
    }
    if count == 0 {
        " "
    } else {
        rival_icon((count - 1) % 4)
    }
}

fn on_cell(pos: &Vec2, x: usize, y: usize) -> (r: bool)
    ensures
        r == stands_at(*pos, x as int, y as int),
{
    pos.x >= 0 && pos.y >= 0 && pos.x as usize == x && pos.y as usize == y
}

fn find_player(players: &Vec<PlayerState>, x: usize, y: usize) -> (r: Option<usize>)
    ensures
        match r {
            Some(i) => last_player_at(views(players@), x as int, y as int, players.len() as int)
                == Some(i as int) && i < players.len(),
            None => last_player_at(views(players@), x as int, y as int, players.len() as int)
                is None,
        },
{
    let mut found: Option<usize> = None;
    let mut i: usize = 0;
    while i < players.len()
        invariant
            i <= players.len(),
            match found {
                Some(k) => last_player_at(views(players@), x as int, y as int, i as int) == Some(
                    k as int,
                ) && k < i,
                None => last_player_at(views(players@), x as int, y as int, i as int) is None,
            },
        decreases players.len() - i,
    {
        if on_cell(&players[i].pos, x, y) {
            found = Some(i);
        }
        i += 1;
    }
    found
}

fn has_bomb(bombs: &Vec<BombState>, x: usize, y: usize) -> (r: bool)
    ensures
        r == bomb_at(bombs@, x as int, y as int),
{
    let mut i: usize = 0;
    while i < bombs.len()
        invariant
            i <= bombs.len(),
            forall|k: int| 0 <= k < i ==> !stands_at(#[trigger] bombs@[k].pos, x as int, y as int),
        decreases bombs.len() - i,
    {
        if on_cell(&bombs[i].pos, x, y) {
            return true;
        }
        i += 1;
    }
    false
}

fn has_blast(explosions: &Vec<Vec2>, x: usize, y: usize) -> (r: bool)
    ensures
        r == blast_at(explosions@, x as int, y as int),
{
    let mut i: usize = 0;
    while i < explosions.len()
        invariant
            i <= explosions.len(),
            forall|k: int|
                0 <= k < i ==> !stands_at(#[trigger] explosions@[k], x as int, y as int),
        decreases explosions.len() - i,
    {
        if on_cell(&explosions[i], x, y) {
            return true;
        }
        i += 1;
    }
    false
}

fn tile_icon(field: &FieldState, x: usize, y: usize) -> (r: &'static str)
    ensures
        r@ == tile_glyph(field@, x as int, y as int),
{
    assert(y * field.width + x <= u128::MAX) by (nonlinear_arith)
        requires
            y <= 0xffff_ffff_ffff_ffff,
            field.width <= 0xffff_ffff_ffff_ffff,
            x <= 0xffff_ffff_ffff_ffff,
    ;
    assert(y * field.width <= u128::MAX) by (nonlinear_arith)
        requires
            y <= 0xffff_ffff_ffff_ffff,
            field.width <= 0xffff_ffff_ffff_ffff,
    ;
    let wide: u128 = (y as u128) * (field.width as u128) + (x as u128);
    if wide < field.tiles.len() as u128 {
        match field.tiles[wide as usize] {
            Tile::WALL => "\u{1F9F1}",
            Tile::BOX => "\u{1F4E6}",
            Tile::AIR => "  ",
        }
    } else {
        "  "
    }
}

/// The glyph that the cell in column `x` of row `y` shows.
pub fn cell_icon(state: &ClassicStatePayload, own_id: &str, x: usize, y: usize) -> (r:
    &'static str)
    ensures
        r@ == cell(state@, own_id@, x as int, y as int),
{
    assert(views(state.bombs@) =~= state.bombs@);
    match find_player(&state.players, x, y) {
        Some(i) => player_icon(&state.players, own_id, state.players[i].id.as_str()),
        None => if has_bomb(&state.bombs, x, y) {
            "\u{1F4A3}"
        } else if has_blast(&state.explosions, x, y) {
            "\u{1F4A5}"
        } else {
            tile_icon(&state.field, x, y)
        },
    }
}

fn append_bar(out: &mut String, width: usize)
    ensures
        final(out)@ == old(out)@ + bar(width as int),
{
    let mut x: usize = 0;
    assert(out@ =~= old(out)@ + bar(0));
    while x < width
        invariant
            x <= width,
            out@ == old(out)@ + bar(x as int),
        decreases width - x,
    {
        out.append("\u{2550}\u{2550}");
        x += 1;
        assert(out@ =~= old(out)@ + bar(x as int));
    }
}

fn append_cells(out: &mut String, state: &ClassicStatePayload, own_id: &str, y: usize)
    ensures
        final(out)@ == old(out)@ + cells(state@, own_id@, y as int, state.field.width as int),
{
    let mut x: usize = 0;
    assert(out@ =~= old(out)@ + cells(state@, own_id@, y as int, 0));
    while x < state.field.width
        invariant
            x <= state.field.width,
            out@ == old(out)@ + cells(state@, own_id@, y as int, x as int),
        decreases state.field.width - x,
    {
        out.append(cell_icon(state, own_id, x, y));
        x += 1;
        assert(out@ =~= old(out)@ + cells(state@, own_id@, y as int, x as int));
    }
}

fn append_rows(out: &mut String, state: &ClassicStatePayload, own_id: &str)
    ensures
        final(out)@ == old(out)@ + rows(state@, own_id@, state.field.height as int),
{
    let mut y: usize = 0;
    assert(out@ =~= old(out)@ + rows(state@, own_id@, 0));
    while y < state.field.height
        invariant
            y <= state.field.height,
            out@ == old(out)@ + rows(state@, own_id@, y as int),
        decreases state.field.height - y,
    {
        out.append("\u{2551}");
        append_cells(out, state, own_id, y);
        out.append("\u{2551}\n");
        y += 1;
        assert(out@ =~= old(out)@ + rows(state@, own_id@, y as int));
    }
}

fn append_player_line(out: &mut String, players: &Vec<PlayerState>, own_id: &str, i: usize)
    requires
        i < players.len(),
    ensures
        final(out)@ == old(out)@ + player_line(views(players@), own_id@, players@[i as int]@),
{
    let player: &PlayerState = &players[i];
    out.append(player_icon(players, own_id, player.id.as_str()));
    out.append(" Player ...");
    out.append(text_tail_four(player.id.as_str()));
    out.append(" | Health: ");
    append_decimal(out, player.health);
    out.append(", Score: ");
    append_decimal(out, player.score);
    out.append("\n");
    assert(final(out)@ =~= old(out)@ + player_line(views(players@), own_id@, players@[i as int]@));
}

fn append_player_lines(out: &mut String, players: &Vec<PlayerState>, own_id: &str)
    ensures
        final(out)@ == old(out)@ + player_lines(
            views(players@),
            own_id@,
            players.len() as int,
        ),
{
    let mut i: usize = 0;
    assert(out@ =~= old(out)@ + player_lines(views(players@), own_id@, 0));
    while i < players.len()
        invariant
            i <= players.len(),
            out@ == old(out)@ + player_lines(views(players@), own_id@, i as int),
        decreases players.len() - i,
    {
        append_player_line(out, players, own_id, i);
        i += 1;
        assert(out@ =~= old(out)@ + player_lines(views(players@), own_id@, i as int));
    }
}

fn append_bomb_line(out: &mut String, bomb: &BombState)
    ensures
        final(out)@ == old(out)@ + bomb_line(*bomb),
{
    out.append("\u{1F4A3}");
    out.append(" at (");
    append_decimal(out, bomb.pos.x);
    out.append(",");
    append_decimal(out, bomb.pos.y);
    out.append(") | Fuse: ");
    append_decimal(out, bomb.fuse);
    out.append("\n");
    assert(final(out)@ =~= old(out)@ + bomb_line(*bomb));
}

fn append_bomb_section(out: &mut String, bombs: &Vec<BombState>)
    ensures
        final(out)@ == old(out)@ + bomb_section(bombs@),
{
    if bombs.len() == 0 {
        assert(out@ =~= old(out)@ + bomb_section(bombs@));
        return ;
    }
    out.append("-- BOMBS --\n");
    let mut i: usize = 0;
    assert(out@ =~= old(out)@ + "-- BOMBS --\n"@ + bomb_lines(bombs@, 0));
    while i < bombs.len()
        invariant
            i <= bombs.len(),
            out@ == old(out)@ + "-- BOMBS --\n"@ + bomb_lines(bombs@, i as int),
        decreases bombs.len() - i,
    {
        append_bomb_line(out, &bombs[i]);
        i += 1;
        assert(out@ =~= old(out)@ + "-- BOMBS --\n"@ + bomb_lines(bombs@, i as int));
    }
    assert(out@ =~= old(out)@ + bomb_section(bombs@));
}

/// Draws the picture of a tick for the player `own_id`.
pub fn render_classic_state(state: &ClassicStatePayload, own_id: &str) -> (r: String)
    ensures
        r@ == picture(state@, own_id@),
{
    let mut out: String = String::from_str("\x1B[H\x1B[2J");
    out.append("\u{2554}");
    append_bar(&mut out, state.field.width);
    out.append("\u{2557}\n");
    append_rows(&mut out, state, own_id);
    out.append("\u{255A}");
    append_bar(&mut out, state.field.width);
    out.append("\u{255D}\n");
    out.append("-- PLAYERS --\n");
    append_player_lines(&mut out, &state.players, own_id);
    assert(views(state.bombs@) =~= state.bombs@);
    append_bomb_section(&mut out, &state.bombs);
    assert(out@ =~= picture(state@, own_id@));
    out
}

} // verus!
