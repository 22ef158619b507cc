//! What the operator reads: the text of every notice, for standard output or
//! standard error, and the complaint for a message the send queue refused.

use vstd::prelude::*;
use vstd::string::StringExecFns;
use crate::codec::{encode, envelope_text};
use crate::json::{print_value, value_text};
use crate::render::{picture, render_classic_state};
use crate::session::{Notice, Purpose};
use crate::text::{append_decimal, decimal, same_text};
use crate::types::{GameInfo, GameInfoView, LobbyEntry, WelcomeMessage};
use crate::wire::MessageType;

verus! {

/// Text for the operator: `output` for standard output, `errors` for standard
/// error. Each is written as it stands; every line in it ends in a newline.
#[derive(Debug, Clone, PartialEq, Eq)]
pub struct Printout {
    pub output: String,
    pub errors: String,
}

pub struct PrintoutView {
    pub output: Seq<char>,
    pub errors: Seq<char>,
}

impl View for Printout {
    type V = PrintoutView;

    open spec fn view(&self) -> PrintoutView {
        PrintoutView { output: self.output@, errors: self.errors@ }
    }
}

/// A printout for standard output alone.
pub open spec fn said(text: Seq<char>) -> PrintoutView {
    PrintoutView { output: text, errors: Seq::empty() }
}

/// A printout for standard error alone.
pub open spec fn complained(text: Seq<char>) -> PrintoutView {
    PrintoutView { output: Seq::empty(), errors: text }
}

pub open spec fn game_line(game: GameInfoView) -> Seq<char> {
    "- "@ + game.name + ": "@ + game.description + "\n"@
}

/// The lines of the first `n` games.
pub open spec fn game_lines(games: Seq<GameInfoView>, n: int) -> Seq<char>
    decreases n,
{
    if n <= 0 {
        Seq::empty()
    } else {
        game_lines(games, n - 1) + game_line(games[n - 1])
    }
}

pub open spec fn welcome_text(client_id: Seq<char>, games: Seq<GameInfoView>) -> Seq<char> {
    "You connected to the bomberman server: "@ + client_id + "\nAvailable Games:\n"@ + game_lines(
        games,
        games.len() as int,
    )
}

/// The heading of a lobby entry: the entry of the session's own identity is
/// marked as such.
pub open spec fn entry_heading(id: Seq<char>, identity: Option<Seq<char>>) -> Seq<char> {
    if identity == Some(id) {
        "You ("@ + id + "):\n"@
    } else {
        id + ":\n"@
    }
}

pub open spec fn entry_text(entry: LobbyEntry, identity: Option<Seq<char>>) -> Seq<char> {
    entry_heading(entry.id@, identity) + "- Score: "@ + decimal(entry.info.score as int)
        + "\n- State:\n  - "@ + (if entry.info.is_ready {
        "READY"@
    } else {
        "NOT READY"@
    }) + "\n  - "@ + (if entry.info.in_game {
        "IS IN A GAME"@
    } else {
        "IS AVAILABLE"@
    }) + "\n"@
}

/// The texts of the first `n` entries.
pub open spec fn entry_texts(entries: Seq<LobbyEntry>, identity: Option<Seq<char>>, n: int) -> Seq<
    char,
>
    decreases n,
{
    if n <= 0 {
        Seq::empty()
    } else {
        entry_texts(entries, identity, n - 1) + entry_text(entries[n - 1], identity)
    }
}

pub open spec fn lobby_text(entries: Seq<LobbyEntry>, identity: Option<Seq<char>>) -> Seq<char> {
    "Lobby:\n"@ + entry_texts(entries, identity, entries.len() as int)
}

pub open spec fn server_error_text(message: Seq<char>) -> Seq<char> {
    "Server Error: "@ + message + "\n"@
}

pub open spec fn game_start_text(name: Seq<char>) -> Seq<char> {
    "A new "@ + name + " has started\n"@
}

pub open spec fn back_to_lobby_text() -> Seq<char> {
    "You are back inside the lobby\n"@
}

/// The log line of an envelope of a kind that only the client sends: the
/// envelope written out again, or the kind alone where no written payload is
/// at hand.
pub open spec fn unexpected_text(kind: MessageType, payload: Option<Seq<char>>) -> Seq<char> {
    "Received: "@ + (match payload {
        Some(written) => envelope_text(kind, written),
        None => kind.wire_name(),
    }) + "\n"@
}

pub open spec fn dropped_text(kind: MessageType) -> Seq<char> {
    "Dropped a "@ + kind.wire_name() + " message: its payload has another shape\n"@
}

impl Purpose {
    /// The complaint for a message of this purpose that the send queue refused.
    pub open spec fn complaint(self) -> Seq<char> {
        match self {
            Purpose::InitialReady => "Failed to send initial ready status\n"@,
            Purpose::Ready => "Failed to send ready status\n"@,
            Purpose::Move => "Failed to send move\n"@,
        }
    }

    /// The complaint for a message of this purpose that the send queue
    /// refused. The message is lost; the session goes on.
    pub fn delivery_failure(&self) -> (r: Printout)
        ensures
            r@ == complained(self.complaint()),
    {
        let text: &str = match self {
            Purpose::InitialReady => "Failed to send initial ready status\n",
            Purpose::Ready => "Failed to send ready status\n",
            Purpose::Move => "Failed to send move\n",
        };
        Printout { output: String::new(), errors: String::from_str(text) }
    }
}

/// The text of a notice.
pub open spec fn printout_of(notice: Notice) -> PrintoutView {
    match notice {
        Notice::Welcome(welcome) => said(welcome_text(welcome@.client_id, welcome@.current_games)),
        Notice::Lobby { lobby, identity } => said(
            lobby_text(
                lobby.players@,
                match identity {
                    Some(id) => Some(id@),
                    None => None,
                },
            ),
        ),
        Notice::ServerError(error) => complained(server_error_text(error@)),
        Notice::GameStart(game) => said(game_start_text(game.name@)),
        Notice::Tick { state, own_id, chosen } => said(picture(state@, own_id@)),
        Notice::BackToLobby => said(back_to_lobby_text()),
        Notice::Unexpected(message) => said(
            unexpected_text(message.type_of, Some(value_text(message.payload))),
        ),
        Notice::Dropped(kind) => complained(dropped_text(kind)),
        Notice::Skipped => said(Seq::empty()),
    }
}

/// The text that greets the operator after a `welcome`.
pub fn print_welcome(welcome: &WelcomeMessage) -> (r: String)
    ensures
        r@ == welcome_text(welcome@.client_id, welcome@.current_games),
{
    let mut out: String = String::from_str("You connected to the bomberman server: ");
    out.append(welcome.client_id.as_str());
    out.append("\nAvailable Games:\n");
    let ghost head = out@;
    let ghost games = welcome@.current_games;
    let mut i: usize = 0;
    assert(out@ =~= head + game_lines(games, 0));
    while i < welcome.current_games.len()
        invariant
            i <= welcome.current_games.len(),
            games == welcome@.current_games,
            out@ == head + game_lines(games, i as int),
        decreases welcome.current_games.len() - i,
    {
        let game: &GameInfo = &welcome.current_games[i];
        out.append("- ");
        out.append(game.name.as_str());
        out.append(": ");
        out.append(game.description.as_str());
        out.append("\n");
        i += 1;
        assert(out@ =~= head + game_lines(games, i as int));
    }
    assert(out@ =~= welcome_text(welcome@.client_id, welcome@.current_games));
    out
}

fn append_entry(out: &mut String, entry: &LobbyEntry, identity: Option<&str>)
    ensures
        final(out)@ == old(out)@ + entry_text(
            *entry,
            match identity {
                Some(id) => Some(id@),
                None => None,
            },
        ),
{
    let own: bool = match identity {
        Some(id) => same_text(id, entry.id.as_str()),
        None => false,
    };
    if own {
        out.append("You (");
        out.append(entry.id.as_str());
        out.append("):\n");
    } else {
        out.append(entry.id.as_str());
        out.append(":\n");
    }
    out.append("- Score: ");
    append_decimal(out, entry.info.score);
    out.append("\n- State:\n  - ");
    out.append(
        if entry.info.is_ready {
            "READY"
        } else {
            "NOT READY"
        },
    );
    out.append("\n  - ");
    out.append(
        if entry.info.in_game {
            "IS IN A GAME"
        } else {
            "IS AVAILABLE"
        },
    );
    out.append("\n");
    assert(final(out)@ =~= old(out)@ + entry_text(
        *entry,
        match identity {
            Some(id) => Some(id@),
            None => None,
        },
    ));
}

/// The text of the lobby, entry by entry in the order given. The entry under
/// `identity` is marked as the operator's own.
pub fn print_lobby(entries: &Vec<LobbyEntry>, identity: Option<&str>) -> (r: String)
    ensures
        r@ == lobby_text(
            entries@,
            match identity {
                Some(id) => Some(id@),
                None => None,
            },
        ),
{
    let ghost viewer: Option<Seq<char>> = match identity {
        Some(id) => Some(id@),
        None => None,
    };
    let mut out: String = String::from_str("Lobby:\n");
    let mut i: usize = 0;
    assert(out@ =~= "Lobby:\n"@ + entry_texts(entries@, viewer, 0));
    while i < entries.len()
        invariant
            i <= entries.len(),
            viewer == match identity {
                Some(id) => Some(id@),
                None => None,
            },
            out@ == "Lobby:\n"@ + entry_texts(entries@, viewer, i as int),
        decreases entries.len() - i,
    {
        append_entry(&mut out, &entries[i], identity);
        i += 1;
        assert(out@ =~= "Lobby:\n"@ + entry_texts(entries@, viewer, i as int));
    }
    out
}

/// The log line of an envelope of a kind that only the client sends, from the
/// payload as the serializer wrote it.
pub fn print_unexpected(kind: MessageType, payload: Option<&str>) -> (r: String)
    ensures
        r@ == unexpected_text(
            kind,
            match payload {
                Some(written) => Some(written@),
                None => None,
            },
        ),
{
    let mut out: String = String::from_str("Received: ");
    match payload {
        Some(written) => {
            let envelope: String = encode(kind, written);
            out.append(envelope.as_str());
        },
        None => {
            out.append(kind.as_str());
        },
    }
    out.append("\n");
    out
}

fn on_output(text: String) -> (r: Printout)
    ensures
        r@ == said(text@),
{
    Printout { output: text, errors: String::new() }
}

fn on_errors(text: String) -> (r: Printout)
    ensures
        r@ == complained(text@),
{
    Printout { output: String::new(), errors: text }
}

impl Notice {
    /// The text of the notice. For `Unexpected` the serializer writes the
    /// payload out again.
    pub fn print(&self) -> (r: Printout)
        ensures
            r@ == printout_of(*self),
    {
        match self {
            Notice::Welcome(welcome) => on_output(print_welcome(welcome)),
            Notice::Lobby { lobby, identity } => {
                let viewer: Option<&str> = match identity {
                    Some(id) => Some(id.as_str()),
                    None => None,
                };
                on_output(print_lobby(&lobby.players, viewer))
            },
            Notice::ServerError(error) => {
                let mut out: String = String::from_str("Server Error: ");
                out.append(error.message.as_str());
                out.append("\n");
                on_errors(out)
            },
            Notice::GameStart(game) => {
                let mut out: String = String::from_str("A new ");
                out.append(game.name.as_str());
                out.append(" has started\n");
                on_output(out)
            },
            Notice::Tick { state, own_id, chosen } => on_output(
                render_classic_state(state, own_id.as_str()),
            ),
            Notice::BackToLobby => on_output(String::from_str("You are back inside the lobby\n")),
            Notice::Unexpected(message) => match print_value(&message.payload) {
                Ok(written) => on_output(print_unexpected(message.type_of, Some(written.as_str()))),
                Err(_) => on_output(print_unexpected(message.type_of, None)),
            },
            Notice::Dropped(kind) => {
                let mut out: String = String::from_str("Dropped a ");
                out.append(kind.as_str());
                out.append(" message: its payload has another shape\n");
                on_errors(out)
            },
            Notice::Skipped => on_output(String::new()),
        }
    }
}

} // verus!
