//! The session: the identity the coordinator assigned, the strategy that
//! picks moves, and the reaction to every kind of envelope.

use vstd::prelude::*;
use crate::codec::{
    decode, decoded_frame, encode_move, encode_ready, encode_status, move_message_text,
    status_message_text, DecodeError, EncodeError, Frame,
};
use crate::decode::Decode;
use crate::json::Json;
use crate::types::{
    ClassicStatePayload, ClassicStateView, ErrorMessage, GameStartPayload, GameStartView,
    LobbyUpdateMessage, Message, PlayerInfo, WelcomeMessage, WelcomeView,
};
use crate::wire::{MessageType, PlayerMove};

verus! {

/// The decision strategy: it picks the next move from the player's own id and
/// the latest snapshot. The engine calls it once for every tick it answers and
/// sends whatever it returns; it puts no time limit on the call.
pub trait BomberBot: Send + Sync + 'static {
    fn calc_next_move(&self, bot_id: &str, state: &ClassicStatePayload) -> PlayerMove;
}

/// What the session remembers: the identity the coordinator assigned, once
/// it has assigned one.
#[derive(Debug, Clone, PartialEq, Eq)]
pub struct SessionState {
    pub client_id: Option<String>,
}

impl View for SessionState {
    type V = Option<Seq<char>>;

    open spec fn view(&self) -> Option<Seq<char>> {
        match self.client_id {
            Some(id) => Some(id@),
            None => None,
        }
    }
}

impl SessionState {
    /// The session at connection start: no identity yet.
    pub fn new() -> (r: SessionState)
        ensures
            r@ is None,
    {
        SessionState { client_id: None }
    }

    /// The identity, once assigned.
    pub fn identity(&self) -> (r: Option<&str>)
        ensures
            match r {
                Some(id) => self@ == Some(id@),
                None => self@ is None,
            },
    {
        match &self.client_id {
            Some(id) => Some(id.as_str()),
            None => None,
        }
    }
}

/// What an outbound message is for: it decides the complaint when the send
/// queue refuses the message.
#[derive(Debug, Clone, Copy, PartialEq, Eq, Structural)]
pub enum Purpose {
    InitialReady,
    Ready,
    Move,
}

/// A message to enqueue for the coordinator.
#[derive(Debug, Clone, PartialEq, Eq)]
pub struct Outbound {
    pub text: String,
    pub purpose: Purpose,
}

impl View for Outbound {
    type V = (Seq<char>, Purpose);

    open spec fn view(&self) -> (Seq<char>, Purpose) {
        (self.text@, self.purpose)
    }
}

/// What a reaction has to tell the operator.
#[derive(Debug)]
pub enum Notice {
    /// The coordinator assigned an identity and listed its games.
    Welcome(WelcomeMessage),
    /// The lobby changed. `identity` is the session's at that moment, if any.
    Lobby { lobby: LobbyUpdateMessage, identity: Option<String> },
    /// The coordinator complained.
    ServerError(ErrorMessage),
    /// A game began.
    GameStart(GameStartPayload),
    /// A tick was answered with `chosen`.
    Tick { state: ClassicStatePayload, own_id: String, chosen: PlayerMove },
    /// The player is back in the lobby.
    BackToLobby,
    /// A kind arrived that only the client sends.
    Unexpected(Message),
    /// The payload of a known kind had another shape; the message was dropped.
    Dropped(MessageType),
    /// A tick arrived before the identity was known; it was passed over.
    Skipped,
}

pub enum NoticeView {
    Welcome(WelcomeView),
    Lobby { lobby: Map<Seq<char>, PlayerInfo>, identity: Option<Seq<char>> },
    ServerError(Seq<char>),
    GameStart(GameStartView),
    Tick { state: ClassicStateView, own_id: Seq<char>, chosen: PlayerMove },
    BackToLobby,
    Unexpected(MessageType, Json),
    Dropped(MessageType),
    Skipped,
}

impl View for Notice {
    type V = NoticeView;

    open spec fn view(&self) -> NoticeView {
        match self {
            Notice::Welcome(welcome) => NoticeView::Welcome(welcome@),
            Notice::Lobby { lobby, identity } => NoticeView::Lobby {
                lobby: lobby@,
                identity: match identity {
                    Some(id) => Some(id@),
                    None => None,
                },
            },
            Notice::ServerError(error) => NoticeView::ServerError(error@),
            Notice::GameStart(game) => NoticeView::GameStart(game@),
            Notice::Tick { state, own_id, chosen } => NoticeView::Tick {
                state: state@,
                own_id: own_id@,
                chosen: *chosen,
            },
            Notice::BackToLobby => NoticeView::BackToLobby,
            Notice::Unexpected(message) => NoticeView::Unexpected(message@.0, message@.1),
            Notice::Dropped(kind) => NoticeView::Dropped(*kind),
            Notice::Skipped => NoticeView::Skipped,
        }
    }
}

/// The reaction to one envelope: at most one message to enqueue, and a notice.
#[derive(Debug)]
pub struct Reaction {
    pub outbound: Option<Outbound>,
    pub notice: Notice,
}

pub struct ReactionView {
    pub outbound: Option<(Seq<char>, Purpose)>,
    pub notice: NoticeView,
}

impl View for Reaction {
    type V = ReactionView;

    open spec fn view(&self) -> ReactionView {
        ReactionView {
            outbound: match self.outbound {
                Some(message) => Some(message@),
                None => None,
            },
            notice: self.notice@,
        }
    }
}

impl Reaction {
    /// The move this reaction answers a tick with; `Nothing` where it answers none.
    pub open spec fn chosen(&self) -> PlayerMove {
        match self.notice {
            Notice::Tick { chosen, .. } => chosen,
            _ => PlayerMove::Nothing,
        }
    }
}

/// The identity after an envelope: a `welcome` whose payload decodes assigns
/// its client id, over an earlier one too; nothing else touches the identity.
pub open spec fn identity_after(identity: Option<Seq<char>>, kind: MessageType, payload: Json)
    -> Option<Seq<char>> {
    match kind {
        MessageType::Welcome => match WelcomeMessage::decoded(payload) {
            Some(welcome) => Some(welcome.client_id),
            None => identity,
        },
        _ => identity,
    }
}

/// The reaction to a tick that is answered with `chosen`.
pub open spec fn tick_reaction(own_id: Seq<char>, state: ClassicStateView, chosen: PlayerMove)
    -> ReactionView {
    ReactionView {
        outbound: Some((move_message_text(chosen), Purpose::Move)),
        notice: NoticeView::Tick { state, own_id, chosen },
    }
}

/// The reaction to a message that is dropped because its payload has another shape.
pub open spec fn dropped_reaction(kind: MessageType) -> ReactionView {
    ReactionView { outbound: None, notice: NoticeView::Dropped(kind) }
}

/// The reaction to an envelope of `kind` with `payload`, for a session with
/// `identity`. `chosen` is the strategy's answer; it counts only where the
/// envelope is a tick that decodes and the identity is known.
pub open spec fn reaction_to(
    identity: Option<Seq<char>>,
    kind: MessageType,
    payload: Json,
    chosen: PlayerMove,
) -> ReactionView {
    match kind {
        MessageType::Welcome => match WelcomeMessage::decoded(payload) {
            Some(welcome) => ReactionView { outbound: None, notice: NoticeView::Welcome(welcome) },
            None => dropped_reaction(kind),
        },
        MessageType::UpdateLobby => match LobbyUpdateMessage::decoded(payload) {
            Some(lobby) => ReactionView {
                outbound: None,
                notice: NoticeView::Lobby { lobby, identity },
            },
            None => dropped_reaction(kind),
        },
        MessageType::Error => match ErrorMessage::decoded(payload) {
            Some(message) => ReactionView {
                outbound: None,
                notice: NoticeView::ServerError(message),
            },
            None => dropped_reaction(kind),
        },
        MessageType::GameStart => match GameStartPayload::decoded(payload) {
            Some(game) => ReactionView { outbound: None, notice: NoticeView::GameStart(game) },
            None => dropped_reaction(kind),
        },
        MessageType::ClassicState => match ClassicStatePayload::decoded(payload) {
            Some(state) => match identity {
                Some(own_id) => tick_reaction(own_id, state, chosen),
                None => ReactionView { outbound: None, notice: NoticeView::Skipped },
            },
            None => dropped_reaction(kind),
        },
        MessageType::BackToLobby => ReactionView {
            outbound: Some((status_message_text(true, Seq::<char>::empty()), Purpose::Ready)),
            notice: NoticeView::BackToLobby,
        },
        MessageType::PlayerStatusUpdate | MessageType::ClassicInput => ReactionView {
            outbound: None,
            notice: NoticeView::Unexpected(kind, payload),
        },
    }
}

/// What the socket reports next to the read loop.
#[derive(Debug, Clone, PartialEq, Eq)]
pub enum Incoming {
    Frame(Frame),
    /// The transport failed.
    Failure,
    /// The connection ended.
    End,
}

/// What the read loop does with what the socket reported.
#[derive(Debug)]
pub enum ReadStep {
    /// Hand the envelope to a dispatch unit of its own, and read on.
    Dispatch(Message),
    /// Drop the frame, and read on.
    Ignore(DecodeError),
    /// The session is over.
    Stop,
}

pub enum ReadStepView {
    Dispatch(MessageType, Json),
    Ignore(DecodeError),
    Stop,
}

impl View for ReadStep {
    type V = ReadStepView;

    open spec fn view(&self) -> ReadStepView {
        match self {
            ReadStep::Dispatch(message) => ReadStepView::Dispatch(message@.0, message@.1),
            ReadStep::Ignore(why) => ReadStepView::Ignore(*why),
            ReadStep::Stop => ReadStepView::Stop,
        }
    }
}

/// What the read loop does with what the socket reported: a frame that holds
/// an envelope is dispatched; any other frame is ignored and reading goes on;
/// a failure or the end of the connection ends the session.
pub open spec fn read_step_of(incoming: Incoming) -> ReadStepView {
    match incoming {
        Incoming::Frame(frame) => match decoded_frame(frame) {
            Ok(envelope) => ReadStepView::Dispatch(envelope.0, envelope.1),
            Err(why) => ReadStepView::Ignore(why),
        },
        _ => ReadStepView::Stop,
    }
}

/// The client engine.
pub struct Bomber;

impl Bomber {
    /// The first message of a session: it declares the client ready and
    /// carries the authentication token, whatever the token is.
    pub fn initial_ready(auth_token: &str) -> (r: Result<Outbound, EncodeError>)
        ensures
            r matches Ok(message) && message@ == (
                status_message_text(true, auth_token@),
                Purpose::InitialReady,
            ),
    {
        match encode_status(true, auth_token) {
            Ok(text) => Ok(Outbound { text, purpose: Purpose::InitialReady }),
            Err(e) => Err(e),
        }
    }

    /// One step of the read loop.
    pub fn read_step(incoming: &Incoming) -> (r: ReadStep)
        ensures
            r@ == read_step_of(*incoming),
    {
        match incoming {
            Incoming::Frame(frame) => match decode(frame) {
                Ok(message) => ReadStep::Dispatch(message),
                Err(e) => ReadStep::Ignore(e),
            },
            _ => ReadStep::Stop,
        }
    }

    /// The reaction to a tick once the strategy has answered: exactly one
    /// `classic_input` with the chosen move.
    pub fn answer_tick(own_id: &str, state: ClassicStatePayload, chosen: PlayerMove) -> (r:
        Reaction)
        ensures
            r@ == tick_reaction(own_id@, state@, chosen),
    {
        Reaction {
            outbound: Some(Outbound { text: encode_move(chosen), purpose: Purpose::Move }),
            notice: Notice::Tick { state, own_id: crate::text::owned(own_id), chosen },
        }
    }

    /// Reacts to one envelope. The strategy is asked only for a tick that
    /// decodes while the identity is known: `r.chosen()` is what it answered
    /// to the identity and the snapshot that the notice holds. An envelope of
    /// a kind that only the client sends is handed back as it came.
    pub fn handle_message<B: BomberBot>(msg: Message, bot: &B, session: &mut SessionState) -> (r:
        Reaction)
        ensures
            final(session)@ == identity_after(old(session)@, msg@.0, msg@.1),
            r@ == reaction_to(old(session)@, msg@.0, msg@.1, r.chosen()),
            r.notice matches Notice::Tick { state, own_id, chosen } ==> exists|
                id: &str,
                asked: ClassicStatePayload,
            |
                id@ == own_id@ && asked@ == state@ && #[trigger] call_ensures(
                    B::calc_next_move,
                    (bot, id, &asked),
                    chosen,
                ),
            msg.type_of.is_outbound() ==> r.notice == Notice::Unexpected(msg),
    {
        let kind: MessageType = msg.type_of;
        match kind {
            MessageType::Welcome => match WelcomeMessage::decode(&msg.payload) {
                Some(welcome) => {
                    session.client_id = Some(welcome.client_id.clone());
                    Reaction { outbound: None, notice: Notice::Welcome(welcome) }
                },
                None => Reaction { outbound: None, notice: Notice::Dropped(kind) },
            },
            MessageType::UpdateLobby => match LobbyUpdateMessage::decode(&msg.payload) {
                Some(lobby) => {
                    let identity: Option<String> = match &session.client_id {
                        Some(id) => Some(id.clone()),
                        None => None,
                    };
                    Reaction { outbound: None, notice: Notice::Lobby { lobby, identity } }
                },
                None => Reaction { outbound: None, notice: Notice::Dropped(kind) },
            },
            MessageType::Error => match ErrorMessage::decode(&msg.payload) {
                Some(error) => Reaction { outbound: None, notice: Notice::ServerError(error) },
                None => Reaction { outbound: None, notice: Notice::Dropped(kind) },
            },
            MessageType::GameStart => match GameStartPayload::decode(&msg.payload) {
                Some(game) => Reaction { outbound: None, notice: Notice::GameStart(game) },
                None => Reaction { outbound: None, notice: Notice::Dropped(kind) },
            },
            MessageType::ClassicState => match ClassicStatePayload::decode(&msg.payload) {
                Some(state) => match &session.client_id {
                    Some(id) => {
                        let own_id: &str = id.as_str();
                        let chosen: PlayerMove = bot.calc_next_move(own_id, &state);
                        assert(call_ensures(B::calc_next_move, (bot, own_id, &state), chosen));
                        Self::answer_tick(own_id, state, chosen)
                    },
                    None => Reaction { outbound: None, notice: Notice::Skipped },
                },
                None => Reaction { outbound: None, notice: Notice::Dropped(kind) },
            },
            MessageType::BackToLobby => Reaction {
                outbound: Some(Outbound { text: encode_ready(), purpose: Purpose::Ready }),
                notice: Notice::BackToLobby,
            },
            MessageType::PlayerStatusUpdate | MessageType::ClassicInput => Reaction {
                outbound: None,
                notice: Notice::Unexpected(msg),
            },
        }
    }
}

} // verus!
