//! What holds of the engine whatever arrives: the laws of the session, stated
//! over the specifications that the contracts of the executable functions use.

use vstd::prelude::*;
use crate::codec::{
    envelope_text, lemma_ready_text, move_message_text, status_message_text, DecodeError, Frame,
};
use crate::decode::Decode;
use crate::json::{parsed_json, Json};
use crate::session::{
    dropped_reaction, identity_after, reaction_to, read_step_of, Incoming, NoticeView, Purpose,
    ReadStepView,
};
use crate::types::{
    ClassicStatePayload, ErrorMessage, GameStartPayload, LobbyUpdateMessage, WelcomeMessage,
};
use crate::wire::{MessageType, PlayerMove};

verus! {

/// After a `welcome` whose payload decodes, the identity is the payload's
/// client id, whatever it was before.
pub proof fn law_welcome_assigns_identity(identity: Option<Seq<char>>, payload: Json)
    requires
        WelcomeMessage::decoded(payload) is Some,
    ensures
        identity_after(identity, MessageType::Welcome, payload) == Some(
            WelcomeMessage::decoded(payload)->Some_0.client_id,
        ),
{
}

/// No envelope but a `welcome` touches the identity: once assigned it stays,
/// however many other envelopes are handled after it or beside it.
pub proof fn law_only_welcome_touches_identity(
    identity: Option<Seq<char>>,
    kind: MessageType,
    payload: Json,
)
    requires
        kind != MessageType::Welcome,
    ensures
        identity_after(identity, kind, payload) == identity,
{
}

/// A tick that arrives while the identity is unknown is answered with no
/// move, whatever its payload and whatever the strategy would pick.
pub proof fn law_no_move_before_identity(payload: Json, chosen: PlayerMove)
    ensures
        reaction_to(None, MessageType::ClassicState, payload, chosen).outbound is None,
        identity_after(None, MessageType::ClassicState, payload) is None,
{
}

/// A tick that decodes while the identity is known is answered with exactly
/// one `classic_input`, and its `move` is the wire name of the move the
/// strategy picked.
pub proof fn law_one_move_per_tick(own_id: Seq<char>, payload: Json, chosen: PlayerMove)
    requires
        ClassicStatePayload::decoded(payload) is Some,
    ensures
        reaction_to(Some(own_id), MessageType::ClassicState, payload, chosen).outbound == Some(
            (move_message_text(chosen), Purpose::Move),
        ),
        move_message_text(chosen) == envelope_text(
            MessageType::ClassicInput,
            "{\"move\":\""@ + chosen.wire_name() + "\"}"@,
        ),
        reaction_to(Some(own_id), MessageType::ClassicState, payload, chosen).notice
            == (NoticeView::Tick {
            state: ClassicStatePayload::decoded(payload)->Some_0,
            own_id,
            chosen,
        }),
{
}

/// Text that is not JSON gives no envelope and does not end the session: the
/// read loop ignores the frame and reads on.
pub proof fn law_malformed_text_is_ignored(text: String)
    requires
        parsed_json(text@) is None,
    ensures
        read_step_of(Incoming::Frame(Frame::Text(text))) == ReadStepView::Ignore(
            DecodeError::Syntax,
        ),
{
}

/// The read loop stops on a failure of the transport and at the end of the
/// connection, and on no frame.
pub proof fn law_only_the_transport_ends_the_session(incoming: Incoming)
    ensures
        read_step_of(incoming) is Stop <==> !(incoming is Frame),
{
}

/// Whether the payload of a kind fails to decode though the kind has a shape
/// for it.
pub open spec fn is_malformed(kind: MessageType, payload: Json) -> bool {
    match kind {
        MessageType::Welcome => WelcomeMessage::decoded(payload) is None,
        MessageType::UpdateLobby => LobbyUpdateMessage::decoded(payload) is None,
        MessageType::Error => ErrorMessage::decoded(payload) is None,
        MessageType::GameStart => GameStartPayload::decoded(payload) is None,
        MessageType::ClassicState => ClassicStatePayload::decoded(payload) is None,
        _ => false,
    }
}

/// A payload that does not decode for its kind drops that one message:
/// nothing is sent, the identity stays, and whatever comes next is handled as
/// if the message had never come.
pub proof fn law_malformed_payload_drops_one_message(
    identity: Option<Seq<char>>,
    kind: MessageType,
    payload: Json,
    chosen: PlayerMove,
    next_kind: MessageType,
    next_payload: Json,
    next_chosen: PlayerMove,
)
    requires
        is_malformed(kind, payload),
    ensures
        reaction_to(identity, kind, payload, chosen) == dropped_reaction(kind),
        identity_after(identity, kind, payload) == identity,
        reaction_to(identity_after(identity, kind, payload), next_kind, next_payload, next_chosen)
            == reaction_to(identity, next_kind, next_payload, next_chosen),
{
}

/// `back_to_lobby` is answered with exactly one `player_status_update` that
/// declares readiness with an empty token, whatever the payload, the identity
/// and the token the session began with.
pub proof fn law_back_to_lobby_declares_ready(
    identity: Option<Seq<char>>,
    payload: Json,
    chosen: PlayerMove,
)
    ensures
        reaction_to(identity, MessageType::BackToLobby, payload, chosen).outbound == Some(
            (status_message_text(true, Seq::<char>::empty()), Purpose::Ready),
        ),
        status_message_text(true, Seq::<char>::empty()) == envelope_text(
            MessageType::PlayerStatusUpdate,
            "{\"is_ready\":true,\"auth_token\":\"\"}"@,
        ),
{
    lemma_ready_text();
}

/// The kinds that the client sends are never acted on when they arrive: they
/// are logged as they stand, and no other kind is.
pub proof fn law_outbound_kinds_are_only_logged(
    identity: Option<Seq<char>>,
    kind: MessageType,
    payload: Json,
    chosen: PlayerMove,
)
    ensures
        kind.is_outbound() <==> reaction_to(identity, kind, payload, chosen).notice
            == NoticeView::Unexpected(kind, payload),
        kind.is_outbound() ==> reaction_to(identity, kind, payload, chosen).outbound is None,
{
}

/// Whatever arrives, the answer is no message, or the `classic_input` of the
/// chosen move, or the `player_status_update` that declares readiness with an
/// empty token. The token of the first message occurs in no answer.
pub proof fn law_answers_are_moves_or_bare_readiness(
    identity: Option<Seq<char>>,
    kind: MessageType,
    payload: Json,
    chosen: PlayerMove,
)
    ensures
        ({
            let outbound = reaction_to(identity, kind, payload, chosen).outbound;
            ||| outbound is None
            ||| outbound == Some((move_message_text(chosen), Purpose::Move))
            ||| outbound == Some((status_message_text(true, Seq::<char>::empty()), Purpose::Ready))
        }),
{
}

/// Only a tick and `back_to_lobby` are ever answered with a message.
pub proof fn law_other_kinds_send_nothing(
    identity: Option<Seq<char>>,
    kind: MessageType,
    payload: Json,
    chosen: PlayerMove,
)
    requires
        kind != MessageType::ClassicState,
        kind != MessageType::BackToLobby,
    ensures
        reaction_to(identity, kind, payload, chosen).outbound is None,
{
}

} // verus!
