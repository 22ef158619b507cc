//! The envelope codec: every message on the wire is
//! `{"type": <kind>, "payload": <payload>}`.

use vstd::prelude::*;
use vstd::string::StringExecFns;
use crate::json::{get_member, json_model, parse_value, parsed_json, quote_text, quoted_json, Json};
use crate::text::{owned, same_text};
use crate::types::{ClassicInputPayload, Message, PlayerStatusUpdatePayload};
use crate::wire::{MessageType, PlayerMove};

verus! {

/// Why a frame gave no envelope.
#[derive(Debug, Clone, Copy, PartialEq, Eq, Structural)]
pub enum DecodeError {
    /// The frame carries no text.
    NotText,
    /// The text is not JSON.
    Syntax,
    /// The JSON is no envelope: it lacks a `type` that names a kind, or a `payload`.
    Shape,
}

/// Why a message could not be written. The contracts of the encoders rule
/// it out: the type is there for the serializer's error to map to.
#[derive(Debug, Clone, Copy, PartialEq, Eq, Structural)]
pub enum EncodeError {
    /// The serializer refused the authentication token.
    Token,
}

/// A frame as the connection delivers it.
#[derive(Debug, Clone, PartialEq, Eq)]
pub enum Frame {
    Text(String),
    /// A binary, ping, pong or close frame.
    Other,
}

impl View for Message {
    type V = (MessageType, Json);

    open spec fn view(&self) -> (MessageType, Json) {
        (self.type_of, json_model(self.payload))
    }
}

/// The envelope that a document is: the kind its `type` names, and its
/// `payload` as it stands.
pub open spec fn envelope_of(j: Json) -> Option<(MessageType, Json)> {
    match (j.member("type"@), j.member("payload"@)) {
        (Some(Json::Text(name)), Some(payload)) => match MessageType::named(name) {
            Some(kind) => Some((kind, payload)),
            None => None,
        },
        _ => None,
    }
}

/// What decoding a text gives.
pub open spec fn decoded_text(text: Seq<char>) -> Result<(MessageType, Json), DecodeError> {
    match parsed_json(text) {
        None => Err(DecodeError::Syntax),
        Some(j) => match envelope_of(j) {
            Some(envelope) => Ok(envelope),
            None => Err(DecodeError::Shape),
        },
    }
}

/// What decoding a frame gives.
pub open spec fn decoded_frame(frame: Frame) -> Result<(MessageType, Json), DecodeError> {
    match frame {
        Frame::Text(text) => decoded_text(text@),
        Frame::Other => Err(DecodeError::NotText),
    }
}

/// Whether a decoder's answer is the one the specification asks for.
pub open spec fn is_decoding(
    r: Result<Message, DecodeError>,
    expected: Result<(MessageType, Json), DecodeError>,
) -> bool {
    match r {
        Ok(message) => expected == Ok::<(MessageType, Json), DecodeError>(message@),
        Err(e) => expected == Err::<(MessageType, Json), DecodeError>(e),
    }
}

/// The text of an envelope of `kind` around a payload already written as JSON.
pub open spec fn envelope_text(kind: MessageType, payload: Seq<char>) -> Seq<char> {
    "{\"type\":\""@ + kind.wire_name() + "\",\"payload\":"@ + payload + "}"@
}

/// The payload of a `classic_input`: `{"move": <name>}`.
pub open spec fn move_payload_text(chosen: PlayerMove) -> Seq<char> {
    "{\"move\":\""@ + chosen.wire_name() + "\"}"@
}

/// The JSON string literal of an authentication token.
pub open spec fn token_literal(token: Seq<char>) -> Seq<char> {
    if token.len() == 0 {
        "\"\""@
    } else {
        quoted_json(token)
    }
}

/// The payload of a `player_status_update` around a token already written
/// as a JSON string literal.
pub open spec fn status_payload_around(is_ready: bool, literal: Seq<char>) -> Seq<char> {
    "{\"is_ready\":"@ + (if is_ready {
        "true"@
    } else {
        "false"@
    }) + ",\"auth_token\":"@ + literal + "}"@
}

/// The payload of a `player_status_update`: `{"is_ready": <bool>, "auth_token": <string>}`.
pub open spec fn status_payload_text(is_ready: bool, token: Seq<char>) -> Seq<char> {
    status_payload_around(is_ready, token_literal(token))
}

/// The whole `classic_input` message for a move.
pub open spec fn move_message_text(chosen: PlayerMove) -> Seq<char> {
    envelope_text(MessageType::ClassicInput, move_payload_text(chosen))
}

/// The whole `player_status_update` message.
pub open spec fn status_message_text(is_ready: bool, token: Seq<char>) -> Seq<char> {
    envelope_text(MessageType::PlayerStatusUpdate, status_payload_text(is_ready, token))
}

/// Reads the envelope out of a parsed document.
pub fn decode_envelope(v: &serde_json::Value) -> (r: Option<Message>)
    ensures
        match r {
            Some(message) => envelope_of(json_model(*v)) == Some(message@),
            None => envelope_of(json_model(*v)) is None,
        },
{
    let name: &str = match get_member(v, "type") {
        Some(t) => match t.as_str() {
            Some(name) => name,
            None => {
                return None;
            },
        },
        None => {
            return None;
        },
    };
    let payload: &serde_json::Value = match get_member(v, "payload") {
        Some(p) => p,
        None => {
            return None;
        },
    };
    match MessageType::from_wire_name(name) {
        Some(type_of) => Some(Message { type_of, payload: payload.clone() }),
        None => None,
    }
}

/// Decodes a text frame's content into an envelope. The payload is kept as it
/// stands: the reaction to the kind decodes it.
pub fn decode_text(text: &str) -> (r: Result<Message, DecodeError>)
    ensures
        is_decoding(r, decoded_text(text@)),
{
    match parse_value(text) {
        Err(_) => Err(DecodeError::Syntax),
        Ok(v) => match decode_envelope(&v) {
            Some(message) => Ok(message),
            None => Err(DecodeError::Shape),
        },
    }
}

/// Decodes a frame into an envelope.
pub fn decode(frame: &Frame) -> (r: Result<Message, DecodeError>)
    ensures
        is_decoding(r, decoded_frame(*frame)),
{
    match frame {
        Frame::Text(text) => decode_text(text.as_str()),
        Frame::Other => Err(DecodeError::NotText),
    }
}

/// Writes the envelope of `kind` around a payload already written as JSON.
pub fn encode(kind: MessageType, payload: &str) -> (r: String)
    ensures
        r@ == envelope_text(kind, payload@),
{
    let mut out: String = String::from_str("{\"type\":\"");
    out.append(kind.as_str());
    out.append("\",\"payload\":");
    out.append(payload);
    out.append("}");
    out
}

impl ClassicInputPayload {
    /// Writes the payload as JSON.
    pub fn encode(&self) -> (r: String)
        ensures
            r@ == move_payload_text(self.a_move),
    {
        let mut out: String = String::from_str("{\"move\":\"");
        out.append(self.a_move.as_str());
        out.append("\"}");
        out
    }
}

/// Writes the whole `classic_input` message for a move.
pub fn encode_move(chosen: PlayerMove) -> (r: String)
    ensures
        r@ == move_message_text(chosen),
{
    let payload: String = ClassicInputPayload { a_move: chosen }.encode();
    encode(MessageType::ClassicInput, payload.as_str())
}

/// Writes an authentication token as a JSON string literal, for every token.
/// The empty token is written here; any other goes through the serializer.
pub fn encode_token(token: &str) -> (r: Result<String, EncodeError>)
    ensures
        r matches Ok(literal) && literal@ == token_literal(token@),
{
    proof {
        reveal_strlit("");
        assert(token@.len() == 0 <==> token@ =~= ""@);
    }
    if same_text(token, "") {
        Ok(String::from_str("\"\""))
    } else {
        match quote_text(token) {
            Ok(literal) => Ok(literal),
            Err(_) => Err(EncodeError::Token),
        }
    }
}

/// Writes the payload of a `player_status_update` around a token already
/// written as a JSON string literal.
pub fn encode_status_payload(is_ready: bool, literal: &str) -> (r: String)
    ensures
        r@ == status_payload_around(is_ready, literal@),
{
    let mut payload: String = String::from_str("{\"is_ready\":");
    payload.append(
        if is_ready {
            "true"
        } else {
            "false"
        },
    );
    payload.append(",\"auth_token\":");
    payload.append(literal);
    payload.append("}");
    payload
}

impl PlayerStatusUpdatePayload {
    /// Writes the payload as JSON, whatever the token.
    pub fn encode(&self) -> (r: Result<String, EncodeError>)
        ensures
            r matches Ok(payload) && payload@ == status_payload_text(
                self.is_ready,
                self.auth_token@,
            ),
    {
        match encode_token(self.auth_token.as_str()) {
            Err(e) => Err(e),
            Ok(literal) => Ok(encode_status_payload(self.is_ready, literal.as_str())),
        }
    }
}

/// Writes the whole `player_status_update` message, whatever the token.
pub fn encode_status(is_ready: bool, token: &str) -> (r: Result<String, EncodeError>)
    ensures
        r matches Ok(message) && message@ == status_message_text(is_ready, token@),
{
    let status = PlayerStatusUpdatePayload { is_ready, auth_token: owned(token) };
    match status.encode() {
        Err(e) => Err(e),
        Ok(payload) => Ok(encode(MessageType::PlayerStatusUpdate, payload.as_str())),
    }
}

/// The text of the `player_status_update` that declares readiness with no token.
pub proof fn lemma_ready_text()
    ensures
        status_message_text(true, Seq::<char>::empty()) == envelope_text(
            MessageType::PlayerStatusUpdate,
            "{\"is_ready\":true,\"auth_token\":\"\"}"@,
        ),
{
    reveal_strlit("{\"is_ready\":true,\"auth_token\":\"\"}");
    reveal_strlit("{\"is_ready\":");
    reveal_strlit("true");
    reveal_strlit(",\"auth_token\":");
    reveal_strlit("\"\"");
    reveal_strlit("}");
    assert(status_payload_text(true, Seq::<char>::empty())
        =~= "{\"is_ready\":true,\"auth_token\":\"\"}"@);
}

/// The `player_status_update` that declares readiness with no token. It is a
/// fixed text, and needs no serializer.
pub fn encode_ready() -> (r: String)
    ensures
        r@ == status_message_text(true, Seq::<char>::empty()),
{
    proof {
        lemma_ready_text();
    }
    encode(MessageType::PlayerStatusUpdate, "{\"is_ready\":true,\"auth_token\":\"\"}")
}

} // verus!
