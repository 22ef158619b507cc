use std::sync::Mutex;

use client_rust::codec::decode_text;
use client_rust::{
    Bomber, BomberBot, ClassicStatePayload, DecodeError, Frame, Incoming, Message, MessageType,
    Notice, PlayerMove, Purpose, ReadStep, SessionState,
};

const WELCOME: &str =
    "{\"type\":\"welcome\",\"payload\":{\"client_id\":\"P1\",\"current_games\":[]}}";

const TICK: &str = "{\"type\":\"classic_state\",\"payload\":{\"players\":[{\"id\":\"P1\",\"pos\":{\"x\":1,\"y\":1},\"health\":100,\"score\":0}],\"field\":{\"width\":3,\"height\":3,\"tiles\":[]},\"bombs\":[],\"explosions\":[]}}";

const READY_NO_TOKEN: &str =
    "{\"type\":\"player_status_update\",\"payload\":{\"is_ready\":true,\"auth_token\":\"\"}}";

struct Always(PlayerMove);

impl BomberBot for Always {
    fn calc_next_move(&self, _bot_id: &str, _state: &ClassicStatePayload) -> PlayerMove {
        self.0
    }
}

struct Recorder {
    calls: Mutex<Vec<(String, ClassicStatePayload)>>,
}

impl BomberBot for Recorder {
    fn calc_next_move(&self, bot_id: &str, state: &ClassicStatePayload) -> PlayerMove {
        self.calls.lock().expect("the record").push((bot_id.to_string(), state.clone()));
        PlayerMove::PlaceBomb
    }
}

fn envelope(text: &str) -> Message {
    decode_text(text).expect("an envelope")
}

#[test]
fn a_session_begins_without_identity() {
    let session = SessionState::new();
    assert_eq!(session.client_id, None);
    assert_eq!(session.identity(), None);
}

#[test]
fn welcome_assigns_the_identity() {
    let mut session = SessionState::new();
    let reaction = Bomber::handle_message(envelope(WELCOME), &Always(PlayerMove::Nothing), &mut session);
    assert_eq!(session.client_id.as_deref(), Some("P1"));
    assert_eq!(session.identity(), Some("P1"));
    assert!(reaction.outbound.is_none());
    match reaction.notice {
        Notice::Welcome(welcome) => {
            assert_eq!(welcome.client_id, "P1");
            assert!(welcome.current_games.is_empty());
        }
        other => panic!("not a welcome: {:?}", other),
    }
}

#[test]
fn a_second_welcome_assigns_anew() {
    let mut session = SessionState::new();
    let bot = Always(PlayerMove::Nothing);
    Bomber::handle_message(envelope(WELCOME), &bot, &mut session);
    let again = "{\"type\":\"welcome\",\"payload\":{\"client_id\":\"P2\",\"current_games\":[{\"name\":\"classic\",\"description\":\"the usual\"}]}}";
    let reaction = Bomber::handle_message(envelope(again), &bot, &mut session);
    assert_eq!(session.identity(), Some("P2"));
    match reaction.notice {
        Notice::Welcome(welcome) => {
            assert_eq!(welcome.current_games.len(), 1);
            assert_eq!(welcome.current_games[0].name, "classic");
            assert_eq!(welcome.current_games[0].description, "the usual");
        }
        other => panic!("not a welcome: {:?}", other),
    }
}

#[test]
fn welcome_then_tick_sends_the_chosen_move() {
    let mut session = SessionState::new();
    let bot = Always(PlayerMove::MoveUp);
    Bomber::handle_message(envelope(WELCOME), &bot, &mut session);
    assert_eq!(session.client_id.as_deref(), Some("P1"));
    let reaction = Bomber::handle_message(envelope(TICK), &bot, &mut session);
    let sent = reaction.outbound.expect("one message");
    assert_eq!(sent.text, "{\"type\":\"classic_input\",\"payload\":{\"move\":\"move_up\"}}");
    assert_eq!(sent.purpose, Purpose::Move);
    match reaction.notice {
        Notice::Tick { state, own_id, chosen } => {
            assert_eq!(own_id, "P1");
            assert_eq!(chosen, PlayerMove::MoveUp);
            assert_eq!(state.players.len(), 1);
            assert_eq!(state.players[0].id, "P1");
            assert_eq!((state.players[0].pos.x, state.players[0].pos.y), (1, 1));
            assert_eq!(state.players[0].health, 100);
            assert_eq!(state.players[0].score, 0);
            assert_eq!((state.field.width, state.field.height), (3, 3));
            assert!(state.field.tiles.is_empty());
            assert!(state.bombs.is_empty());
            assert!(state.explosions.is_empty());
        }
        other => panic!("not a tick: {:?}", other),
    }
    assert_eq!(session.identity(), Some("P1"));
}

#[test]
fn every_move_of_the_strategy_reaches_the_wire() {
    for chosen in [
        PlayerMove::Nothing,
        PlayerMove::MoveUp,
        PlayerMove::MoveRight,
        PlayerMove::MoveDown,
        PlayerMove::MoveLeft,
        PlayerMove::PlaceBomb,
    ] {
        let mut session = SessionState::new();
        let bot = Always(chosen);
        Bomber::handle_message(envelope(WELCOME), &bot, &mut session);
        let reaction = Bomber::handle_message(envelope(TICK), &bot, &mut session);
        let sent = reaction.outbound.expect("one message");
        let expected = format!(
            "{{\"type\":\"classic_input\",\"payload\":{{\"move\":\"{}\"}}}}",
            chosen.to_string()
        );
        assert_eq!(sent.text, expected);
    }
}

#[test]
fn the_strategy_sees_the_identity_and_the_snapshot() {
    let mut session = SessionState::new();
    let bot = Recorder { calls: Mutex::new(Vec::new()) };
    Bomber::handle_message(envelope(WELCOME), &bot, &mut session);
    assert!(bot.calls.lock().expect("the record").is_empty());
    Bomber::handle_message(envelope(TICK), &bot, &mut session);
    let calls = bot.calls.lock().expect("the record");
    assert_eq!(calls.len(), 1);
    assert_eq!(calls[0].0, "P1");
    assert_eq!(calls[0].1.players[0].id, "P1");
    assert_eq!(calls[0].1.field.width, 3);
}

#[test]
fn a_tick_before_the_identity_sends_nothing() {
    let mut session = SessionState::new();
    let bot = Recorder { calls: Mutex::new(Vec::new()) };
    let reaction = Bomber::handle_message(envelope(TICK), &bot, &mut session);
    assert!(reaction.outbound.is_none());
    assert!(matches!(reaction.notice, Notice::Skipped));
    assert_eq!(session.identity(), None);
    assert!(bot.calls.lock().expect("the record").is_empty());
    let printed = reaction.notice.print();
    assert_eq!(printed.output, "");
    assert_eq!(printed.errors, "");
}

#[test]
fn back_to_lobby_declares_readiness_without_token() {
    let mut session = SessionState::new();
    let bot = Always(PlayerMove::Nothing);
    let first = Bomber::initial_ready("startup-token").expect("a message");
    assert_ne!(first.text, READY_NO_TOKEN);
    let reaction = Bomber::handle_message(
        envelope("{\"type\":\"back_to_lobby\",\"payload\":null}"),
        &bot,
        &mut session,
    );
    let sent = reaction.outbound.expect("one message");
    assert_eq!(sent.text, READY_NO_TOKEN);
    assert_eq!(sent.purpose, Purpose::Ready);
    assert!(matches!(reaction.notice, Notice::BackToLobby));
    assert_eq!(session.identity(), None);
}

#[test]
fn back_to_lobby_ignores_its_payload() {
    let mut session = SessionState::new();
    let bot = Always(PlayerMove::Nothing);
    Bomber::handle_message(envelope(WELCOME), &bot, &mut session);
    let reaction = Bomber::handle_message(
        envelope("{\"type\":\"back_to_lobby\",\"payload\":{\"auth_token\":\"x\"}}"),
        &bot,
        &mut session,
    );
    assert_eq!(reaction.outbound.expect("one message").text, READY_NO_TOKEN);
    assert_eq!(session.identity(), Some("P1"));
}

#[test]
fn the_first_message_carries_the_token() {
    let first = Bomber::initial_ready("abc").expect("a message");
    assert_eq!(
        first.text,
        "{\"type\":\"player_status_update\",\"payload\":{\"is_ready\":true,\"auth_token\":\"abc\"}}"
    );
    assert_eq!(first.purpose, Purpose::InitialReady);
    let bare = Bomber::initial_ready("").expect("a message");
    assert_eq!(bare.text, READY_NO_TOKEN);
    assert_eq!(bare.purpose, Purpose::InitialReady);
}

#[test]
fn a_lobby_without_players_is_dropped_and_the_next_tick_is_answered() {
    let mut session = SessionState::new();
    let bot = Always(PlayerMove::MoveDown);
    Bomber::handle_message(envelope(WELCOME), &bot, &mut session);
    let reaction = Bomber::handle_message(
        envelope("{\"type\":\"update_lobby\",\"payload\":{}}"),
        &bot,
        &mut session,
    );
    assert!(reaction.outbound.is_none());
    assert!(matches!(reaction.notice, Notice::Dropped(MessageType::UpdateLobby)));
    assert_eq!(session.identity(), Some("P1"));
    let reaction = Bomber::handle_message(envelope(TICK), &bot, &mut session);
    assert_eq!(
        reaction.outbound.expect("one message").text,
        "{\"type\":\"classic_input\",\"payload\":{\"move\":\"move_down\"}}"
    );
}

#[test]
fn a_payload_of_another_shape_drops_the_message() {
    let bot = Always(PlayerMove::MoveUp);
    for (text, kind) in [
        ("{\"type\":\"welcome\",\"payload\":{\"client_id\":7,\"current_games\":[]}}", MessageType::Welcome),
        ("{\"type\":\"welcome\",\"payload\":{\"client_id\":\"P9\"}}", MessageType::Welcome),
        ("{\"type\":\"welcome\",\"payload\":[\"P9\",[]]}", MessageType::Welcome),
        ("{\"type\":\"update_lobby\",\"payload\":{\"players\":[]}}", MessageType::UpdateLobby),
        ("{\"type\":\"update_lobby\",\"payload\":{\"players\":{\"a\":{\"in_game\":true}}}}", MessageType::UpdateLobby),
        ("{\"type\":\"error\",\"payload\":\"boom\"}", MessageType::Error),
        ("{\"type\":\"game_start\",\"payload\":{\"name\":\"n\",\"description\":\"d\"}}", MessageType::GameStart),
        ("{\"type\":\"classic_state\",\"payload\":{\"players\":[],\"bombs\":[],\"explosions\":[]}}", MessageType::ClassicState),
        ("{\"type\":\"classic_state\",\"payload\":null}", MessageType::ClassicState),
    ] {
        let mut session = SessionState { client_id: Some("me".to_string()) };
        let reaction = Bomber::handle_message(envelope(text), &bot, &mut session);
        assert!(reaction.outbound.is_none(), "{}", text);
        match reaction.notice {
            Notice::Dropped(dropped) => assert_eq!(dropped, kind),
            other => panic!("not dropped: {:?}", other),
        }
        assert_eq!(session.identity(), Some("me"));
    }
}

#[test]
fn a_welcome_that_does_not_decode_leaves_the_identity() {
    let mut session = SessionState::new();
    let bot = Always(PlayerMove::Nothing);
    Bomber::handle_message(
        envelope("{\"type\":\"welcome\",\"payload\":{\"current_games\":[]}}"),
        &bot,
        &mut session,
    );
    assert_eq!(session.identity(), None);
}

#[test]
fn kinds_that_only_the_client_sends_are_logged() {
    let bot = Always(PlayerMove::MoveUp);
    let mut session = SessionState { client_id: Some("me".to_string()) };
    let reaction = Bomber::handle_message(
        envelope("{\"type\":\"classic_input\",\"payload\":{\"move\":\"move_up\"}}"),
        &bot,
        &mut session,
    );
    assert!(reaction.outbound.is_none());
    match &reaction.notice {
        Notice::Unexpected(message) => assert_eq!(message.type_of, MessageType::ClassicInput),
        other => panic!("not logged: {:?}", other),
    }
    let printed = reaction.notice.print();
    assert_eq!(
        printed.output,
        "Received: {\"type\":\"classic_input\",\"payload\":{\"move\":\"move_up\"}}\n"
    );
    assert_eq!(printed.errors, "");
    let reaction = Bomber::handle_message(
        envelope("{\"type\":\"player_status_update\",\"payload\":[1,\"two\",null]}"),
        &bot,
        &mut session,
    );
    assert!(reaction.outbound.is_none());
    assert_eq!(
        reaction.notice.print().output,
        "Received: {\"type\":\"player_status_update\",\"payload\":[1,\"two\",null]}\n"
    );
    assert_eq!(session.identity(), Some("me"));
}

#[test]
fn the_lobby_notice_holds_every_player_once() {
    let bot = Always(PlayerMove::Nothing);
    let mut session = SessionState { client_id: Some("b".to_string()) };
    let text = "{\"type\":\"update_lobby\",\"payload\":{\"players\":{\"b\":{\"in_game\":false,\"is_ready\":true,\"score\":3},\"a\":{\"in_game\":true,\"is_ready\":false,\"score\":-2},\"b\":{\"in_game\":true,\"is_ready\":true,\"score\":9}}}}";
    let reaction = Bomber::handle_message(envelope(text), &bot, &mut session);
    assert!(reaction.outbound.is_none());
    match reaction.notice {
        Notice::Lobby { lobby, identity } => {
            assert_eq!(identity.as_deref(), Some("b"));
            let mut ids: Vec<&str> = lobby.players.iter().map(|e| e.id.as_str()).collect();
            ids.sort();
            assert_eq!(ids, vec!["a", "b"]);
            for entry in &lobby.players {
                if entry.id == "a" {
                    assert_eq!((entry.info.in_game, entry.info.is_ready, entry.info.score), (true, false, -2));
                } else {
                    assert_eq!((entry.info.in_game, entry.info.is_ready, entry.info.score), (true, true, 9));
                }
            }
        }
        other => panic!("not a lobby: {:?}", other),
    }
}

#[test]
fn the_read_loop_dispatches_envelopes() {
    let step = Bomber::read_step(&Incoming::Frame(Frame::Text(WELCOME.to_string())));
    match step {
        ReadStep::Dispatch(message) => {
            assert_eq!(message.type_of, MessageType::Welcome);
            assert_eq!(message.payload.get("client_id").and_then(|v| v.as_str()), Some("P1"));
        }
        other => panic!("not dispatched: {:?}", other),
    }
}

#[test]
fn the_read_loop_passes_over_malformed_frames_and_reads_on() {
    let mut session = SessionState::new();
    let bot = Always(PlayerMove::MoveRight);
    let frames = [
        Incoming::Frame(Frame::Text("{\"type\":".to_string())),
        Incoming::Frame(Frame::Text(WELCOME.to_string())),
        Incoming::Frame(Frame::Other),
        Incoming::Frame(Frame::Text("[1,2,3]".to_string())),
        Incoming::Frame(Frame::Text(TICK.to_string())),
    ];
    let mut ignored = Vec::new();
    let mut sent = Vec::new();
    for incoming in &frames {
        match Bomber::read_step(incoming) {
            ReadStep::Dispatch(message) => {
                if let Some(out) = Bomber::handle_message(message, &bot, &mut session).outbound {
                    sent.push(out.text);
                }
            }
            ReadStep::Ignore(why) => ignored.push(why),
            ReadStep::Stop => panic!("a frame ended the session"),
        }
    }
    assert_eq!(ignored, vec![DecodeError::Syntax, DecodeError::NotText, DecodeError::Shape]);
    assert_eq!(sent, vec!["{\"type\":\"classic_input\",\"payload\":{\"move\":\"move_right\"}}".to_string()]);
}

#[test]
fn the_read_loop_stops_with_the_connection() {
    assert!(matches!(Bomber::read_step(&Incoming::Failure), ReadStep::Stop));
    assert!(matches!(Bomber::read_step(&Incoming::End), ReadStep::Stop));
}

#[test]
fn a_tick_is_answered_from_the_move_alone() {
    let state = match Bomber::handle_message(
        envelope(TICK),
        &Always(PlayerMove::Nothing),
        &mut SessionState { client_id: Some("P1".to_string()) },
    )
    .notice
    {
        Notice::Tick { state, .. } => state,
        other => panic!("not a tick: {:?}", other),
    };
    let reaction = Bomber::answer_tick("P1", state, PlayerMove::MoveLeft);
    assert_eq!(
        reaction.outbound.expect("one message").text,
        "{\"type\":\"classic_input\",\"payload\":{\"move\":\"move_left\"}}"
    );
    assert!(matches!(reaction.notice, Notice::Tick { chosen: PlayerMove::MoveLeft, .. }));
}

#[test]
fn the_token_occurs_in_the_first_message_and_in_no_other() {
    let token = "tok-\"7\"\\z";
    let first = Bomber::initial_ready(token).expect("a message");
    assert_eq!(
        first.text,
        "{\"type\":\"player_status_update\",\"payload\":{\"is_ready\":true,\"auth_token\":\"tok-\\\"7\\\"\\\\z\"}}"
    );
    let read_back = decode_text(&first.text).expect("an envelope");
    assert_eq!(read_back.type_of, MessageType::PlayerStatusUpdate);
    assert_eq!(read_back.payload.get("auth_token").and_then(|t| t.as_str()), Some(token));
    assert_eq!(read_back.payload.get("is_ready").and_then(|t| t.as_bool()), Some(true));

    let mut session = SessionState::new();
    let bot = Always(PlayerMove::PlaceBomb);
    let mut later = Vec::new();
    for text in [
        WELCOME,
        TICK,
        "{\"type\":\"back_to_lobby\",\"payload\":null}",
        TICK,
        "{\"type\":\"back_to_lobby\",\"payload\":{\"auth_token\":\"other\"}}",
    ] {
        if let Some(out) = Bomber::handle_message(envelope(text), &bot, &mut session).outbound {
            later.push(out.text);
        }
    }
    assert_eq!(
        later,
        vec![
            "{\"type\":\"classic_input\",\"payload\":{\"move\":\"place_bomb\"}}".to_string(),
            READY_NO_TOKEN.to_string(),
            "{\"type\":\"classic_input\",\"payload\":{\"move\":\"place_bomb\"}}".to_string(),
            READY_NO_TOKEN.to_string(),
        ]
    );
    for text in &later {
        assert!(!text.contains("tok-"));
    }
}

#[test]
fn every_token_gives_a_first_message() {
    for token in ["", " ", "a", "\u{0}\u{1f}\u{7f}", "\u{1F916}\u{e9}", "\"", "\\", "{\"x\":1}"] {
        let first = Bomber::initial_ready(token).expect("a message");
        assert_eq!(first.purpose, Purpose::InitialReady);
        let read_back = decode_text(&first.text).expect("an envelope");
        assert_eq!(read_back.payload.get("auth_token").and_then(|t| t.as_str()), Some(token));
    }
}

#[test]
fn an_unexpected_envelope_is_handed_back_whole() {
    let bot = Always(PlayerMove::MoveUp);
    let mut session = SessionState::new();
    let text = "{\"type\":\"player_status_update\",\"payload\":{\"ratio\":0.5,\"big\":1e300,\"n\":-0.0}}";
    let reaction = Bomber::handle_message(envelope(text), &bot, &mut session);
    match &reaction.notice {
        Notice::Unexpected(message) => {
            assert_eq!(message.type_of, MessageType::PlayerStatusUpdate);
            assert_eq!(message.payload, envelope(text).payload);
        }
        other => panic!("not logged: {:?}", other),
    }
    let written = serde_json::to_string(&envelope(text).payload).expect("json text");
    assert!(written.contains("\"ratio\":0.5"));
    assert_eq!(
        reaction.notice.print().output,
        format!("Received: {{\"type\":\"player_status_update\",\"payload\":{}}}\n", written)
    );
}
