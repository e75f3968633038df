use livehub::channel::{get_channel_id, Channel};
use livehub::errors::ApiError;
use livehub::wsservice::{Action, CommandArg, Frame, SessionPhase, WSService, CLIENT_TIMEOUT_MS, HEARTBEAT_INTERVAL_MS};

fn s(text: &str) -> String {
    String::from(text)
}

fn fresh(now: u64) -> WSService {
    WSService::new(s("session-1"), now, "127.0.0.1")
}

#[test]
fn a_fresh_session_is_connected_and_unbound() {
    let ws = fresh(0);
    assert_eq!(ws.phase, SessionPhase::Connected);
    assert!(ws.stream_id.is_none());
    assert!(!ws.afk);
    assert_eq!(ws.ip, "127.0.0.1");
    assert_eq!(HEARTBEAT_INTERVAL_MS, 5000);
    assert_eq!(CLIENT_TIMEOUT_MS, 10000);
}

#[test]
fn heartbeat_pings_until_the_timeout_closes() {
    let mut ws = fresh(0);
    let acts = ws.hb(5000);
    assert_eq!(acts, vec![Action::Ping]);
    assert_eq!(ws.phase, SessionPhase::Connected);
    let acts = ws.hb(10000);
    assert_eq!(acts, vec![Action::Ping]);
    // Past the window: the connection closes and no further ping is sent.
    let acts = ws.hb(10001);
    assert_eq!(acts, vec![Action::Stop]);
    assert_eq!(ws.phase, SessionPhase::Closed);
    let acts = ws.hb(15001);
    assert_eq!(acts, vec![Action::Stop]);
    assert!(!acts.contains(&Action::Ping));
}

#[test]
fn ping_and_pong_refresh_the_heartbeat_clock() {
    let mut ws = fresh(0);
    let acts = ws.handle(Frame::Ping(vec![1, 2]), 9000);
    assert_eq!(acts, vec![Action::Pong(vec![1, 2])]);
    assert_eq!(ws.hb, 9000);
    assert_eq!(ws.phase, SessionPhase::Active);
    let acts = ws.handle(Frame::Pong(vec![]), 12000);
    assert!(acts.is_empty());
    assert_eq!(ws.hb, 12000);
}

#[test]
fn text_frames_do_not_refresh_the_heartbeat_clock() {
    let mut ws = fresh(0);
    ws.handle(
        Frame::Text { raw: s("[\"getStream\"]"), args: vec![CommandArg::Str(s("getStream"))] },
        9999,
    );
    assert_eq!(ws.hb, 0);
    // The tick right after still times the connection out.
    let acts = ws.hb(10001);
    assert_eq!(acts, vec![Action::Stop]);
    assert_eq!(ws.phase, SessionPhase::Closed);
}

#[test]
fn set_stream_with_three_elements_binds_the_channel_identity() {
    let mut ws = fresh(0);
    let raw = s("[\"setStream\",\"jbpratt\",\"twitch\"]");
    let acts = ws.handle(
        Frame::Text {
            raw: raw.clone(),
            args: vec![
                CommandArg::Str(s("setStream")),
                CommandArg::Str(s("jbpratt")),
                CommandArg::Str(s("twitch")),
            ],
        },
        100,
    );
    let expected = get_channel_id(
        &Channel::new(s("jbpratt"), s("twitch"), s("")).unwrap(),
    );
    assert_eq!(ws.stream_id, Some(expected));
    assert_eq!(acts, vec![Action::EchoText(raw)]);
}

#[test]
fn set_stream_with_an_invalid_service_leaves_the_binding() {
    let mut ws = fresh(0);
    ws.handle(
        Frame::Text {
            raw: s("x"),
            args: vec![
                CommandArg::Str(s("setStream")),
                CommandArg::Str(s("jbpratt")),
                CommandArg::Str(s("chaturbate")),
            ],
        },
        100,
    );
    assert_eq!(ws.stream_id, None);
}

#[test]
fn set_stream_with_a_user_id_asks_the_collaborator() {
    let mut ws = fresh(0);
    let acts = ws.handle(
        Frame::Text {
            raw: s("x"),
            args: vec![CommandArg::Str(s("setStream")), CommandArg::Str(s("dariusirl"))],
        },
        100,
    );
    assert_eq!(ws.stream_id, None);
    assert_eq!(
        acts,
        vec![Action::LookupUserStream(s("dariusirl")), Action::EchoText(s("x"))]
    );
}

#[test]
fn set_stream_with_a_null_acknowledges_without_binding() {
    let mut ws = fresh(0);
    let acts = ws.handle(
        Frame::Text {
            raw: s("[\"setStream\",null]"),
            args: vec![CommandArg::Str(s("setStream")), CommandArg::Null],
        },
        100,
    );
    assert_eq!(ws.stream_id, None);
    assert_eq!(acts, vec![Action::EchoText(s("[\"setStream\",null]"))]);
}

#[test]
fn set_afk_toggles_and_acknowledges() {
    let mut ws = fresh(0);
    ws.stream_id = Some(77);
    let acts = ws
        .set_afk(&vec![CommandArg::Str(s("setAfk")), CommandArg::Str(s("true"))])
        .unwrap();
    assert!(ws.afk);
    assert_eq!(
        acts,
        vec![
            Action::AdjustAfk { stream_id: 77, increment: true },
            Action::SendText(s("[\"AFK_SET\",true]")),
        ]
    );
    let acts = ws
        .set_afk(&vec![CommandArg::Str(s("setAfk")), CommandArg::Str(s("false"))])
        .unwrap();
    assert!(!ws.afk);
    assert_eq!(acts[0], Action::AdjustAfk { stream_id: 77, increment: false });
}

#[test]
fn set_afk_rejects_a_malformed_payload() {
    let mut ws = fresh(0);
    let err = ws
        .set_afk(&vec![CommandArg::Str(s("setAfk")), CommandArg::Str(s("maybe"))])
        .unwrap_err();
    assert_eq!(err, ApiError::ChannelValidation(s("invalid command")));
    let err = ws.set_afk(&vec![CommandArg::Str(s("setAfk"))]).unwrap_err();
    assert_eq!(err, ApiError::ChannelValidation(s("invalid command")));
    assert!(!ws.afk);
}

#[test]
fn get_stream_resolves_only_a_bound_session() {
    let mut ws = fresh(0);
    assert_eq!(
        ws.get_ws_stream().unwrap_err(),
        ApiError::NotFound(s("Invalid stream id"))
    );
    ws.stream_id = Some(9);
    assert_eq!(ws.get_ws_stream().unwrap(), 9);
    let acts = ws.handle(
        Frame::Text { raw: s("g"), args: vec![CommandArg::Str(s("getStream"))] },
        100,
    );
    assert_eq!(acts, vec![Action::LookupStream(9), Action::EchoText(s("g"))]);
}

#[test]
fn unknown_commands_are_ignored_but_echoed() {
    let mut ws = fresh(0);
    let acts = ws.handle(
        Frame::Text { raw: s("[\"dance\"]"), args: vec![CommandArg::Str(s("dance"))] },
        100,
    );
    assert_eq!(acts, vec![Action::EchoText(s("[\"dance\"]"))]);
    assert_eq!(ws.stream_id, None);
    assert!(!ws.afk);
}

#[test]
fn an_empty_first_element_is_ignored_outright() {
    let mut ws = fresh(0);
    let acts = ws.handle(
        Frame::Text { raw: s("[\"\"]"), args: vec![CommandArg::Str(s(""))] },
        100,
    );
    assert!(acts.is_empty());
}

#[test]
fn an_unparsable_frame_is_still_echoed() {
    let mut ws = fresh(0);
    let acts = ws.handle(Frame::Text { raw: s("not json"), args: vec![] }, 100);
    assert_eq!(acts, vec![Action::EchoText(s("not json"))]);
}

#[test]
fn binary_frames_are_echoed_verbatim() {
    let mut ws = fresh(0);
    let acts = ws.handle(Frame::Binary(vec![0xde, 0xad]), 100);
    assert_eq!(acts, vec![Action::EchoBinary(vec![0xde, 0xad])]);
    assert_eq!(ws.phase, SessionPhase::Connected);
}

#[test]
fn close_and_protocol_errors_stop_the_session() {
    let mut ws = fresh(0);
    let acts = ws.handle(Frame::Close, 100);
    assert_eq!(acts, vec![Action::Stop]);
    assert_eq!(ws.phase, SessionPhase::Closed);

    let mut ws = fresh(0);
    let acts = ws.handle(Frame::ProtocolError, 100);
    assert_eq!(acts, vec![Action::Stop]);
    assert_eq!(ws.phase, SessionPhase::Closed);
}
