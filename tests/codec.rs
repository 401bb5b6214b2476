use splitter_bridge::commands::{encode, GameTime, WsCommand};
use splitter_bridge::events::{
    parse_response, parse_response_bytes, CommandResult, Error, Event, EventError, Response, State,
};

fn secs(seconds: i64) -> GameTime {
    GameTime { seconds, nanoseconds: 0 }
}

#[test]
fn encode_start() {
    assert_eq!(encode(&WsCommand::Start), "{\"command\":\"start\"}");
}

#[test]
fn encode_set_game_time_whole_seconds() {
    assert_eq!(
        encode(&WsCommand::SetGameTime(secs(125))),
        "{\"command\":\"setGameTime\",\"time\":\"125\"}"
    );
    let t = GameTime { seconds: 7, nanoseconds: 999_999_999 };
    assert_eq!(
        encode(&WsCommand::SetGameTime(t)),
        "{\"command\":\"setGameTime\",\"time\":\"7\"}"
    );
}

#[test]
fn encode_set_game_time_edges() {
    assert_eq!(encode(&WsCommand::SetGameTime(secs(0))), "{\"command\":\"setGameTime\",\"time\":\"0\"}");
    assert_eq!(encode(&WsCommand::SetGameTime(secs(-3))), "{\"command\":\"setGameTime\",\"time\":\"-3\"}");
    assert_eq!(
        encode(&WsCommand::SetGameTime(secs(i64::MIN))),
        "{\"command\":\"setGameTime\",\"time\":\"-9223372036854775808\"}"
    );
    assert_eq!(
        encode(&WsCommand::SetGameTime(secs(i64::MAX))),
        "{\"command\":\"setGameTime\",\"time\":\"9223372036854775807\"}"
    );
}

#[test]
fn encode_set_custom_variable() {
    let cmd = WsCommand::SetCustomVariable("foo".to_string(), "bar".to_string());
    assert_eq!(encode(&cmd), "{\"command\":\"setCustomVariable\",\"key\":\"foo\",\"value\":\"bar\"}");
}

#[test]
fn encode_set_custom_variable_escapes() {
    let cmd = WsCommand::SetCustomVariable("a\"b".to_string(), "c\\d\ne\u{1f}é".to_string());
    assert_eq!(
        encode(&cmd),
        "{\"command\":\"setCustomVariable\",\"key\":\"a\\\"b\",\"value\":\"c\\\\d\\u000ae\\u001fé\"}"
    );
    let empty = WsCommand::SetCustomVariable(String::new(), String::new());
    assert_eq!(encode(&empty), "{\"command\":\"setCustomVariable\",\"key\":\"\",\"value\":\"\"}");
}

#[test]
fn encode_plain_commands() {
    let cases = [
        (WsCommand::Split, "split"),
        (WsCommand::Reset, "reset"),
        (WsCommand::UndoSplit, "undoSplit"),
        (WsCommand::SkipSplit, "skipSplit"),
        (WsCommand::PauseGameTime, "pauseGameTime"),
        (WsCommand::ResumeGameTime, "resumeGameTime"),
        (WsCommand::GetCurrentState, "getCurrentState"),
    ];
    for (cmd, name) in cases {
        assert_eq!(encode(&cmd), format!("{{\"command\":\"{}\"}}", name));
    }
}

#[test]
fn decode_known_event() {
    assert!(matches!(parse_response("{\"event\":0}"), Some(CommandResult::Event(Event::Started))));
    assert!(matches!(
        parse_response("{\"event\":17}"),
        Some(CommandResult::Event(Event::CustomVariableSet))
    ));
}

#[test]
fn decode_unknown_event_code() {
    assert!(matches!(parse_response("{\"event\":18}"), Some(CommandResult::Event(Event::Unknown))));
    assert!(matches!(parse_response("{\"event\":-1}"), Some(CommandResult::Event(Event::Unknown))));
    assert!(matches!(parse_response("{\"event\":-9223372036854775808}"), Some(CommandResult::Event(Event::Unknown))));
    assert!(matches!(
        parse_response("{\"event\":18446744073709551615}"),
        Some(CommandResult::Event(Event::Unknown))
    ));
    assert!(matches!(
        parse_response("{\"event\":100000000000000000000}"),
        Some(CommandResult::Event(Event::Unknown))
    ));
    assert!(matches!(
        parse_response("{\"event\":-100000000000000000000}"),
        Some(CommandResult::Event(Event::Unknown))
    ));
    assert!(matches!(parse_response("{\"event\":1.5}"), Some(CommandResult::Event(Event::Unknown))));
    assert_eq!(Event::from_code(12345), Event::Unknown);
}

#[test]
fn decode_unknown_error_code() {
    assert!(matches!(
        parse_response("{\"error\":{\"code\":99}}"),
        Some(CommandResult::Error(Error::Timer { code: EventError::Unknown }))
    ));
    assert!(matches!(
        parse_response("{\"error\":{\"code\":16}}"),
        Some(CommandResult::Error(Error::Timer { code: EventError::RunnerDecidedAgainstReset }))
    ));
    assert!(matches!(
        parse_response("{\"error\":{\"code\":100000000000000000000}}"),
        Some(CommandResult::Error(Error::Timer { code: EventError::Unknown }))
    ));
    assert_eq!(EventError::from_code(-7), EventError::Unknown);
}

#[test]
fn decode_named_errors() {
    match parse_response("{\"error\":{\"code\":\"InvalidCommand\",\"message\":\"bad\"}}") {
        Some(CommandResult::Error(Error::InvalidCommand { message })) => assert_eq!(message, "bad"),
        other => panic!("unexpected {:?}", other),
    }
    assert!(matches!(
        parse_response("{\"error\":{\"code\":\"InvalidIndex\"}}"),
        Some(CommandResult::Error(Error::InvalidIndex))
    ));
    assert!(parse_response("{\"error\":{\"code\":\"Nope\"}}").is_none());
}

#[test]
fn decode_success_payloads() {
    assert!(matches!(parse_response("{\"success\":null}"), Some(CommandResult::Success(Response::Empty))));
    match parse_response("{\"success\":\"1:23.45\"}") {
        Some(CommandResult::Success(Response::String(s))) => assert_eq!(s, "1:23.45"),
        other => panic!("unexpected {:?}", other),
    }
    assert!(matches!(
        parse_response("{\"success\":{\"state\":\"Paused\",\"index\":3}}"),
        Some(CommandResult::Success(Response::State(State::Paused(3))))
    ));
    assert!(matches!(
        parse_response("{\"success\":{\"state\":\"Ended\"}}"),
        Some(CommandResult::Success(Response::State(State::Ended)))
    ));
}

#[test]
fn decode_bare_state() {
    assert!(matches!(
        parse_response("{\"state\":\"Running\",\"index\":2}"),
        Some(CommandResult::Success(Response::State(State::Running(2))))
    ));
    assert!(matches!(
        parse_response("{\"state\":\"NotRunning\"}"),
        Some(CommandResult::Success(Response::State(State::NotRunning)))
    ));
    assert!(parse_response("{\"state\":\"Running\"}").is_none());
    assert!(parse_response("{\"state\":\"Running\",\"index\":-1}").is_none());
}

#[test]
fn decode_failures() {
    assert!(parse_response("").is_none());
    assert!(parse_response("{\"event\":").is_none());
    assert!(parse_response("[1,2]").is_none());
    assert!(parse_response("{\"other\":1}").is_none());
    assert!(parse_response("{\"event\":\"17\"}").is_none());
}

#[test]
fn decode_bytes() {
    assert!(matches!(
        parse_response_bytes(b"{\"event\":6}"),
        Some(CommandResult::Event(Event::Paused))
    ));
    assert!(parse_response_bytes(&[0xff, 0xfe]).is_none());
}
