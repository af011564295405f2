use mpv_remote::protocol::{json_escape, render_response, PlayerState, ReplyData, Response, Status};

#[test]
fn status_text_success() {
    assert_eq!(Status::Success.text(), "success");
}

#[test]
fn status_text_error() {
    assert_eq!(Status::Error.text(), "error");
}

#[test]
fn state_text_playing() {
    assert_eq!(PlayerState::Playing.text(), "playing");
}

#[test]
fn state_text_paused() {
    assert_eq!(PlayerState::Paused.text(), "paused");
}

#[test]
fn state_text_error_is_raw_message() {
    assert_eq!(PlayerState::Error("x".to_string()).text(), "x");
}

#[test]
fn parse_playing() {
    assert!(matches!(
        PlayerState::parse(&"playing".to_string()),
        Some(PlayerState::Playing)
    ));
}

#[test]
fn parse_paused() {
    assert!(matches!(
        PlayerState::parse(&"paused".to_string()),
        Some(PlayerState::Paused)
    ));
}

#[test]
fn parse_error_maps_to_generic_message() {
    match PlayerState::parse(&"error".to_string()) {
        Some(PlayerState::Error(m)) => assert_eq!(m, "error"),
        other => panic!("unexpected parse result: {:?}", other.is_some()),
    }
}

#[test]
fn parse_bogus_is_rejected() {
    assert!(PlayerState::parse(&"bogus".to_string()).is_none());
}

#[test]
fn parse_empty_is_rejected() {
    assert!(PlayerState::parse(&"".to_string()).is_none());
}

#[test]
fn parse_is_case_sensitive() {
    assert!(PlayerState::parse(&"Playing".to_string()).is_none());
}

#[test]
fn reply_text_note() {
    assert_eq!(ReplyData::Note("Paused playback.".to_string()).text(), "Paused playback.");
}

#[test]
fn reply_text_state() {
    assert_eq!(ReplyData::State(PlayerState::Paused).text(), "paused");
}

#[test]
fn escape_leaves_plain_text_alone() {
    assert_eq!(json_escape(&"Playback started.".to_string()), "Playback started.");
}

#[test]
fn escape_quotes_and_backslashes() {
    assert_eq!(json_escape(&"a\"b\\c".to_string()), "a\\\"b\\\\c");
}

#[test]
fn escape_empty() {
    assert_eq!(json_escape(&"".to_string()), "");
}

#[test]
fn render_success_envelope() {
    let r = Response {
        status: Status::Success,
        data: ReplyData::Note("Playback started.".to_string()),
    };
    assert_eq!(render_response(&r), "{\"status\":\"success\",\"data\":\"Playback started.\"}");
}

#[test]
fn render_error_envelope_carries_message() {
    let r = Response {
        status: Status::Error,
        data: ReplyData::State(PlayerState::Error("no player".to_string())),
    };
    assert_eq!(render_response(&r), "{\"status\":\"error\",\"data\":\"no player\"}");
}

#[test]
fn render_escapes_message_text() {
    let r = Response {
        status: Status::Error,
        data: ReplyData::State(PlayerState::Error("said \"no\"".to_string())),
    };
    assert_eq!(render_response(&r), "{\"status\":\"error\",\"data\":\"said \\\"no\\\"\"}");
}
