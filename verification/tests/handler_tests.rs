use mpv_remote::control::{
    acquire_scan, acquire_step, grace_period_millis, socket_path, spawn_args, AcquireAction,
    ConnectOutcome,
};
use mpv_remote::handlers::{
    bind_host, bind_port, control_page, pause_decision, play_plan, play_response,
    unpause_decision, PlayRequest,
};
use mpv_remote::player::{Command, Player};
use mpv_remote::protocol::{render_response, PlayerState, ReplyData, Status};

#[test]
fn play_plan_clears_then_appends_then_plays() {
    let req = PlayRequest { url: "http://x/a.mkv".to_string(), state: PlayerState::Playing };
    let cmds = play_plan(&req);
    assert_eq!(cmds.len(), 3);
    assert!(matches!(cmds[0], Command::ClearPlaylist));
    match &cmds[1] {
        Command::AppendFile(u) => assert_eq!(u, "http://x/a.mkv"),
        _ => panic!("second verb is not an append"),
    }
    assert!(matches!(cmds[2], Command::PlayIndex(0)));
}

#[test]
fn play_plan_paused_start_sets_pause_last() {
    let req = PlayRequest { url: "http://x/a.mkv".to_string(), state: PlayerState::Paused };
    let cmds = play_plan(&req);
    assert_eq!(cmds.len(), 4);
    assert!(matches!(cmds[3], Command::SetPause(true)));
}

#[test]
fn play_plan_wipes_entries_of_an_earlier_request() {
    let mut player = Player {
        playlist: vec!["http://x/old1.mkv".to_string(), "http://x/old2.mkv".to_string()],
        paused: false,
        current: Some(1),
    };
    let req = PlayRequest { url: "http://x/new.mkv".to_string(), state: PlayerState::Playing };
    player.apply_all(&play_plan(&req));
    assert_eq!(player.playlist, vec!["http://x/new.mkv".to_string()]);
    assert_eq!(player.current, Some(0));
    assert!(!player.paused);
}

#[test]
fn play_plan_paused_start_leaves_flag_set() {
    let mut player = Player::new();
    let req = PlayRequest { url: "http://x/a.mkv".to_string(), state: PlayerState::Paused };
    player.apply_all(&play_plan(&req));
    assert!(player.paused);
    assert_eq!(player.playlist, vec!["http://x/a.mkv".to_string()]);
}

#[test]
fn pause_when_already_paused_is_an_error() {
    let r = pause_decision(Ok(true));
    assert!(r.command.is_none());
    assert!(matches!(r.response.status, Status::Error));
    assert!(matches!(r.response.data, ReplyData::State(PlayerState::Paused)));
}

#[test]
fn pause_when_playing_succeeds_and_sets_the_flag() {
    let mut player = Player::new();
    let r = pause_decision(Ok(player.paused));
    assert!(matches!(r.response.status, Status::Success));
    match &r.response.data {
        ReplyData::Note(n) => assert_eq!(n, "Paused playback."),
        _ => panic!("reply is not the fixed notice"),
    }
    let cmd = r.command.expect("a pause verb is issued");
    player.apply(&cmd);
    assert!(player.paused);
}

#[test]
fn pause_flag_read_failure_reports_the_message() {
    let r = pause_decision(Err("socket closed".to_string()));
    assert!(r.command.is_none());
    assert!(matches!(r.response.status, Status::Error));
    match &r.response.data {
        ReplyData::State(PlayerState::Error(m)) => assert_eq!(m, "socket closed"),
        _ => panic!("reply does not carry the failure"),
    }
}

#[test]
fn unpause_when_already_playing_is_an_error() {
    let r = unpause_decision(Ok(false));
    assert!(r.command.is_none());
    assert!(matches!(r.response.status, Status::Error));
    assert!(matches!(r.response.data, ReplyData::State(PlayerState::Playing)));
}

#[test]
fn unpause_when_paused_succeeds_and_clears_the_flag() {
    let mut player = Player { playlist: Vec::new(), paused: true, current: None };
    let r = unpause_decision(Ok(player.paused));
    assert!(matches!(r.response.status, Status::Success));
    match &r.response.data {
        ReplyData::Note(n) => assert_eq!(n, "Playback resumed."),
        _ => panic!("reply is not the fixed notice"),
    }
    let cmd = r.command.expect("an unpause verb is issued");
    player.apply(&cmd);
    assert!(!player.paused);
}

#[test]
fn unpause_flag_read_failure_reports_the_message() {
    let r = unpause_decision(Err("timed out".to_string()));
    assert!(r.command.is_none());
    assert!(matches!(r.response.status, Status::Error));
    match &r.response.data {
        ReplyData::State(PlayerState::Error(m)) => assert_eq!(m, "timed out"),
        _ => panic!("reply does not carry the failure"),
    }
}

#[test]
fn play_response_success_notice() {
    let r = play_response(Ok(()));
    assert!(matches!(r.status, Status::Success));
    match &r.data {
        ReplyData::Note(n) => assert_eq!(n, "Playback started."),
        _ => panic!("reply is not the fixed notice"),
    }
}

#[test]
fn play_response_failure_is_an_error() {
    let r = play_response(Err("no such entry".to_string()));
    assert!(matches!(r.status, Status::Error));
    match &r.data {
        ReplyData::State(PlayerState::Error(m)) => assert_eq!(m, "no such entry"),
        _ => panic!("reply does not carry the failure"),
    }
}

#[test]
fn cold_start_play_scenario() {
    // No player is running: the first attempt cannot reach the socket, so
    // the player is spawned and the attempt repeated; then the request's
    // verbs run and the success notice is rendered.
    assert!(matches!(acquire_step(&ConnectOutcome::Unreachable), AcquireAction::SpawnAndRetry));
    assert!(matches!(acquire_step(&ConnectOutcome::Connected), AcquireAction::UseChannel));
    let mut player = Player::new();
    let req = PlayRequest { url: "http://x/a.mkv".to_string(), state: PlayerState::Playing };
    player.apply_all(&play_plan(&req));
    assert_eq!(player.playlist, vec!["http://x/a.mkv".to_string()]);
    assert_eq!(player.current, Some(0));
    let reply = play_response(Ok(()));
    assert_eq!(
        render_response(&reply),
        "{\"status\":\"success\",\"data\":\"Playback started.\"}"
    );
}

#[test]
fn unpause_scenario() {
    // The player is running and paused: unpausing succeeds, the rendered
    // reply carries the fixed notice, and the flag reads false afterwards.
    let mut player = Player { playlist: vec!["http://x/a.mkv".to_string()], paused: true, current: Some(0) };
    let r = unpause_decision(Ok(player.paused));
    player.apply(&r.command.expect("an unpause verb is issued"));
    assert_eq!(
        render_response(&r.response),
        "{\"status\":\"success\",\"data\":\"Playback resumed.\"}"
    );
    assert!(!player.paused);
}

#[test]
fn acquisition_takes_first_reachable_attempt() {
    let outcomes = vec![
        ConnectOutcome::Unreachable,
        ConnectOutcome::Unreachable,
        ConnectOutcome::Connected,
        ConnectOutcome::Unreachable,
    ];
    assert_eq!(acquire_scan(&outcomes), Some(2));
}

#[test]
fn acquisition_keeps_retrying_while_unreachable() {
    let outcomes = vec![ConnectOutcome::Unreachable, ConnectOutcome::Unreachable];
    assert_eq!(acquire_scan(&outcomes), None);
}

#[test]
fn spawn_invocation_constants() {
    assert_eq!(socket_path(), "/tmp/mpvsocket");
    assert_eq!(spawn_args(), vec!["--input-ipc-server=/tmp/mpvsocket".to_string(), "--idle".to_string()]);
    assert_eq!(grace_period_millis(), 100);
}

#[test]
fn bind_constants() {
    assert_eq!(bind_host(), "127.0.0.1");
    assert_eq!(bind_port(), 8080);
}

#[test]
fn control_page_wires_the_routes() {
    let page = control_page();
    assert!(page.contains("fetch('/play'"));
    assert!(page.contains("fetch('/pause')"));
    assert!(page.contains("fetch('/unpause')"));
    assert!(page.contains("checkbox"));
}
