//! The per-route decisions: which verbs each route issues for what it was
//! given, and the reply it sends back.  Every reply travels as HTTP 200; the
//! envelope's status discriminator alone carries the logical outcome, and a
//! failed verb always pairs with an error status.
use vstd::prelude::*;
use crate::player::{CmdView, Command, PlayerView, apply_all_spec, apply_spec};
use crate::protocol::{PlayerState, ReplyData, Response, Status};

verus! {

/// The payload for starting playback: the URL to queue, and whether playback
/// should begin paused.
pub struct PlayRequest {
    pub url: String,
    pub state: PlayerState,
}

/// Whether the request asks for playback to begin paused.
pub open spec fn starts_paused(s: PlayerState) -> bool {
    s is Paused
}

/// The verbs the play route issues: clear the playlist, append the URL as a
/// file entry, request playback of the freshly appended entry (index zero
/// after the clear), and, only when a paused start was requested, set the
/// pause flag.
pub open spec fn play_plan_spec(url: Seq<char>, start_paused: bool) -> Seq<CmdView> {
    let base = seq![
        CmdView::ClearPlaylist,
        CmdView::AppendFile(url),
        CmdView::PlayIndex(0),
    ];
    if start_paused {
        base.push(CmdView::SetPause(true))
    } else {
        base
    }
}

/// Builds the verbs the play route issues for this request.
pub fn play_plan(req: &PlayRequest) -> (cmds: Vec<Command>)
    ensures
        cmds@.map_values(|c: Command| c@) == play_plan_spec(req.url@, starts_paused(req.state)),
{
    let mut cmds: Vec<Command> = Vec::new();
    cmds.push(Command::ClearPlaylist);
    cmds.push(Command::AppendFile(req.url.clone()));
    cmds.push(Command::PlayIndex(0usize));
    match &req.state {
        PlayerState::Paused => {
            cmds.push(Command::SetPause(true));
        },
        _ => {},
    }
    proof {
        assert(cmds@.map_values(|c: Command| c@) =~= play_plan_spec(
            req.url@,
            starts_paused(req.state),
        ));
    }
    cmds
}

/// Whatever the player held before, the play plan leaves exactly the one
/// requested URL queued: the playlist is cleared before the new entry is
/// appended, so no entry of an earlier request survives.  The freshly
/// appended entry at index zero is selected, and the pause flag ends up set
/// whenever a paused start was requested, and untouched otherwise.
pub proof fn lemma_play_plan_effect(p: PlayerView, url: Seq<char>, start_paused: bool)
    ensures
        ({
            let q = apply_all_spec(p, play_plan_spec(url, start_paused));
            &&& q.playlist == seq![url]
            &&& q.current == Some(0int)
            &&& q.paused == if start_paused { true } else { p.paused }
        }),
{
    let cs = play_plan_spec(url, start_paused);
    let p1 = apply_spec(p, CmdView::ClearPlaylist);
    let p2 = apply_spec(p1, CmdView::AppendFile(url));
    let p3 = apply_spec(p2, CmdView::PlayIndex(0));
    assert(p3.playlist =~= seq![url]);
    assert(cs[0] == CmdView::ClearPlaylist);
    if start_paused {
        let p4 = apply_spec(p3, CmdView::SetPause(true));
        assert(cs.drop_first() =~= seq![
            CmdView::AppendFile(url),
            CmdView::PlayIndex(0),
            CmdView::SetPause(true),
        ]);
        let cs1 = cs.drop_first();
        assert(cs1.drop_first() =~= seq![CmdView::PlayIndex(0), CmdView::SetPause(true)]);
        let cs2 = cs1.drop_first();
        assert(cs2.drop_first() =~= seq![CmdView::SetPause(true)]);
        let cs3 = cs2.drop_first();
        assert(cs3.drop_first() =~= Seq::<CmdView>::empty());
        assert(apply_all_spec(p, cs) == apply_all_spec(p1, cs1));
        assert(apply_all_spec(p1, cs1) == apply_all_spec(p2, cs2));
        assert(apply_all_spec(p2, cs2) == apply_all_spec(p3, cs3));
        assert(apply_all_spec(p3, cs3) == apply_all_spec(p4, cs3.drop_first()));
        assert(apply_all_spec(p4, cs3.drop_first()) == p4);
    } else {
        assert(cs.drop_first() =~= seq![CmdView::AppendFile(url), CmdView::PlayIndex(0)]);
        let cs1 = cs.drop_first();
        assert(cs1.drop_first() =~= seq![CmdView::PlayIndex(0)]);
        let cs2 = cs1.drop_first();
        assert(cs2.drop_first() =~= Seq::<CmdView>::empty());
        assert(apply_all_spec(p, cs) == apply_all_spec(p1, cs1));
        assert(apply_all_spec(p1, cs1) == apply_all_spec(p2, cs2));
        assert(apply_all_spec(p2, cs2) == apply_all_spec(p3, cs2.drop_first()));
        assert(apply_all_spec(p3, cs2.drop_first()) == p3);
    }
}

/// The reply of the play route, from how issuing its verbs went: success is
/// answered with a fixed notice, and any failed verb with an error status
/// carrying the failure message.
pub fn play_response(outcome: Result<(), String>) -> (r: Response<ReplyData>)
    ensures
        outcome is Ok ==> (r.status is Success && (r.data matches ReplyData::Note(n)
            && n@ == "Playback started."@)),
        outcome matches Err(m) ==> (r.status is Error && (r.data matches ReplyData::State(
            PlayerState::Error(e),
        ) && e@ == m@)),
{
    match outcome {
        Ok(()) => Response {
            status: Status::Success,
            data: ReplyData::Note("Playback started.".to_owned()),
        },
        Err(m) => Response { status: Status::Error, data: ReplyData::State(PlayerState::Error(m)) },
    }
}

/// What a flag-inspecting route decides: at most one verb to issue, and the
/// reply to send.
pub struct HandlerOutcome {
    pub command: Option<Command>,
    pub response: Response<ReplyData>,
}

/// The player after the outcome's verb, if any, is issued.
pub open spec fn after_outcome(p: PlayerView, c: Option<Command>) -> PlayerView {
    match c {
        Some(cmd) => apply_spec(p, cmd@),
        None => p,
    }
}

/// The decision of the pause route, given what reading the pause flag
/// returned.  A flag already set is refused: pausing an already-paused
/// player is not a meaningful success.  A clear flag has the pause verb
/// issued and a fixed success notice sent.  A failed read issues nothing and
/// reports the failure message with an error status.
pub open spec fn pause_outcome_ok(flag: Result<bool, Seq<char>>, r: HandlerOutcome) -> bool {
    match flag {
        Ok(true) => r.command is None && r.response.status is Error
            && r.response.data matches ReplyData::State(PlayerState::Paused),
        Ok(false) => (r.command matches Some(c) && c@ == CmdView::SetPause(true))
            && r.response.status is Success && (r.response.data matches ReplyData::Note(n)
            && n@ == "Paused playback."@),
        Err(m) => r.command is None && r.response.status is Error
            && (r.response.data matches ReplyData::State(PlayerState::Error(e)) && e@ == m),
    }
}

/// The decision of the unpause route, given what reading the pause flag
/// returned.  A flag already clear is refused: the player is still playing.
/// A set flag has the unpause verb issued and a fixed success notice sent.
/// A failed read issues nothing and reports the failure message with an
/// error status.
pub open spec fn unpause_outcome_ok(flag: Result<bool, Seq<char>>, r: HandlerOutcome) -> bool {
    match flag {
        Ok(false) => r.command is None && r.response.status is Error
            && r.response.data matches ReplyData::State(PlayerState::Playing),
        Ok(true) => (r.command matches Some(c) && c@ == CmdView::SetPause(false))
            && r.response.status is Success && (r.response.data matches ReplyData::Note(n)
            && n@ == "Playback resumed."@),
        Err(m) => r.command is None && r.response.status is Error
            && (r.response.data matches ReplyData::State(PlayerState::Error(e)) && e@ == m),
    }
}

/// The view of a flag read: the message of a failed one as its characters.
pub open spec fn flag_view(flag: Result<bool, String>) -> Result<bool, Seq<char>> {
    match flag {
        Ok(b) => Ok(b),
        Err(m) => Err(m@),
    }
}

/// Decides the pause route.
pub fn pause_decision(flag: Result<bool, String>) -> (r: HandlerOutcome)
    ensures
        pause_outcome_ok(flag_view(flag), r),
{
    match flag {
        Ok(true) => HandlerOutcome {
            command: None,
            response: Response {
                status: Status::Error,
                data: ReplyData::State(PlayerState::Paused),
            },
        },
        Ok(false) => HandlerOutcome {
            command: Some(Command::SetPause(true)),
            response: Response {
                status: Status::Success,
                data: ReplyData::Note("Paused playback.".to_owned()),
            },
        },
        Err(m) => HandlerOutcome {
            command: None,
            response: Response {
                status: Status::Error,
                data: ReplyData::State(PlayerState::Error(m)),
            },
        },
    }
}

/// Decides the unpause route.
pub fn unpause_decision(flag: Result<bool, String>) -> (r: HandlerOutcome)
    ensures
        unpause_outcome_ok(flag_view(flag), r),
{
    match flag {
        Ok(false) => HandlerOutcome {
            command: None,
            response: Response {
                status: Status::Error,
                data: ReplyData::State(PlayerState::Playing),
            },
        },
        Ok(true) => HandlerOutcome {
            command: Some(Command::SetPause(false)),
            response: Response {
                status: Status::Success,
                data: ReplyData::Note("Playback resumed.".to_owned()),
            },
        },
        Err(m) => HandlerOutcome {
            command: None,
            response: Response {
                status: Status::Error,
                data: ReplyData::State(PlayerState::Error(m)),
            },
        },
    }
}

/// A pause request finding the flag already set is refused with an
/// error-status reply and leaves the player untouched; finding it clear, it
/// succeeds and its verb leaves the flag set.
pub proof fn lemma_pause_round(p: PlayerView, r: HandlerOutcome)
    requires
        pause_outcome_ok(Ok(p.paused), r),
    ensures
        p.paused ==> r.response.status is Error && after_outcome(p, r.command) == p,
        !p.paused ==> r.response.status is Success && after_outcome(p, r.command).paused,
{
}

/// The static control page served at the root route: a form taking a URL
/// and a start-paused checkbox, and pause and unpause buttons, each wired by
/// an inline script to the matching route.
pub fn control_page() -> (r: String)
    ensures
        r@
            == "<!DOCTYPE html><html><head><title>Player remote</title></head><body><form onsubmit=\"event.preventDefault();fetch('/play',{method:'POST',headers:{'Content-Type':'application/json'},body:JSON.stringify({url:document.getElementById('url').value,state:document.getElementById('paused').checked?'paused':'playing'})});\"><input id=\"url\" type=\"text\" placeholder=\"URL\"><label><input id=\"paused\" type=\"checkbox\">start paused</label><button type=\"submit\">Play</button></form><button onclick=\"fetch('/pause')\">Pause</button><button onclick=\"fetch('/unpause')\">Unpause</button></body></html>"@,
{
    "<!DOCTYPE html><html><head><title>Player remote</title></head><body><form onsubmit=\"event.preventDefault();fetch('/play',{method:'POST',headers:{'Content-Type':'application/json'},body:JSON.stringify({url:document.getElementById('url').value,state:document.getElementById('paused').checked?'paused':'playing'})});\"><input id=\"url\" type=\"text\" placeholder=\"URL\"><label><input id=\"paused\" type=\"checkbox\">start paused</label><button type=\"submit\">Play</button></form><button onclick=\"fetch('/pause')\">Pause</button><button onclick=\"fetch('/unpause')\">Unpause</button></body></html>".to_owned()
}

/// The loopback host the HTTP server binds to.
pub fn bind_host() -> (r: String)
    ensures
        r@ == "127.0.0.1"@,
{
    "127.0.0.1".to_owned()
}

/// The port the HTTP server binds to.
pub fn bind_port() -> (r: u16)
    ensures
        r == 8080,
{
    8080
}

/// An unpause request finding the flag already clear is refused with an
/// error-status reply and leaves the player untouched; finding it set, it
/// succeeds and its verb leaves the flag clear.
pub proof fn lemma_unpause_round(p: PlayerView, r: HandlerOutcome)
    requires
        unpause_outcome_ok(Ok(p.paused), r),
    ensures
        !p.paused ==> r.response.status is Error && after_outcome(p, r.command) == p,
        p.paused ==> r.response.status is Success && !after_outcome(p, r.command).paused,
{
}

} // verus!
