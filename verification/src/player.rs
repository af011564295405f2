//! A model of the player that the control verbs act on: its playlist, its
//! pause flag, and which entry is selected for playback.  The routes decide
//! which verbs to issue; this module says what those verbs do to the player.
use vstd::prelude::*;

verus! {

/// One control verb sent down the channel to the player.
pub enum Command {
    /// Drop every playlist entry.
    ClearPlaylist,
    /// Append a URL as a file-type playlist entry.
    AppendFile(String),
    /// Request playback of the entry at this playlist index.
    PlayIndex(usize),
    /// Set the pause flag.
    SetPause(bool),
}

/// The mathematical shape of a verb: the URL as a character sequence.
pub enum CmdView {
    ClearPlaylist,
    AppendFile(Seq<char>),
    PlayIndex(int),
    SetPause(bool),
}

impl View for Command {
    type V = CmdView;

    open spec fn view(&self) -> CmdView {
        match self {
            Command::ClearPlaylist => CmdView::ClearPlaylist,
            Command::AppendFile(u) => CmdView::AppendFile(u@),
            Command::PlayIndex(i) => CmdView::PlayIndex(*i as int),
            Command::SetPause(b) => CmdView::SetPause(*b),
        }
    }
}

/// The player as the control verbs see it.
pub struct Player {
    /// The queued media items, in order.
    pub playlist: Vec<String>,
    /// Whether playback is suspended.
    pub paused: bool,
    /// The playlist index selected for playback, if any.
    pub current: Option<usize>,
}

/// The player's mathematical shape: entries as character sequences.
pub struct PlayerView {
    pub playlist: Seq<Seq<char>>,
    pub paused: bool,
    pub current: Option<int>,
}

impl View for Player {
    type V = PlayerView;

    open spec fn view(&self) -> PlayerView {
        PlayerView {
            playlist: self.playlist@.map_values(|u: String| u@),
            paused: self.paused,
            current: match self.current {
                Some(i) => Some(i as int),
                None => None,
            },
        }
    }
}

/// What one verb does to the player: clearing empties the playlist and
/// deselects, appending queues the URL at the end, playing selects an index,
/// and setting the pause flag stores it.
pub open spec fn apply_spec(p: PlayerView, c: CmdView) -> PlayerView {
    match c {
        CmdView::ClearPlaylist => PlayerView { playlist: Seq::empty(), current: None, ..p },
        CmdView::AppendFile(u) => PlayerView { playlist: p.playlist.push(u), ..p },
        CmdView::PlayIndex(i) => PlayerView { current: Some(i), ..p },
        CmdView::SetPause(b) => PlayerView { paused: b, ..p },
    }
}

/// What a sequence of verbs, issued in order, does to the player.
pub open spec fn apply_all_spec(p: PlayerView, cs: Seq<CmdView>) -> PlayerView
    decreases cs.len(),
{
    if cs.len() == 0 {
        p
    } else {
        apply_all_spec(apply_spec(p, cs[0]), cs.drop_first())
    }
}

impl Player {
    /// A player holding nothing: empty playlist, not paused, no entry
    /// selected.
    pub fn new() -> (p: Player)
        ensures
            p@.playlist.len() == 0,
            !p@.paused,
            p@.current is None,
    {
        Player { playlist: Vec::new(), paused: false, current: None }
    }

    /// Issues one verb to this player.
    pub fn apply(&mut self, c: &Command)
        ensures
            final(self)@ == apply_spec(old(self)@, c@),
    {
        match c {
            Command::ClearPlaylist => {
                self.playlist = Vec::new();
                self.current = None;
            },
            Command::AppendFile(u) => {
                self.playlist.push(u.clone());
            },
            Command::PlayIndex(i) => {
                self.current = Some(*i);
            },
            Command::SetPause(b) => {
                self.paused = *b;
            },
        }
        proof {
            assert(final(self)@.playlist =~= apply_spec(old(self)@, c@).playlist);
        }
    }

    /// Issues each verb in the sequence, in order.
    pub fn apply_all(&mut self, cs: &Vec<Command>)
        ensures
            final(self)@ == apply_all_spec(old(self)@, cs@.map_values(|c: Command| c@)),
    {
        let ghost views = cs@.map_values(|c: Command| c@);
        let n: usize = cs.len();
        let mut k: usize = 0;
        proof {
            assert(views.skip(0) =~= views);
        }
        while k < n
            invariant
                n == cs@.len(),
                views == cs@.map_values(|c: Command| c@),
                k <= n,
                apply_all_spec(old(self)@, views) == apply_all_spec(self@, views.skip(k as int)),
            decreases n - k,
        {
            self.apply(&cs[k]);
            proof {
                assert(views.skip(k as int)[0] == views[k as int]);
                assert(views.skip(k as int).drop_first() =~= views.skip(k as int + 1));
            }
            k = k + 1;
        }
        proof {
            assert(views.skip(n as int) =~= Seq::<CmdView>::empty());
        }
    }
}

} // verus!
