//! The response protocol: the player-state and status values every reply
//! carries, their wire text, and the JSON envelope they are shipped in.
use vstd::prelude::*;

verus! {

/// The logical outcome of a request, carried in the JSON envelope.  A reply
/// always travels as HTTP 200; this discriminator alone tells success from
/// failure.
pub enum Status {
    Success,
    Error,
}

/// The string a status serializes to.
pub open spec fn status_text_spec(s: Status) -> Seq<char> {
    match s {
        Status::Success => "success"@,
        Status::Error => "error"@,
    }
}

impl Status {
    /// The string this status serializes to.
    pub fn text(&self) -> (r: String)
        ensures
            r@ == status_text_spec(*self),
    {
        match self {
            Status::Success => "success".to_owned(),
            Status::Error => "error".to_owned(),
        }
    }
}

/// What the player is doing, or a failure message captured while asking it.
pub enum PlayerState {
    Playing,
    Paused,
    Error(String),
}

/// The string a player state serializes to: the state's name, or for a
/// failure the raw message text.
pub open spec fn state_text_spec(s: PlayerState) -> Seq<char> {
    match s {
        PlayerState::Playing => "playing"@,
        PlayerState::Paused => "paused"@,
        PlayerState::Error(e) => e@,
    }
}

/// The strings that name a player state on the wire.
pub open spec fn state_name_valid(s: Seq<char>) -> bool {
    s == "playing"@ || s == "paused"@ || s == "error"@
}

impl PlayerState {
    /// The string this state serializes to.
    pub fn text(&self) -> (r: String)
        ensures
            r@ == state_text_spec(*self),
    {
        match self {
            PlayerState::Playing => "playing".to_owned(),
            PlayerState::Paused => "paused".to_owned(),
            PlayerState::Error(e) => e.clone(),
        }
    }

    /// Parses the wire text of a requested player state.  Exactly the names
    /// "playing", "paused" and "error" are accepted; "error" maps to a
    /// generic failure value carrying that same text.  Any other string is
    /// rejected, so a malformed request never reaches a handler.
    pub fn parse(value: &String) -> (r: Option<PlayerState>)
        ensures
            r is Some <==> state_name_valid(value@),
            value@ == "playing"@ ==> r == Some(PlayerState::Playing),
            value@ == "paused"@ ==> r == Some(PlayerState::Paused),
            value@ == "error"@ ==> (r matches Some(PlayerState::Error(m)) && m@ == "error"@),
    {
        proof {
            reveal_strlit("playing");
            reveal_strlit("paused");
            reveal_strlit("error");
            assert("playing"@.len() == 7);
            assert("paused"@.len() == 6);
            assert("playing"@ != "paused"@);
            assert("playing"@ != "error"@);
            assert("paused"@ != "error"@);
        }
        let playing: String = "playing".to_owned();
        let paused: String = "paused".to_owned();
        let error: String = "error".to_owned();
        if *value == playing {
            Some(PlayerState::Playing)
        } else if *value == paused {
            Some(PlayerState::Paused)
        } else if *value == error {
            Some(PlayerState::Error("error".to_owned()))
        } else {
            None
        }
    }
}

/// The uniform shape of every JSON reply: a status discriminator and a
/// payload.
pub struct Response<T> {
    pub status: Status,
    pub data: T,
}

/// The payload a route handler puts in its reply: a fixed notice on success,
/// or a player state whose wire text is its name or failure message.
pub enum ReplyData {
    Note(String),
    State(PlayerState),
}

/// The string a reply payload serializes to.
pub open spec fn reply_text_spec(d: ReplyData) -> Seq<char> {
    match d {
        ReplyData::Note(s) => s@,
        ReplyData::State(p) => state_text_spec(p),
    }
}

impl ReplyData {
    /// The string this payload serializes to.
    pub fn text(&self) -> (r: String)
        ensures
            r@ == reply_text_spec(*self),
    {
        match self {
            ReplyData::Note(s) => s.clone(),
            ReplyData::State(p) => p.text(),
        }
    }
}

/// Relies on String::push: appends the given character to the end of the
/// string.
pub assume_specification[ String::push ](s: &mut String, c: char)
    ensures
        final(s)@ == old(s)@.push(c),
;

/// How one character appears inside a JSON string literal: a quote or a
/// backslash gets a backslash before it; every other character stands as it
/// is.
pub open spec fn escaped_char(c: char) -> Seq<char> {
    if c == '"' {
        seq!['\\', '"']
    } else if c == '\\' {
        seq!['\\', '\\']
    } else {
        seq![c]
    }
}

/// The text of a JSON string literal's body: each character escaped in turn.
pub open spec fn json_escaped(s: Seq<char>) -> Seq<char>
    decreases s.len(),
{
    if s.len() == 0 {
        Seq::empty()
    } else {
        escaped_char(s[0]) + json_escaped(s.drop_first())
    }
}

proof fn lemma_json_escaped_push(s: Seq<char>, c: char)
    ensures
        json_escaped(s.push(c)) == json_escaped(s) + escaped_char(c),
    decreases s.len(),
{
    if s.len() == 0 {
        assert(s =~= Seq::<char>::empty());
        assert(s.push(c)[0] == c);
        assert(s.push(c).drop_first() =~= Seq::<char>::empty());
        assert(json_escaped(Seq::<char>::empty()) == Seq::<char>::empty());
        assert(json_escaped(s.push(c)) == escaped_char(c) + json_escaped(
            s.push(c).drop_first(),
        ));
        assert(json_escaped(s.push(c)) =~= json_escaped(s) + escaped_char(c));
    } else {
        lemma_json_escaped_push(s.drop_first(), c);
        assert(s.push(c)[0] == s[0]);
        assert(s.push(c).drop_first() =~= s.drop_first().push(c));
        assert(json_escaped(s.push(c)) == escaped_char(s[0]) + json_escaped(
            s.drop_first().push(c),
        ));
        assert(json_escaped(s.drop_first().push(c)) == json_escaped(s.drop_first())
            + escaped_char(c));
        assert(json_escaped(s) == escaped_char(s[0]) + json_escaped(s.drop_first()));
        assert(json_escaped(s.push(c)) =~= json_escaped(s) + escaped_char(c));
    }
}

/// Escapes a string for inclusion inside a JSON string literal.
pub fn json_escape(s: &String) -> (r: String)
    ensures
        r@ == json_escaped(s@),
{
    proof {
        reveal_strlit("\\\"");
        reveal_strlit("\\\\");
    }
    let text: &str = s.as_str();
    let n: usize = text.unicode_len();
    let mut r: String = String::new();
    let mut i: usize = 0;
    while i < n
        invariant
            text@ == s@,
            n == s@.len(),
            i <= n,
            r@ == json_escaped(s@.take(i as int)),
            "\\\""@ == seq!['\\', '"'],
            "\\\\"@ == seq!['\\', '\\'],
        decreases n - i,
    {
        let c: char = text.get_char(i);
        if c == '"' {
            r.append("\\\"");
        } else if c == '\\' {
            r.append("\\\\");
        } else {
            r.push(c);
        }
        proof {
            lemma_json_escaped_push(s@.take(i as int), c);
            assert(s@.take(i as int + 1) =~= s@.take(i as int).push(c));
        }
        i = i + 1;
    }
    proof {
        assert(s@.take(n as int) =~= s@);
    }
    r
}

/// The JSON text of a reply envelope: an object whose "status" member holds
/// the status text and whose "data" member holds the payload text, both as
/// JSON string literals with their bodies escaped.
pub open spec fn rendered_spec(status: Status, data: Seq<char>) -> Seq<char> {
    "{\"status\":\""@ + json_escaped(status_text_spec(status)) + "\",\"data\":\""@ + json_escaped(
        data,
    ) + "\"}"@
}

/// Renders a reply envelope as JSON text.
pub fn render_response(r: &Response<ReplyData>) -> (out: String)
    ensures
        out@ == rendered_spec(r.status, reply_text_spec(r.data)),
{
    let mut out: String = "{\"status\":\"".to_owned();
    let status_body = json_escape(&r.status.text());
    out.append(status_body.as_str());
    out.append("\",\"data\":\"");
    let data_body = json_escape(&r.data.text());
    out.append(data_body.as_str());
    out.append("\"}");
    proof {
        assert(out@ =~= rendered_spec(r.status, reply_text_spec(r.data)));
    }
    out
}

} // verus!
