//! The two tagged unions carried over an agent connection, and their text
//! frames. A tag is written as a JSON string; a frame that does not hold a
//! known tag reads as the `Invalid` variant, so decoding never fails.

use vstd::prelude::*;
use crate::text::{is_plain, json_quote, json_string_value, json_unquote, opt_view, quoted};

verus! {

/// What the server sends an agent.
#[derive(Debug, Clone, Copy, PartialEq, Eq, Structural)]
pub enum Command {
    /// A frame that held no known command.
    Invalid,
    /// Asks the agent to answer with `Response::Pong`.
    Ping,
}

/// What an agent sends the server.
#[derive(Debug, Clone, Copy, PartialEq, Eq, Structural)]
pub enum Response {
    /// A frame that held no known response.
    Invalid,
    /// The answer to `Command::Ping`.
    Pong,
}

pub open spec fn invalid_tag() -> Seq<char> {
    seq!['I', 'n', 'v', 'a', 'l', 'i', 'd']
}

pub open spec fn ping_tag() -> Seq<char> {
    seq!['P', 'i', 'n', 'g']
}

pub open spec fn pong_tag() -> Seq<char> {
    seq!['P', 'o', 'n', 'g']
}

pub open spec fn command_tag(c: Command) -> Seq<char> {
    match c {
        Command::Invalid => invalid_tag(),
        Command::Ping => ping_tag(),
    }
}

pub open spec fn response_tag(r: Response) -> Seq<char> {
    match r {
        Response::Invalid => invalid_tag(),
        Response::Pong => pong_tag(),
    }
}

/// The command whose tag is `s`; any other text reads as `Invalid`.
pub open spec fn command_of_tag(s: Seq<char>) -> Command {
    if s == ping_tag() {
        Command::Ping
    } else {
        Command::Invalid
    }
}

/// The response whose tag is `s`; any other text reads as `Invalid`.
pub open spec fn response_of_tag(s: Seq<char>) -> Response {
    if s == pong_tag() {
        Response::Pong
    } else {
        Response::Invalid
    }
}

/// The text frame that carries a command.
pub open spec fn command_frame(c: Command) -> Seq<char> {
    quoted(command_tag(c))
}

/// The text frame that carries a response.
pub open spec fn response_frame(r: Response) -> Seq<char> {
    quoted(response_tag(r))
}

/// The command read from a parsed frame: `None` when the frame held no JSON string.
pub open spec fn command_of_parsed(p: Option<Seq<char>>) -> Command {
    match p {
        Some(s) => command_of_tag(s),
        None => Command::Invalid,
    }
}

/// The response read from a parsed frame: `None` when the frame held no JSON string.
pub open spec fn response_of_parsed(p: Option<Seq<char>>) -> Response {
    match p {
        Some(s) => response_of_tag(s),
        None => Response::Invalid,
    }
}

proof fn lemma_tags_plain()
    ensures
        is_plain(invalid_tag()),
        is_plain(ping_tag()),
        is_plain(pong_tag()),
{
    assert(invalid_tag().len() == 7);
    assert(ping_tag().len() == 4);
    assert(pong_tag().len() == 4);
}

fn tag_text(which: u8) -> (r: &'static str)
    requires
        which < 3,
    ensures
        which == 0 ==> r@ == invalid_tag(),
        which == 1 ==> r@ == ping_tag(),
        which == 2 ==> r@ == pong_tag(),
{
    proof {
        reveal_strlit("Invalid");
        reveal_strlit("Ping");
        reveal_strlit("Pong");
    }
    if which == 0 {
        "Invalid"
    } else if which == 1 {
        "Ping"
    } else {
        "Pong"
    }
}

impl Command {
    /// The tag that names this command on the wire.
    pub fn tag(&self) -> (r: &'static str)
        ensures
            r@ == command_tag(*self),
    {
        match self {
            Command::Invalid => tag_text(0),
            Command::Ping => tag_text(1),
        }
    }
}

impl Response {
    /// The tag that names this response on the wire.
    pub fn tag(&self) -> (r: &'static str)
        ensures
            r@ == response_tag(*self),
    {
        match self {
            Response::Invalid => tag_text(0),
            Response::Pong => tag_text(2),
        }
    }
}

/// The text frame for a command.
pub fn encode_command(c: Command) -> (r: String)
    ensures
        r@ == command_frame(c),
{
    proof {
        lemma_tags_plain();
    }
    json_quote(c.tag())
}

/// The text frame for a response.
pub fn encode_response(r: Response) -> (t: String)
    ensures
        t@ == response_frame(r),
{
    proof {
        lemma_tags_plain();
    }
    json_quote(r.tag())
}

/// The command named by the string that a frame held, if it held one.
pub fn command_from_parsed(p: Option<String>) -> (r: Command)
    ensures
        r == command_of_parsed(opt_view(p)),
{
    match p {
        Some(s) => {
            let ping = tag_text(1).to_owned();
            if s == ping {
                Command::Ping
            } else {
                Command::Invalid
            }
        },
        None => Command::Invalid,
    }
}

/// The response named by the string that a frame held, if it held one.
pub fn response_from_parsed(p: Option<String>) -> (r: Response)
    ensures
        r == response_of_parsed(opt_view(p)),
{
    match p {
        Some(s) => {
            let pong = tag_text(2).to_owned();
            if s == pong {
                Response::Pong
            } else {
                Response::Invalid
            }
        },
        None => Response::Invalid,
    }
}

/// Reads a command from a text frame. Decoding an encoded command gives it back.
pub fn decode_command(t: &str) -> (r: Command)
    ensures
        r == command_of_parsed(json_string_value(t@)),
        forall|c: Command| #[trigger] command_frame(c) == t@ ==> r == c,
{
    let p = json_unquote(t);
    let ghost parsed = opt_view(p);
    let r = command_from_parsed(p);
    proof {
        lemma_tags_plain();
        assert forall|c: Command| #[trigger] command_frame(c) == t@ implies r == c by {
            assert(quoted(command_tag(c)) == t@);
            assert(is_plain(command_tag(c)));
            assert(parsed == Some(command_tag(c)));
            assert(ping_tag().len() != invalid_tag().len());
        }
    }
    r
}

/// Reads a response from a text frame. Decoding an encoded response gives it back.
pub fn decode_response(t: &str) -> (r: Response)
    ensures
        r == response_of_parsed(json_string_value(t@)),
        forall|x: Response| #[trigger] response_frame(x) == t@ ==> r == x,
{
    let p = json_unquote(t);
    let ghost parsed = opt_view(p);
    let r = response_from_parsed(p);
    proof {
        lemma_tags_plain();
        assert forall|x: Response| #[trigger] response_frame(x) == t@ implies r == x by {
            assert(quoted(response_tag(x)) == t@);
            assert(is_plain(response_tag(x)));
            assert(parsed == Some(response_tag(x)));
            assert(pong_tag().len() != invalid_tag().len());
        }
    }
    r
}

} // verus!
