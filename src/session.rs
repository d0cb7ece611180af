//! One live connection. Its two halves run apart: the reader turns each
//! inbound frame into an action, the writer turns each queued command into a
//! frame. Whichever half stops first tears the session down, and only once.

use vstd::prelude::*;
use crate::codec::{
    Command, Response, command_frame, decode_response, encode_command, response_of_parsed,
};
use crate::registry::{Registry, after_register, outbound_queue};
use crate::text::json_string_value;

verus! {

/// A frame as the transport delivers it.
pub enum Frame {
    Text(String),
    Binary(Vec<u8>),
    Ping(Vec<u8>),
    Pong(Vec<u8>),
    Close,
}

/// What the reader half observed.
pub enum Inbound {
    /// The next frame.
    Frame(Frame),
    /// The transport failed to deliver a frame.
    Failed,
    /// The transport ended without a close frame.
    Ended,
}

/// Why a frame was dropped; the session goes on.
#[derive(Debug, Clone, Copy, PartialEq, Eq, Structural)]
pub enum Discarded {
    /// A text frame that held no known response.
    Malformed,
    /// A binary frame, which the protocol does not carry.
    Binary,
}

/// Why the reader half stops.
#[derive(Debug, Clone, Copy, PartialEq, Eq, Structural)]
pub enum StopReason {
    /// The agent sent a close frame.
    Closed,
    /// The transport failed or ended.
    TransportLost,
}

/// What the reader half does with what it observed.
#[derive(Debug, Clone, Copy, PartialEq, Eq, Structural)]
pub enum ReaderAction {
    /// Hand a well-formed response on.
    Apply(Response),
    /// Log and drop the frame.
    Discard(Discarded),
    /// A control frame; nothing to do.
    Ignore,
    /// Leave the loop and tear the session down.
    Stop(StopReason),
}

/// The response a text frame holds.
pub open spec fn response_of_text(t: Seq<char>) -> Response {
    response_of_parsed(json_string_value(t))
}

pub open spec fn reader_action_of(ev: Inbound) -> ReaderAction {
    match ev {
        Inbound::Frame(Frame::Text(t)) => {
            let resp = response_of_text(t@);
            if resp == Response::Invalid {
                ReaderAction::Discard(Discarded::Malformed)
            } else {
                ReaderAction::Apply(resp)
            }
        },
        Inbound::Frame(Frame::Binary(_)) => ReaderAction::Discard(Discarded::Binary),
        Inbound::Frame(Frame::Ping(_)) => ReaderAction::Ignore,
        Inbound::Frame(Frame::Pong(_)) => ReaderAction::Ignore,
        Inbound::Frame(Frame::Close) => ReaderAction::Stop(StopReason::Closed),
        Inbound::Failed => ReaderAction::Stop(StopReason::TransportLost),
        Inbound::Ended => ReaderAction::Stop(StopReason::TransportLost),
    }
}

/// The reader half's decision on one observation. Only a close frame or a
/// lost transport stops it; a bad frame is dropped.
pub fn read_step(ev: &Inbound) -> (r: ReaderAction)
    ensures
        r == reader_action_of(*ev),
{
    match ev {
        Inbound::Frame(Frame::Text(t)) => {
            let resp = decode_response(t.as_str());
            match resp {
                Response::Invalid => ReaderAction::Discard(Discarded::Malformed),
                _ => ReaderAction::Apply(resp),
            }
        },
        Inbound::Frame(Frame::Binary(_)) => ReaderAction::Discard(Discarded::Binary),
        Inbound::Frame(Frame::Ping(_)) => ReaderAction::Ignore,
        Inbound::Frame(Frame::Pong(_)) => ReaderAction::Ignore,
        Inbound::Frame(Frame::Close) => ReaderAction::Stop(StopReason::Closed),
        Inbound::Failed => ReaderAction::Stop(StopReason::TransportLost),
        Inbound::Ended => ReaderAction::Stop(StopReason::TransportLost),
    }
}

/// What the writer half observed.
#[derive(Debug, Clone, Copy, PartialEq, Eq, Structural)]
pub enum Outbound {
    /// The next command from the queue.
    Next(Command),
    /// Every sender of the queue is gone.
    QueueClosed,
    /// Writing the last frame failed.
    WriteFailed,
}

/// What the writer half does next.
pub enum WriterAction {
    /// Write this text frame.
    Send(String),
    /// Leave the loop and tear the session down.
    Stop,
}

/// The frame the writer sends for an observation, if it sends one.
pub open spec fn writer_frame_of(ev: Outbound) -> Option<Seq<char>> {
    match ev {
        Outbound::Next(c) => Some(command_frame(c)),
        _ => None,
    }
}

/// The writer half's decision: a command is written as its frame, in the
/// order the queue hands it over; a closed queue or a failed write stops it.
pub fn write_step(ev: Outbound) -> (r: WriterAction)
    ensures
        match r {
            WriterAction::Send(t) => writer_frame_of(ev) == Some(t@),
            WriterAction::Stop => writer_frame_of(ev) is None,
        },
{
    match ev {
        Outbound::Next(c) => WriterAction::Send(encode_command(c)),
        _ => WriterAction::Stop,
    }
}

/// The frames the writer sends for the commands the queue hands it, one
/// step at a time.
pub open spec fn writer_output(cmds: Seq<Command>) -> Seq<Seq<char>>
    decreases cmds.len(),
{
    if cmds.len() == 0 {
        Seq::empty()
    } else {
        writer_output(cmds.drop_last()).push(
            writer_frame_of(Outbound::Next(cmds.last()))->Some_0,
        )
    }
}

/// The writer, handed commands C1..Cn in that order, writes the frames of
/// C1..Cn in the same order, one frame per command; decoding the frame of a
/// command gives the command back (`decode_command`). That the queue hands
/// commands over in the order they were dispatched is the queue's own
/// first-in, first-out order, which this does not state.
pub proof fn lemma_commands_keep_order(cmds: Seq<Command>)
    ensures
        writer_output(cmds).len() == cmds.len(),
        forall|i: int| 0 <= i < cmds.len() ==> #[trigger] writer_output(cmds)[i] == command_frame(cmds[i]),
    decreases cmds.len(),
{
    if cmds.len() > 0 {
        lemma_commands_keep_order(cmds.drop_last());
        let prefix = cmds.drop_last();
        assert forall|i: int| 0 <= i < cmds.len() implies #[trigger] writer_output(cmds)[i] == command_frame(cmds[i]) by {
            if i < cmds.len() - 1 {
                assert(writer_output(prefix)[i] == command_frame(prefix[i]));
            }
        }
    }
}

/// A frame that holds no known response is dropped and the session goes on;
/// a well-formed frame after it is handed on as its response.
pub proof fn lemma_malformed_frame_is_survived(bad: String, good: String)
    requires
        response_of_text(bad@) == Response::Invalid,
        response_of_text(good@) != Response::Invalid,
    ensures
        reader_action_of(Inbound::Frame(Frame::Text(bad))) == ReaderAction::Discard(
            Discarded::Malformed,
        ),
        reader_action_of(Inbound::Frame(Frame::Text(good))) == ReaderAction::Apply(
            response_of_text(good@),
        ),
{
}

/// A write of an agent's durable record: its connected flag, with the time
/// now as last seen.
pub struct StatusUpdate {
    pub name: String,
    pub connected: bool,
}

/// The cleanup a session owes when it stops: remove its registry entry (if
/// it still holds it), then write `status`, which marks the agent
/// disconnected.
pub struct Teardown {
    pub name: String,
    pub session: u64,
    pub status: StatusUpdate,
}

/// The state the two halves of a session share.
pub struct Session {
    name: String,
    session: u64,
    finished: bool,
}

impl Session {
    pub closed spec fn spec_name(&self) -> Seq<char> {
        self.name@
    }

    pub closed spec fn spec_session(&self) -> u64 {
        self.session
    }

    pub closed spec fn spec_finished(&self) -> bool {
        self.finished
    }

    /// A live session of `name`, registered as `session`.
    pub fn new(name: String, session: u64) -> (r: Session)
        ensures
            r.spec_name() == name@,
            r.spec_session() == session,
            !r.spec_finished(),
    {
        Session { name, session, finished: false }
    }

    pub fn is_finished(&self) -> (r: bool)
        ensures
            r == self.spec_finished(),
    {
        self.finished
    }

    /// Called by each half as it stops: the first call gets the teardown to
    /// run, every later call gets nothing, so cleanup runs once.
    pub fn finish(&mut self) -> (r: Option<Teardown>)
        ensures
            final(self).spec_finished(),
            final(self).spec_name() == old(self).spec_name(),
            final(self).spec_session() == old(self).spec_session(),
            old(self).spec_finished() ==> r is None,
            !old(self).spec_finished() ==> (r matches Some(t) && t.name@ == old(self).spec_name()
                && t.session == old(self).spec_session() && t.status.name@ == old(self).spec_name()
                && !t.status.connected),
    {
        if self.finished {
            None
        } else {
            self.finished = true;
            let status = StatusUpdate { name: self.name.clone(), connected: false };
            Some(Teardown { name: self.name.clone(), session: self.session, status })
        }
    }
}

/// Opens the session of an agent that passed the handshake: a new outbound
/// queue, registered under the agent's name (superseding any session that
/// held it, whose number is lower), the receiving end of that queue for the
/// writer half, and the write that marks the agent connected. `None` only
/// once the registry has spent every session number.
pub fn open_session(registry: &mut Registry, name: String) -> (r: Option<
    (Session, tokio::sync::mpsc::Receiver<Command>, StatusUpdate),
>)
    requires
        old(registry).wf(),
    ensures
        final(registry).wf(),
        r is None <==> old(registry).spec_next_session() == u64::MAX,
        r is None ==> final(registry)@ == old(registry)@,
        r matches Some(p) ==> {
            &&& p.0.spec_name() == name@
            &&& p.0.spec_session() == old(registry).spec_next_session()
            &&& !p.0.spec_finished()
            &&& final(registry)@ == after_register(old(registry)@, name@, p.0.spec_session())
            &&& old(registry)@.contains_key(name@) ==> old(registry)@[name@] < p.0.spec_session()
            &&& p.2.name@ == name@
            &&& p.2.connected
        },
{
    proof {
        old(registry).lemma_sessions_below_next();
    }
    let (tx, rx) = outbound_queue();
    let key = name.clone();
    match registry.register(key, tx) {
        Some(reg) => {
            let status = StatusUpdate { name: name.clone(), connected: true };
            Some((Session::new(name, reg.session), rx, status))
        },
        None => None,
    }
}

/// A close frame stops the reader of a live session, and the teardown it
/// then runs removes the session's entry from a registry in which the
/// session still holds its name; a second teardown does nothing.
pub proof fn lemma_close_frame_tears_down(
    m: Map<Seq<char>, u64>,
    name: Seq<char>,
    session: u64,
)
    requires
        m.contains_key(name),
        m[name] == session,
    ensures
        reader_action_of(Inbound::Frame(Frame::Close)) == ReaderAction::Stop(StopReason::Closed),
        !crate::registry::after_unregister(m, name, session).contains_key(name),
        crate::registry::after_unregister(
            crate::registry::after_unregister(m, name, session),
            name,
            session,
        ) == crate::registry::after_unregister(m, name, session),
{
}

} // verus!
