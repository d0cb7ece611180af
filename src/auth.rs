//! The header handshake: an agent presents its name and a single-use token as
//! request headers; the token is consumed by one atomic store update whose
//! row count alone decides, and the agent's record is created if absent.

use vstd::prelude::*;
use crate::store::StoreError;
use crate::text::{all_visible_ascii, header_text, same_text};

verus! {

/// Why an upgrade request is turned away.
#[derive(Debug, Clone, Copy, PartialEq, Eq, Structural)]
pub enum Rejection {
    /// A credential header is absent, is not text, or the name is empty.
    BadRequest,
    /// The token is unknown or has been used.
    Forbidden,
    /// The store failed; the agent is not let in.
    StoreFailure,
}

pub open spec fn rejection_status(r: Rejection) -> u16 {
    match r {
        Rejection::BadRequest => 400,
        Rejection::Forbidden => 403,
        Rejection::StoreFailure => 500,
    }
}

impl Rejection {
    /// The HTTP status that answers the request.
    pub fn status(&self) -> (r: u16)
        ensures
            r == rejection_status(*self),
    {
        match self {
            Rejection::BadRequest => 400,
            Rejection::Forbidden => 403,
            Rejection::StoreFailure => 500,
        }
    }
}

/// The agent name and token read from the upgrade request.
pub struct Credentials {
    pub name: String,
    pub token: String,
}

/// A header that is present and reads as text.
pub open spec fn header_readable(h: Option<Seq<u8>>) -> bool {
    h matches Some(b) && all_visible_ascii(b)
}

pub open spec fn bytes_view(h: &Option<Vec<u8>>) -> Option<Seq<u8>> {
    match h {
        Some(b) => Some(b@),
        None => None,
    }
}

/// Reads the credentials from the two header values: absent, unreadable, or
/// an empty name, is a bad request.
pub fn read_credentials(token: &Option<Vec<u8>>, name: &Option<Vec<u8>>) -> (r: Result<
    Credentials,
    Rejection,
>)
    ensures
        r is Ok <==> (header_readable(bytes_view(token)) && header_readable(bytes_view(name))
            && name->0@.len() > 0),
        r is Err ==> r->Err_0 == Rejection::BadRequest,
        r matches Ok(c) ==> same_text(c.token@, token->0@) && same_text(c.name@, name->0@),
{
    let token_text = match token {
        Some(b) => header_text(b.as_slice()),
        None => None,
    };
    let name_text = match name {
        Some(b) => if b.len() == 0 {
            None
        } else {
            header_text(b.as_slice())
        },
        None => None,
    };
    match (token_text, name_text) {
        (Some(t), Some(n)) => Ok(Credentials { name: n, token: t }),
        _ => Err(Rejection::BadRequest),
    }
}

/// The decision on the row count of the token update: exactly one row.
pub open spec fn token_accepted(rows: u64) -> bool {
    rows == 1
}

/// Where a handshake stands.
#[derive(Debug, Clone, Copy, PartialEq, Eq, Structural)]
pub enum Stage {
    /// Waiting for the row count of the token update.
    CheckingToken,
    /// Waiting for the agent's record to be created.
    CreatingAgent,
    /// Accepted or rejected; nothing more to do.
    Done,
}

/// What the store reported back to a handshake.
#[derive(Debug, Clone, Copy)]
pub enum HandshakeEvent {
    /// The token update ran, touching this many rows, or failed.
    TokenTouched(Result<u64, StoreError>),
    /// The agent record was created (or was there already), or the write failed.
    AgentCreated(Result<(), StoreError>),
}

/// What the caller must do next.
pub enum HandshakeStep {
    /// Mark the token used, in one update that touches only an unused token,
    /// and report the number of rows it touched.
    TouchToken { token: String },
    /// Create the agent's record if it is absent.
    CreateAgent { name: String },
    /// Complete the upgrade and open the agent's session.
    Accept { name: String },
    /// Turn the request away.
    Reject(Rejection),
}

/// A step without its text.
#[derive(Debug, Clone, Copy, PartialEq, Eq, Structural)]
pub enum StepKind {
    Touch,
    Create,
    Accept,
    Reject(Rejection),
}

pub open spec fn step_kind(s: HandshakeStep) -> StepKind {
    match s {
        HandshakeStep::TouchToken { .. } => StepKind::Touch,
        HandshakeStep::CreateAgent { .. } => StepKind::Create,
        HandshakeStep::Accept { .. } => StepKind::Accept,
        HandshakeStep::Reject(r) => StepKind::Reject(r),
    }
}

/// The next stage and step of a handshake. A store failure, or an event out
/// of turn, ends it rejected: nothing lets an agent in but a token update
/// that touched exactly one row followed by a successful record write.
pub open spec fn next_step(stage: Stage, ev: HandshakeEvent) -> (Stage, StepKind) {
    match (stage, ev) {
        (Stage::CheckingToken, HandshakeEvent::TokenTouched(Ok(rows))) => {
            if token_accepted(rows) {
                (Stage::CreatingAgent, StepKind::Create)
            } else {
                (Stage::Done, StepKind::Reject(Rejection::Forbidden))
            }
        },
        (Stage::CheckingToken, HandshakeEvent::TokenTouched(Err(_))) => (
            Stage::Done,
            StepKind::Reject(Rejection::StoreFailure),
        ),
        (Stage::CreatingAgent, HandshakeEvent::AgentCreated(Ok(()))) => (
            Stage::Done,
            StepKind::Accept,
        ),
        (Stage::CreatingAgent, HandshakeEvent::AgentCreated(Err(_))) => (
            Stage::Done,
            StepKind::Reject(Rejection::StoreFailure),
        ),
        _ => (Stage::Done, StepKind::Reject(Rejection::Forbidden)),
    }
}

/// One agent's handshake, from its credentials to a decision.
pub struct Handshake {
    name: String,
    token: String,
    stage: Stage,
}

impl Handshake {
    pub closed spec fn spec_name(&self) -> Seq<char> {
        self.name@
    }

    pub closed spec fn spec_token(&self) -> Seq<char> {
        self.token@
    }

    pub closed spec fn spec_stage(&self) -> Stage {
        self.stage
    }

    /// Starts a handshake: the token is to be consumed first.
    pub fn begin(creds: Credentials) -> (r: (Handshake, HandshakeStep))
        ensures
            r.0.spec_stage() == Stage::CheckingToken,
            r.0.spec_name() == creds.name@,
            r.0.spec_token() == creds.token@,
            r.1 matches HandshakeStep::TouchToken { token } && token@ == creds.token@,
    {
        let token = creds.token.clone();
        (Handshake { name: creds.name, token: creds.token, stage: Stage::CheckingToken }, HandshakeStep::TouchToken { token })
    }

    pub fn stage(&self) -> (r: Stage)
        ensures
            r == self.spec_stage(),
    {
        self.stage
    }

    /// Takes what the store reported and says what to do next.
    pub fn step(&mut self, ev: HandshakeEvent) -> (r: HandshakeStep)
        ensures
            (final(self).spec_stage(), step_kind(r)) == next_step(old(self).spec_stage(), ev),
            final(self).spec_name() == old(self).spec_name(),
            final(self).spec_token() == old(self).spec_token(),
            r matches HandshakeStep::CreateAgent { name } ==> name@ == old(self).spec_name(),
            r matches HandshakeStep::Accept { name } ==> name@ == old(self).spec_name(),
    {
        match (self.stage, ev) {
            (Stage::CheckingToken, HandshakeEvent::TokenTouched(Ok(rows))) => {
                if rows == 1 {
                    self.stage = Stage::CreatingAgent;
                    HandshakeStep::CreateAgent { name: self.name.clone() }
                } else {
                    self.stage = Stage::Done;
                    HandshakeStep::Reject(Rejection::Forbidden)
                }
            },
            (Stage::CheckingToken, HandshakeEvent::TokenTouched(Err(_))) => {
                self.stage = Stage::Done;
                HandshakeStep::Reject(Rejection::StoreFailure)
            },
            (Stage::CreatingAgent, HandshakeEvent::AgentCreated(Ok(()))) => {
                self.stage = Stage::Done;
                HandshakeStep::Accept { name: self.name.clone() }
            },
            (Stage::CreatingAgent, HandshakeEvent::AgentCreated(Err(_))) => {
                self.stage = Stage::Done;
                HandshakeStep::Reject(Rejection::StoreFailure)
            },
            _ => {
                self.stage = Stage::Done;
                HandshakeStep::Reject(Rejection::Forbidden)
            },
        }
    }
}

/// The token table as the store keeps it: each token, and whether it has
/// been used.
pub type TokenTable = Map<Seq<char>, bool>;

/// The single-use token update: it marks an unused token used and touches
/// one row; on a used or unknown token it touches none and changes nothing.
pub open spec fn touch_token(tokens: TokenTable, t: Seq<char>) -> (TokenTable, u64) {
    if tokens.contains_key(t) && !tokens[t] {
        (tokens.insert(t, true), 1)
    } else {
        (tokens, 0)
    }
}

/// Two handshakes presenting one valid token, in whichever order the store
/// runs their updates: the first goes on to be accepted, the second is
/// refused, and the token is marked used once.
pub proof fn lemma_token_admits_one(tokens: TokenTable, t: Seq<char>)
    requires
        tokens.contains_key(t),
        !tokens[t],
    ensures
        ({
            let (after_first, rows_first) = touch_token(tokens, t);
            let (after_second, rows_second) = touch_token(after_first, t);
            &&& next_step(Stage::CheckingToken, HandshakeEvent::TokenTouched(Ok(rows_first)))
                == (Stage::CreatingAgent, StepKind::Create)
            &&& next_step(Stage::CheckingToken, HandshakeEvent::TokenTouched(Ok(rows_second)))
                == (Stage::Done, StepKind::Reject(Rejection::Forbidden))
            &&& after_first == tokens.insert(t, true)
            &&& after_second == after_first
        }),
{
}

/// A token that a handshake has consumed refuses every later handshake.
pub proof fn lemma_used_token_refused(tokens: TokenTable, t: Seq<char>)
    requires
        tokens.contains_key(t) ==> tokens[t],
    ensures
        touch_token(tokens, t) == (tokens, 0u64),
        next_step(Stage::CheckingToken, HandshakeEvent::TokenTouched(Ok(touch_token(tokens, t).1)))
            == (Stage::Done, StepKind::Reject(Rejection::Forbidden)),
{
}

} // verus!
