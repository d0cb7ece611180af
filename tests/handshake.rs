use tremolo::auth::{read_credentials, Credentials, Handshake, HandshakeEvent, HandshakeStep, Rejection, Stage};
use tremolo::store::StoreError;

fn creds(name: &str, token: &str) -> Credentials {
    Credentials { name: name.to_string(), token: token.to_string() }
}

fn some(b: &str) -> Option<Vec<u8>> {
    Some(b.as_bytes().to_vec())
}

#[test]
fn credentials_are_read_from_both_headers() {
    let c = read_credentials(&some("T1"), &some("alpha")).unwrap();
    assert_eq!(c.token, "T1");
    assert_eq!(c.name, "alpha");
}

#[test]
fn absent_or_unreadable_headers_are_bad_requests() {
    assert!(matches!(read_credentials(&None, &some("alpha")), Err(Rejection::BadRequest)));
    assert!(matches!(read_credentials(&some("T1"), &None), Err(Rejection::BadRequest)));
    assert!(matches!(read_credentials(&some("T1"), &some("")), Err(Rejection::BadRequest)));
    assert!(matches!(read_credentials(&Some(vec![0x01]), &some("alpha")), Err(Rejection::BadRequest)));
    assert!(matches!(read_credentials(&some("T1"), &Some(vec![0xff])), Err(Rejection::BadRequest)));
}

#[test]
fn rejection_statuses() {
    assert_eq!(Rejection::BadRequest.status(), 400);
    assert_eq!(Rejection::Forbidden.status(), 403);
    assert_eq!(Rejection::StoreFailure.status(), 500);
}

#[test]
fn valid_unused_token_is_accepted() {
    let (mut hs, step) = Handshake::begin(creds("alpha", "T1"));
    assert!(matches!(step, HandshakeStep::TouchToken { ref token } if token == "T1"));
    let step = hs.step(HandshakeEvent::TokenTouched(Ok(1)));
    assert!(matches!(step, HandshakeStep::CreateAgent { ref name } if name == "alpha"));
    assert_eq!(hs.stage(), Stage::CreatingAgent);
    let step = hs.step(HandshakeEvent::AgentCreated(Ok(())));
    assert!(matches!(step, HandshakeStep::Accept { ref name } if name == "alpha"));
    assert_eq!(hs.stage(), Stage::Done);
}

#[test]
fn consumed_token_is_refused() {
    let (mut hs, _) = Handshake::begin(creds("alpha", "T1"));
    let step = hs.step(HandshakeEvent::TokenTouched(Ok(0)));
    assert!(matches!(step, HandshakeStep::Reject(Rejection::Forbidden)));
    assert_eq!(hs.stage(), Stage::Done);
}

#[test]
fn two_handshakes_on_one_token_admit_one() {
    let (mut first, _) = Handshake::begin(creds("alpha", "T1"));
    let (mut second, _) = Handshake::begin(creds("alpha", "T1"));
    // The store runs the two single-use updates one after the other.
    let a = first.step(HandshakeEvent::TokenTouched(Ok(1)));
    let b = second.step(HandshakeEvent::TokenTouched(Ok(0)));
    assert!(matches!(a, HandshakeStep::CreateAgent { .. }));
    assert!(matches!(b, HandshakeStep::Reject(Rejection::Forbidden)));
}

#[test]
fn store_failures_never_let_an_agent_in() {
    let (mut hs, _) = Handshake::begin(creds("alpha", "T1"));
    let step = hs.step(HandshakeEvent::TokenTouched(Err(StoreError::Unavailable)));
    assert!(matches!(step, HandshakeStep::Reject(Rejection::StoreFailure)));

    let (mut hs, _) = Handshake::begin(creds("alpha", "T1"));
    hs.step(HandshakeEvent::TokenTouched(Ok(1)));
    let step = hs.step(HandshakeEvent::AgentCreated(Err(StoreError::Unavailable)));
    assert!(matches!(step, HandshakeStep::Reject(Rejection::StoreFailure)));
}

#[test]
fn more_than_one_row_or_events_out_of_turn_are_refused() {
    let (mut hs, _) = Handshake::begin(creds("alpha", "T1"));
    let step = hs.step(HandshakeEvent::TokenTouched(Ok(2)));
    assert!(matches!(step, HandshakeStep::Reject(Rejection::Forbidden)));

    let (mut hs, _) = Handshake::begin(creds("alpha", "T1"));
    let step = hs.step(HandshakeEvent::AgentCreated(Ok(())));
    assert!(matches!(step, HandshakeStep::Reject(Rejection::Forbidden)));
    let step = hs.step(HandshakeEvent::TokenTouched(Ok(1)));
    assert!(matches!(step, HandshakeStep::Reject(Rejection::Forbidden)));
}
