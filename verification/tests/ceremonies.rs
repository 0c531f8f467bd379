//! The four ceremony operations, run against the real engine and a software
//! authenticator that plays the client.

use rustkey_service::engine::{ConfigError, Engine};
use rustkey_service::error::{CeremonyError, ErrorKind};
use rustkey_service::identity::UserId;
use rustkey_service::party::RelyingParty;
use webauthn_authenticator_rs::softpasskey::SoftPasskey;
use webauthn_authenticator_rs::WebauthnAuthenticator;
use webauthn_rs::prelude::{Url, WebauthnError};

const RP_ID: &str = "localhost";
const ORIGIN: &str = "http://localhost:5173";

fn engine() -> Engine {
    Engine::configure(RP_ID, ORIGIN).expect("the test configuration is valid")
}

fn origin() -> Url {
    Url::parse(ORIGIN).expect("the test origin is a URL")
}

fn client() -> WebauthnAuthenticator<SoftPasskey> {
    WebauthnAuthenticator::new(SoftPasskey::new(true))
}

/// Registers a new user with `client` and returns the identity.
fn enroll(
    party: &mut RelyingParty,
    engine: &Engine,
    client: &mut WebauthnAuthenticator<SoftPasskey>,
    name: &str,
    display: &str,
) -> UserId {
    let (user, challenge) = party
        .begin_registration(engine, name, display)
        .expect("a registration with both names begins");
    let response = client
        .do_registration(origin(), challenge)
        .expect("the authenticator answers the challenge");
    party
        .complete_registration(engine, user, &response)
        .expect("a valid response completes the registration");
    user
}

#[test]
fn end_to_end_registration_then_authentication() {
    let engine = engine();
    let mut client = client();
    let mut party = RelyingParty::new();

    let (uid, challenge) = party
        .begin_registration(&engine, "alice", "Alice A")
        .expect("registration begins");
    assert!(party.ceremonies().has_pending_registration(uid));
    assert!(!party.credentials().contains(uid));

    let signed = client.do_registration(origin(), challenge).expect("client signs");
    let completed = party.complete_registration(&engine, uid, &signed);
    assert!(completed.is_ok());
    assert!(party.credentials().contains(uid));
    assert!(!party.ceremonies().has_pending_registration(uid));

    let challenge = party.begin_authentication(&engine, uid).expect("authentication begins");
    assert!(party.ceremonies().has_pending_authentication(uid));

    let assertion = client.do_authentication(origin(), challenge).expect("client signs");
    let authenticated = party.complete_authentication(&engine, uid, &assertion);
    assert!(authenticated.is_ok());
    assert!(!party.ceremonies().has_pending_authentication(uid));
}

#[test]
fn authentication_for_unknown_user_fails_and_creates_nothing() {
    let engine = engine();
    let mut party = RelyingParty::new();
    let unknown = UserId(0x67e5_5044_10b1_426f_9247_bb68_0e5f_e0c8);

    let result = party.begin_authentication(&engine, unknown);

    assert!(matches!(result, Err(CeremonyError::NotEnrolled)));
    assert_eq!(party.credentials().len(), 0);
    assert!(!party.credentials().contains(unknown));
    assert_eq!(party.ceremonies().pending_authentications(), 0);
    assert!(!party.ceremonies().has_pending_authentication(unknown));
    assert_eq!(party.ceremonies().pending_registrations(), 0);
}

#[test]
fn registration_succeeds_exactly_once() {
    let engine = engine();
    let mut client = client();
    let mut party = RelyingParty::new();

    let (user, challenge) = party.begin_registration(&engine, "bob", "Bob B").unwrap();
    let response = client.do_registration(origin(), challenge).unwrap();

    assert!(party.complete_registration(&engine, user, &response).is_ok());
    let record = party.credentials().get(user).expect("the user is enrolled");
    assert_eq!(record.counter(), 0);
    assert_eq!(party.credentials().len(), 1);

    let again = party.complete_registration(&engine, user, &response);
    assert!(matches!(again, Err(CeremonyError::NoPendingRegistration)));
    assert_eq!(party.credentials().len(), 1);
}

#[test]
fn second_completion_of_same_response_reports_no_pending_registration() {
    let engine = engine();
    let mut client = client();
    let mut party = RelyingParty::new();

    let (user, challenge) = party.begin_registration(&engine, "carol", "Carol C").unwrap();
    let response = client.do_registration(origin(), challenge).unwrap();

    let first = party.complete_registration(&engine, user, &response);
    let second = party.complete_registration(&engine, user, &response);

    assert!(first.is_ok());
    match second {
        Err(e) => {
            assert!(matches!(e, CeremonyError::NoPendingRegistration));
            assert_eq!(e.kind(), ErrorKind::Protocol);
            assert_eq!(e.code(), "no_pending_registration");
        }
        Ok(()) => panic!("the pending registration was consumed by the first completion"),
    }
}

#[test]
fn many_completions_of_one_registration_give_one_success() {
    let engine = engine();
    let mut client = client();
    let mut party = RelyingParty::new();

    let (user, challenge) = party.begin_registration(&engine, "dave", "Dave D").unwrap();
    let response = client.do_registration(origin(), challenge).unwrap();

    let mut successes = 0;
    let mut not_pending = 0;
    for _ in 0..8 {
        match party.complete_registration(&engine, user, &response) {
            Ok(()) => successes += 1,
            Err(CeremonyError::NoPendingRegistration) => not_pending += 1,
            Err(other) => panic!("unexpected failure: {:?}", other),
        }
    }

    assert_eq!(successes, 1);
    assert_eq!(not_pending, 7);
    assert!(party.credentials().contains(user));
}

#[test]
fn completion_without_begin_is_a_protocol_error() {
    let engine = engine();
    let mut client = client();
    let mut party = RelyingParty::new();
    let mut elsewhere = RelyingParty::new();

    // Responses that are valid in themselves, made for another party.
    let (other, challenge) = elsewhere.begin_registration(&engine, "erin", "Erin E").unwrap();
    let registration = client.do_registration(origin(), challenge).unwrap();
    elsewhere.complete_registration(&engine, other, &registration).unwrap();
    let challenge = elsewhere.begin_authentication(&engine, other).unwrap();
    let assertion = client.do_authentication(origin(), challenge).unwrap();

    let stranger = UserId(42);
    let registered = party.complete_registration(&engine, stranger, &registration);
    let authenticated = party.complete_authentication(&engine, stranger, &assertion);

    assert!(matches!(registered, Err(CeremonyError::NoPendingRegistration)));
    assert!(matches!(authenticated, Err(CeremonyError::NoPendingAuthentication)));
    assert_eq!(registered.unwrap_err().kind(), ErrorKind::Protocol);
    assert_eq!(authenticated.unwrap_err().kind(), ErrorKind::Protocol);
    assert_eq!(party.credentials().len(), 0);
    assert_eq!(party.ceremonies().pending_registrations(), 0);
    assert_eq!(party.ceremonies().pending_authentications(), 0);
}

#[test]
fn authentication_before_enrollment_completes_is_not_told_apart() {
    let engine = engine();
    let mut party = RelyingParty::new();

    // One identity was handed out and its registration is still pending; the
    // other was never seen.
    let (pending, _challenge) = party.begin_registration(&engine, "frank", "Frank F").unwrap();
    let never_seen = UserId(7);

    let a = party.begin_authentication(&engine, pending).unwrap_err();
    let b = party.begin_authentication(&engine, never_seen).unwrap_err();

    assert!(matches!(a, CeremonyError::NotEnrolled));
    assert!(matches!(b, CeremonyError::NotEnrolled));
    assert_eq!(a.kind(), ErrorKind::Lookup);
    assert_eq!(a.code(), b.code());
    assert_eq!(a.message(), b.message());
    assert_eq!(a.message(), "the ceremony cannot proceed");
    assert_eq!(party.ceremonies().pending_authentications(), 0);
    assert!(party.ceremonies().has_pending_registration(pending));
}

#[test]
fn registration_with_an_empty_name_is_rejected() {
    let engine = engine();
    let mut party = RelyingParty::new();

    let no_name = party.begin_registration(&engine, "", "Nobody");
    let no_display = party.begin_registration(&engine, "nobody", "");

    match no_name {
        Err(CeremonyError::Rejected(e)) => assert!(matches!(e, WebauthnError::InvalidUsername)),
        other => panic!("expected a rejection, got {:?}", other.map(|(id, _)| id)),
    }
    assert!(matches!(no_display, Err(CeremonyError::Rejected(_))));
    assert_eq!(no_display.unwrap_err().kind(), ErrorKind::Client);
    assert_eq!(party.ceremonies().pending_registrations(), 0);
    assert_eq!(party.credentials().len(), 0);
}

#[test]
fn each_registration_gets_an_identity_of_its_own() {
    let engine = engine();
    let mut party = RelyingParty::new();

    let (first, _) = party.begin_registration(&engine, "gina", "Gina G").unwrap();
    let (second, _) = party.begin_registration(&engine, "gina", "Gina G").unwrap();

    assert_ne!(first, second);
    assert_eq!(party.ceremonies().pending_registrations(), 2);
    assert!(party.ceremonies().has_pending_registration(first));
    assert!(party.ceremonies().has_pending_registration(second));
}

#[test]
fn failed_registration_consumes_the_pending_state() {
    let engine = engine();
    let mut client = client();
    let mut party = RelyingParty::new();

    // The client answers the first challenge, but the server is asked to
    // complete the second user's registration with that answer.
    let (_first, first_challenge) = party.begin_registration(&engine, "hugo", "Hugo H").unwrap();
    let (second, _second_challenge) = party.begin_registration(&engine, "ines", "Ines I").unwrap();
    let response = client.do_registration(origin(), first_challenge).unwrap();

    let failed = party.complete_registration(&engine, second, &response);
    match failed {
        Err(CeremonyError::VerificationFailed(e)) => {
            assert!(matches!(e, WebauthnError::MismatchedChallenge))
        }
        other => panic!("expected a verification failure, got {:?}", other),
    }
    assert!(!party.credentials().contains(second));
    assert!(!party.ceremonies().has_pending_registration(second));

    let retried = party.complete_registration(&engine, second, &response);
    assert!(matches!(retried, Err(CeremonyError::NoPendingRegistration)));
}

#[test]
fn failed_authentication_consumes_the_pending_state() {
    let engine = engine();
    let mut client = client();
    let mut party = RelyingParty::new();
    let user = enroll(&mut party, &engine, &mut client, "jack", "Jack J");

    // The client answers a first challenge; a second one replaces it on the
    // server before the answer arrives.
    let stale = party.begin_authentication(&engine, user).unwrap();
    let assertion = client.do_authentication(origin(), stale).unwrap();
    let _current = party.begin_authentication(&engine, user).unwrap();
    assert_eq!(party.ceremonies().pending_authentications(), 1);

    let failed = party.complete_authentication(&engine, user, &assertion);
    match failed {
        Err(CeremonyError::VerificationFailed(e)) => {
            assert!(matches!(e, WebauthnError::MismatchedChallenge))
        }
        other => panic!("expected a verification failure, got {:?}", other),
    }
    assert!(!party.ceremonies().has_pending_authentication(user));
    assert_eq!(party.credentials().get(user).unwrap().counter(), 0);

    let retried = party.complete_authentication(&engine, user, &assertion);
    assert!(matches!(retried, Err(CeremonyError::NoPendingAuthentication)));
}

#[test]
fn response_for_another_origin_fails_verification() {
    let engine = engine();
    let elsewhere = Engine::configure(RP_ID, "http://localhost:9999").unwrap();
    let mut client = client();
    let mut party = RelyingParty::new();

    let (user, challenge) = party.begin_registration(&engine, "kim", "Kim K").unwrap();
    let response = client.do_registration(origin(), challenge).unwrap();

    // The server that completes the ceremony is bound to another origin.
    let mut other_party = RelyingParty::new();
    let (other_user, _) = other_party.begin_registration(&elsewhere, "kim", "Kim K").unwrap();
    let failed = other_party.complete_registration(&elsewhere, other_user, &response);

    assert!(matches!(failed, Err(CeremonyError::VerificationFailed(_))));
    assert!(!other_party.credentials().contains(other_user));
    assert!(party.ceremonies().has_pending_registration(user));
}

#[test]
fn successive_authentications_advance_the_counter() {
    let engine = engine();
    let mut client = client();
    let mut party = RelyingParty::new();
    let user = enroll(&mut party, &engine, &mut client, "lena", "Lena L");
    assert_eq!(party.credentials().get(user).unwrap().counter(), 0);

    for expected in 1..=3u32 {
        let challenge = party.begin_authentication(&engine, user).unwrap();
        let assertion = client.do_authentication(origin(), challenge).unwrap();
        party.complete_authentication(&engine, user, &assertion).unwrap();
        assert_eq!(party.credentials().get(user).unwrap().counter(), expected);
    }
}

#[test]
fn users_do_not_disturb_each_other() {
    let engine = engine();
    let mut alice = client();
    let mut bob = client();
    let mut party = RelyingParty::new();
    let a = enroll(&mut party, &engine, &mut alice, "alice", "Alice A");
    let b = enroll(&mut party, &engine, &mut bob, "bob", "Bob B");

    let for_a = party.begin_authentication(&engine, a).unwrap();
    let for_b = party.begin_authentication(&engine, b).unwrap();
    assert_eq!(party.ceremonies().pending_authentications(), 2);

    let from_b = bob.do_authentication(origin(), for_b).unwrap();
    party.complete_authentication(&engine, b, &from_b).unwrap();
    assert!(party.ceremonies().has_pending_authentication(a));
    assert_eq!(party.credentials().get(a).unwrap().counter(), 0);
    assert_eq!(party.credentials().get(b).unwrap().counter(), 1);

    let from_a = alice.do_authentication(origin(), for_a).unwrap();
    party.complete_authentication(&engine, a, &from_a).unwrap();
    assert_eq!(party.credentials().get(a).unwrap().counter(), 1);
    assert_eq!(party.credentials().len(), 2);
}

#[test]
fn engine_refuses_an_id_that_does_not_fit_the_origin() {
    let mismatch = Engine::configure("example.com", "https://idm.different.com");
    let not_a_url = Engine::configure("localhost", "not a url");
    let fits = Engine::configure("example.com", "https://idm.example.com");

    assert!(matches!(mismatch, Err(ConfigError::Refused(WebauthnError::Configuration))));
    assert!(matches!(not_a_url, Err(ConfigError::MalformedOrigin)));
    assert!(fits.is_ok());
}

#[test]
fn of_two_challenges_the_later_one_can_be_answered() {
    let engine = engine();
    let mut client = client();
    let mut party = RelyingParty::new();
    let user = enroll(&mut party, &engine, &mut client, "mia", "Mia M");

    let _earlier = party.begin_authentication(&engine, user).unwrap();
    let later = party.begin_authentication(&engine, user).unwrap();
    assert_eq!(party.ceremonies().pending_authentications(), 1);

    let assertion = client.do_authentication(origin(), later).unwrap();
    assert!(party.complete_authentication(&engine, user, &assertion).is_ok());
    assert_eq!(party.credentials().get(user).unwrap().counter(), 1);
}

#[test]
fn an_accepted_assertion_cannot_be_replayed() {
    let engine = engine();
    let mut client = client();
    let mut party = RelyingParty::new();
    let user = enroll(&mut party, &engine, &mut client, "nora", "Nora N");

    let challenge = party.begin_authentication(&engine, user).unwrap();
    let assertion = client.do_authentication(origin(), challenge).unwrap();
    assert!(party.complete_authentication(&engine, user, &assertion).is_ok());

    // Replayed at once, the ceremony is no longer in flight.
    let replayed = party.complete_authentication(&engine, user, &assertion);
    assert!(matches!(replayed, Err(CeremonyError::NoPendingAuthentication)));

    // Replayed against a new challenge, the engine refuses it.
    let _fresh = party.begin_authentication(&engine, user).unwrap();
    let replayed = party.complete_authentication(&engine, user, &assertion);
    assert!(matches!(replayed, Err(CeremonyError::VerificationFailed(_))));
    assert_eq!(party.credentials().get(user).unwrap().counter(), 1);
    assert!(!party.ceremonies().has_pending_authentication(user));
}

#[test]
fn a_cloned_authenticator_is_refused_by_its_counter() {
    let engine = engine();
    let mut client = client();
    let mut party = RelyingParty::new();
    let user = enroll(&mut party, &engine, &mut client, "otto", "Otto O");

    // Two assertions are made in a row, and the later one arrives first.
    let first_challenge = party.begin_authentication(&engine, user).unwrap();
    let first = client.do_authentication(origin(), first_challenge).unwrap();
    let second_challenge = party.begin_authentication(&engine, user).unwrap();
    let second = client.do_authentication(origin(), second_challenge).unwrap();
    assert!(party.complete_authentication(&engine, user, &second).is_ok());
    assert_eq!(party.credentials().get(user).unwrap().counter(), 2);

    // The earlier assertion carries the smaller counter and a stale challenge.
    let _third_challenge = party.begin_authentication(&engine, user).unwrap();
    let late = party.complete_authentication(&engine, user, &first);

    assert!(late.is_err());
    assert_eq!(late.unwrap_err().kind(), ErrorKind::Verification);
    assert_eq!(party.credentials().get(user).unwrap().counter(), 2);
}

#[test]
fn configuring_twice_gives_the_same_answer() {
    let pairs = [
        ("localhost", "http://localhost:5173"),
        ("example.com", "https://idm.example.com"),
        ("example.com", "https://myexample.com"),
        ("example.com", "https://idm.different.com"),
        ("localhost", "localhost:5173/"),
        ("localhost", ""),
    ];
    let expected = [true, true, false, false, false, false];
    for (pair, accepted) in pairs.iter().zip(expected) {
        let first = Engine::configure(pair.0, pair.1);
        let second = Engine::configure(pair.0, pair.1);
        assert_eq!(first.is_ok(), accepted, "{:?}", pair);
        assert_eq!(format!("{:?}", first), format!("{:?}", second));
    }
    assert!(matches!(Engine::configure("localhost", ""), Err(ConfigError::MalformedOrigin)));
    assert!(matches!(
        Engine::configure("localhost", "localhost:5173/"),
        Err(ConfigError::Refused(WebauthnError::Configuration))
    ));
}
