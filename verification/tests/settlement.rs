//! The operations that take the engine's answer as an argument, on answers
//! chosen by the test.

use rustkey_service::error::{CeremonyError, ErrorKind};
use rustkey_service::identity::UserId;
use rustkey_service::party::RelyingParty;
use webauthn_authenticator_rs::softpasskey::SoftPasskey;
use webauthn_authenticator_rs::WebauthnAuthenticator;
use webauthn_rs::prelude::{
    AuthenticationResult, Passkey, Url, Uuid, Webauthn, WebauthnBuilder, WebauthnError,
};

fn home() -> Url {
    Url::parse("http://localhost:5173").unwrap()
}

fn relying_core() -> Webauthn {
    WebauthnBuilder::new("localhost", &home()).unwrap().build().unwrap()
}

fn device() -> WebauthnAuthenticator<SoftPasskey> {
    WebauthnAuthenticator::new(SoftPasskey::new(true))
}

fn registered(engine: &Webauthn, device: &mut WebauthnAuthenticator<SoftPasskey>) -> Passkey {
    let (challenge, state) = engine
        .start_passkey_registration(Uuid::from_u128(1), "user", "User", None)
        .unwrap();
    let response = device.do_registration(home(), challenge).unwrap();
    engine.finish_passkey_registration(&response, &state).unwrap()
}

fn asserted(
    engine: &Webauthn,
    device: &mut WebauthnAuthenticator<SoftPasskey>,
    passkey: &Passkey,
) -> AuthenticationResult {
    let (challenge, state) =
        engine.start_passkey_authentication(std::slice::from_ref(passkey)).unwrap();
    let response = device.do_authentication(home(), challenge).unwrap();
    engine.finish_passkey_authentication(&response, &state).unwrap()
}

#[test]
fn a_new_party_has_nothing() {
    let party = RelyingParty::new();

    assert_eq!(party.credentials().len(), 0);
    assert_eq!(party.ceremonies().pending_registrations(), 0);
    assert_eq!(party.ceremonies().pending_authentications(), 0);
}

#[test]
fn admit_registration_keeps_the_state_under_the_identity() {
    let engine = relying_core();
    let mut party = RelyingParty::new();
    let user = UserId(0xabc);
    let issued = engine.start_passkey_registration(Uuid::from_u128(0xabc), "amy", "Amy", None);
    let challenge = format!("{:?}", issued.as_ref().unwrap().0);

    let result = party.admit_registration(user, issued);

    let (returned, to_client) = result.expect("a challenge was issued");
    assert_eq!(returned, user);
    assert_eq!(format!("{:?}", to_client), challenge);
    assert!(party.ceremonies().has_pending_registration(user));
    assert_eq!(party.ceremonies().pending_registrations(), 1);
    assert_eq!(party.credentials().len(), 0);
}

#[test]
fn admit_registration_hands_on_a_refusal() {
    let mut party = RelyingParty::new();

    let result = party.admit_registration(UserId(1), Err(WebauthnError::InvalidUsername));

    match result {
        Err(e) => {
            assert!(matches!(e, CeremonyError::Rejected(WebauthnError::InvalidUsername)));
            assert_eq!(e.kind(), ErrorKind::Client);
        }
        Ok(_) => panic!("a refusal is not a challenge"),
    }
    assert_eq!(party.ceremonies().pending_registrations(), 0);
}

#[test]
fn settle_registration_enrolls_an_accepted_credential() {
    let engine = relying_core();
    let mut device = device();
    let passkey = registered(&engine, &mut device);
    let mut party = RelyingParty::new();
    let user = UserId(2);

    let result = party.settle_registration(user, Ok(passkey.clone()));

    assert!(result.is_ok());
    let record = party.credentials().get(user).expect("enrolled");
    assert_eq!(record.passkey(), &passkey);
    assert_eq!(record.counter(), 0);
    assert_eq!(party.credentials().len(), 1);
}

#[test]
fn settle_registration_hands_on_a_refusal() {
    let mut party = RelyingParty::new();
    let user = UserId(3);

    let result = party.settle_registration(user, Err(WebauthnError::InvalidRPOrigin));

    match result {
        Err(e) => {
            assert!(matches!(e, CeremonyError::VerificationFailed(WebauthnError::InvalidRPOrigin)));
            assert_eq!(e.kind(), ErrorKind::Verification);
            assert_eq!(e.code(), "verification_failed");
            assert_eq!(
                e.message(),
                "The clients relying party origin does not match our servers information"
            );
        }
        Ok(()) => panic!("a refusal enrolls nobody"),
    }
    assert!(!party.credentials().contains(user));
}

#[test]
fn admit_authentication_needs_an_enrolled_user() {
    let engine = relying_core();
    let mut device = device();
    let passkey = registered(&engine, &mut device);
    let mut party = RelyingParty::new();
    let user = UserId(4);

    let issued = engine.start_passkey_authentication(std::slice::from_ref(&passkey));
    let before = party.admit_authentication(user, issued);
    assert!(matches!(before, Err(CeremonyError::NotEnrolled)));
    assert_eq!(party.ceremonies().pending_authentications(), 0);

    party.settle_registration(user, Ok(passkey.clone())).unwrap();
    let issued = engine.start_passkey_authentication(std::slice::from_ref(&passkey));
    let challenge = format!("{:?}", issued.as_ref().unwrap().0);
    let after = party.admit_authentication(user, issued);

    assert_eq!(format!("{:?}", after.expect("the user is enrolled now")), challenge);
    assert!(party.ceremonies().has_pending_authentication(user));
}

#[test]
fn admit_authentication_hands_on_a_refusal_for_an_enrolled_user() {
    let engine = relying_core();
    let mut device = device();
    let mut party = RelyingParty::new();
    let user = UserId(5);
    party.settle_registration(user, Ok(registered(&engine, &mut device))).unwrap();

    let result = party.admit_authentication(user, Err(WebauthnError::CredentialNotFound));

    assert!(matches!(result, Err(CeremonyError::Rejected(WebauthnError::CredentialNotFound))));
    assert!(!party.ceremonies().has_pending_authentication(user));
}

#[test]
fn settle_authentication_stores_the_counter_and_never_goes_back() {
    let engine = relying_core();
    let mut device = device();
    let passkey = registered(&engine, &mut device);
    let first = asserted(&engine, &mut device, &passkey);
    let second = asserted(&engine, &mut device, &passkey);
    assert_eq!((first.counter(), second.counter()), (1, 2));
    let mut party = RelyingParty::new();
    let user = UserId(6);
    party.settle_registration(user, Ok(passkey)).unwrap();

    assert!(party.settle_authentication(user, Ok(first.clone())).is_ok());
    assert_eq!(party.credentials().get(user).unwrap().counter(), 1);

    let replayed = party.settle_authentication(user, Ok(first.clone()));
    assert!(matches!(replayed, Err(CeremonyError::CounterRegression { stored: 1, reported: 1 })));
    assert_eq!(party.credentials().get(user).unwrap().counter(), 1);

    assert!(party.settle_authentication(user, Ok(second)).is_ok());
    assert_eq!(party.credentials().get(user).unwrap().counter(), 2);

    let older = party.settle_authentication(user, Ok(first));
    match older {
        Err(e) => {
            assert!(matches!(e, CeremonyError::CounterRegression { stored: 2, reported: 1 }));
            assert_eq!(e.kind(), ErrorKind::Verification);
            assert_eq!(e.code(), "counter_regression");
        }
        Ok(()) => panic!("the counter went back"),
    }
    assert_eq!(party.credentials().get(user).unwrap().counter(), 2);
}

#[test]
fn settle_authentication_hands_on_a_refusal() {
    let engine = relying_core();
    let mut device = device();
    let mut party = RelyingParty::new();
    let user = UserId(7);
    party.settle_registration(user, Ok(registered(&engine, &mut device))).unwrap();

    let result = party.settle_authentication(user, Err(WebauthnError::CredentialPossibleCompromise));

    assert!(matches!(
        result,
        Err(CeremonyError::VerificationFailed(WebauthnError::CredentialPossibleCompromise))
    ));
    assert_eq!(party.credentials().get(user).unwrap().counter(), 0);
}

#[test]
fn settle_authentication_for_an_unenrolled_user_is_not_enrolled() {
    let engine = relying_core();
    let mut device = device();
    let passkey = registered(&engine, &mut device);
    let accepted = asserted(&engine, &mut device, &passkey);
    let mut party = RelyingParty::new();

    let result = party.settle_authentication(UserId(8), Ok(accepted));

    assert!(matches!(result, Err(CeremonyError::NotEnrolled)));
    assert_eq!(party.credentials().len(), 0);
}

#[test]
fn re_enrollment_replaces_the_record() {
    let engine = relying_core();
    let mut old_device = device();
    let mut new_device = device();
    let old_key = registered(&engine, &mut old_device);
    let new_key = registered(&engine, &mut new_device);
    let accepted = asserted(&engine, &mut old_device, &old_key);
    let mut party = RelyingParty::new();
    let user = UserId(9);
    party.settle_registration(user, Ok(old_key)).unwrap();
    party.settle_authentication(user, Ok(accepted)).unwrap();
    assert_eq!(party.credentials().get(user).unwrap().counter(), 1);

    party.settle_registration(user, Ok(new_key.clone())).unwrap();

    let record = party.credentials().get(user).unwrap();
    assert_eq!(record.passkey(), &new_key);
    assert_eq!(record.counter(), 0);
    assert_eq!(party.credentials().len(), 1);
}
