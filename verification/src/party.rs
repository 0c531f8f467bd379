//! The ceremony orchestrator.
//!
//! A [`RelyingParty`] owns the credential store and the ceremony state store
//! and offers the four ceremony operations. Each operation runs to its end on
//! a `&mut RelyingParty`: whoever shares a party between requests serialises
//! them, and so reading a pending ceremony and removing it are one step.
//!
//! Each operation that asks the engine is matched by one that takes the
//! engine's answer as an argument and does everything else. The second is an
//! exact function of its arguments. Of the first, a beginning says what holds
//! whatever challenge the engine drew, and a completion is exact over what the
//! engine accepts of the response and the pending state.

use crate::ceremony::CeremonyStore;
use crate::credential::{CredentialRecord, CredentialStore};
use crate::engine::{
    accepted_assertion, accepted_credential, bears_out, finish_authentication,
    finish_registration, random_identity, start_authentication, start_registration,
    AssertionVerdict, Engine, IssuedAuthentication, IssuedRegistration, RegistrationVerdict,
};
use crate::error::CeremonyError;
use crate::identity::UserId;
use crate::model::{
    authentication_begun, authentication_completed, authentication_settled, registration_begun,
    registration_completed, registration_settled, PartyState,
};
use vstd::prelude::*;
use webauthn_rs::prelude::{
    CreationChallengeResponse, PublicKeyCredential, RegisterPublicKeyCredential,
    RequestChallengeResponse,
};

verus! {

/// The state of a relying party: who is enrolled, and which ceremonies are in
/// flight.
pub struct RelyingParty {
    credentials: CredentialStore,
    ceremonies: CeremonyStore,
}

impl View for RelyingParty {
    type V = PartyState;

    closed spec fn view(&self) -> PartyState {
        PartyState {
            credentials: self.credentials@,
            registrations: self.ceremonies.registrations(),
            authentications: self.ceremonies.authentications(),
        }
    }
}

impl RelyingParty {
    /// A relying party that has served no request.
    pub fn new() -> (party: RelyingParty)
        ensures
            party@ == PartyState::empty(),
            party@.well_formed(),
    {
        RelyingParty { credentials: CredentialStore::new(), ceremonies: CeremonyStore::new() }
    }

    /// The credential store.
    pub fn credentials(&self) -> (store: &CredentialStore)
        ensures
            store@ == self@.credentials,
    {
        &self.credentials
    }

    /// The ceremony state store.
    pub fn ceremonies(&self) -> (store: &CeremonyStore)
        ensures
            store.registrations() == self@.registrations,
            store.authentications() == self@.authentications,
    {
        &self.ceremonies
    }

    /// Records what the engine issued for a registration of the identity
    /// `user`: the server-side state of a challenge becomes the pending
    /// registration and the challenge goes to the client with the identity; a
    /// refusal is handed on as `Rejected`.
    pub fn admit_registration(&mut self, user: UserId, issued: IssuedRegistration) -> (result:
        Result<(UserId, CreationChallengeResponse), CeremonyError>)
        ensures
            (final(self)@, result) == registration_begun(old(self)@, user.0, issued),
            old(self)@.well_formed() ==> final(self)@.well_formed(),
    {
        match issued {
            Ok((challenge, pending)) => {
                self.ceremonies.put_pending_registration(user, pending);
                Ok((user, challenge))
            },
            Err(e) => Err(CeremonyError::Rejected(e)),
        }
    }

    /// Begins the registration of a new user: mints an identity, has the
    /// engine issue a challenge bound to it and to the two names, and keeps
    /// the engine's state as the pending registration of that identity.
    ///
    /// The call succeeds exactly if neither name is empty. What it returns and
    /// how it leaves the party is [`registration_begun`] of the minted
    /// identity and of what the engine issued; no credential is touched.
    pub fn begin_registration(
        &mut self,
        engine: &Engine,
        user_name: &str,
        display_name: &str,
    ) -> (result: Result<(UserId, CreationChallengeResponse), CeremonyError>)
        ensures
            result is Ok <==> (user_name@.len() > 0 && display_name@.len() > 0),
            exists|user: u128, issued: IssuedRegistration|
                (final(self)@, result) == #[trigger] registration_begun(old(self)@, user, issued),
            result matches Ok((user, _)) ==> final(self)@.registrations.dom()
                == old(self)@.registrations.dom().insert(user.0),
            result is Err ==> final(self)@ == old(self)@,
            final(self)@.credentials == old(self)@.credentials,
            final(self)@.authentications == old(self)@.authentications,
            old(self)@.well_formed() ==> final(self)@.well_formed(),
    {
        let user = UserId(random_identity());
        let issued = start_registration(engine, user.0, user_name, display_name);
        self.admit_registration(user, issued)
    }

    /// Settles a registration on the engine's verdict. An accepted credential
    /// is enrolled for `user`, a refusal is handed on as `VerificationFailed`.
    pub fn settle_registration(&mut self, user: UserId, verdict: RegistrationVerdict) -> (result:
        Result<(), CeremonyError>)
        ensures
            (final(self)@, result) == registration_settled(old(self)@, user.0, verdict),
            old(self)@.well_formed() ==> final(self)@.well_formed(),
    {
        match verdict {
            Ok(passkey) => {
                self.credentials.put(user, CredentialRecord::enrolled(passkey));
                Ok(())
            },
            Err(e) => Err(CeremonyError::VerificationFailed(e)),
        }
    }

    /// Completes the registration of `user` with the client's response.
    ///
    /// Without a pending registration the call fails with
    /// `NoPendingRegistration` and changes nothing. Otherwise the pending
    /// state is consumed, the engine verifies the response against it, and the
    /// verdict is settled: what is returned and how the party is left is
    /// [`registration_completed`] of the engine's verdict.
    ///
    /// The call succeeds exactly if a registration was pending and the engine
    /// accepts the response for it; the user is then enrolled with the
    /// credential that the engine accepted. A response that the engine does
    /// not accept gives `VerificationFailed` with the engine's error.
    pub fn complete_registration(
        &mut self,
        engine: &Engine,
        user: UserId,
        response: &RegisterPublicKeyCredential,
    ) -> (result: Result<(), CeremonyError>)
        ensures
            exists|verdict: RegistrationVerdict|
                (final(self)@, result) == #[trigger] registration_completed(
                    old(self)@,
                    user.0,
                    verdict,
                ) && (old(self)@.registrations.contains_key(user.0) ==> bears_out(
                    verdict,
                    accepted_credential(
                        engine.webauthn(),
                        *response,
                        old(self)@.registrations[user.0],
                    ),
                )),
            result is Ok <==> old(self)@.registrations.contains_key(user.0)
                && accepted_credential(
                engine.webauthn(),
                *response,
                old(self)@.registrations[user.0],
            ) is Some,
            result is Ok ==> (final(self)@, result) == registration_completed(
                old(self)@,
                user.0,
                Ok(
                    accepted_credential(
                        engine.webauthn(),
                        *response,
                        old(self)@.registrations[user.0],
                    )->0,
                ),
            ),
            result matches Err(e) ==> e is NoPendingRegistration || e is VerificationFailed,
            !old(self)@.registrations.contains_key(user.0) ==> result == Err::<(), CeremonyError>(
                CeremonyError::NoPendingRegistration,
            ) && final(self)@ == old(self)@,
            final(self)@.registrations == old(self)@.registrations.remove(user.0),
            final(self)@.authentications == old(self)@.authentications,
            result is Ok ==> final(self)@.credentials.dom()
                == old(self)@.credentials.dom().insert(user.0)
                && final(self)@.credentials[user.0].counter == 0,
            result is Err ==> final(self)@.credentials == old(self)@.credentials,
            old(self)@.well_formed() ==> final(self)@.well_formed(),
    {
        match self.ceremonies.take_pending_registration(user) {
            None => {
                proof {
                    let verdict: RegistrationVerdict = arbitrary();
                    assert((self@, Err::<(), CeremonyError>(CeremonyError::NoPendingRegistration))
                        == registration_completed(old(self)@, user.0, verdict));
                }
                Err(CeremonyError::NoPendingRegistration)
            },
            Some(pending) => {
                let verdict = finish_registration(engine, response, &pending);
                let ghost taken = self@;
                let result = self.settle_registration(user, verdict);
                proof {
                    assert(taken == PartyState {
                        registrations: old(self)@.registrations.remove(user.0),
                        ..old(self)@
                    });
                    assert((self@, result) == registration_completed(old(self)@, user.0, verdict));
                }
                result
            },
        }
    }

    /// Records what the engine issued for an authentication of `user`: for an
    /// enrolled user the server-side state of a challenge becomes the pending
    /// authentication, in place of any earlier one. A user who is not
    /// enrolled gets `NotEnrolled` and nothing is kept.
    pub fn admit_authentication(&mut self, user: UserId, issued: IssuedAuthentication) -> (result:
        Result<RequestChallengeResponse, CeremonyError>)
        ensures
            (final(self)@, result) == authentication_begun(old(self)@, user.0, issued),
            old(self)@.well_formed() ==> final(self)@.well_formed(),
    {
        if !self.credentials.contains(user) {
            return Err(CeremonyError::NotEnrolled);
        }
        match issued {
            Ok((challenge, pending)) => {
                self.ceremonies.put_pending_authentication(user, pending);
                Ok(challenge)
            },
            Err(e) => Err(CeremonyError::Rejected(e)),
        }
    }

    /// Begins an authentication of `user`.
    ///
    /// The call succeeds exactly if `user` has an enrolled credential. A user
    /// without one gets `NotEnrolled`, the engine is not asked and nothing
    /// changes. For an enrolled user the engine issues a challenge for the
    /// one enrolled credential, and its state replaces any authentication
    /// that was pending for the user.
    pub fn begin_authentication(&mut self, engine: &Engine, user: UserId) -> (result: Result<
        RequestChallengeResponse,
        CeremonyError,
    >)
        ensures
            result is Ok <==> old(self)@.credentials.contains_key(user.0),
            exists|issued: IssuedAuthentication|
                (final(self)@, result) == #[trigger] authentication_begun(
                    old(self)@,
                    user.0,
                    issued,
                ),
            !old(self)@.credentials.contains_key(user.0) ==> result == Err::<
                RequestChallengeResponse,
                CeremonyError,
            >(CeremonyError::NotEnrolled) && final(self)@ == old(self)@,
            result is Ok ==> final(self)@.authentications.dom()
                == old(self)@.authentications.dom().insert(user.0),
            final(self)@.credentials == old(self)@.credentials,
            final(self)@.registrations == old(self)@.registrations,
            old(self)@.well_formed() ==> final(self)@.well_formed(),
    {
        let issued = match self.credentials.get(user) {
            None => {
                proof {
                    let issued: IssuedAuthentication = arbitrary();
                    assert((self@, Err::<RequestChallengeResponse, CeremonyError>(
                        CeremonyError::NotEnrolled,
                    )) == authentication_begun(old(self)@, user.0, issued));
                }
                return Err(CeremonyError::NotEnrolled);
            },
            Some(record) => start_authentication(engine, record.passkey()),
        };
        self.admit_authentication(user, issued)
    }

    /// Settles an authentication on the engine's verdict. An accepted
    /// assertion is applied to the credential of `user`, which fails with
    /// `CounterRegression` unless its counter exceeds the stored one; a
    /// refusal is handed on as `VerificationFailed`.
    pub fn settle_authentication(&mut self, user: UserId, verdict: AssertionVerdict) -> (result:
        Result<(), CeremonyError>)
        ensures
            (final(self)@, result) == authentication_settled(old(self)@, user.0, verdict),
            old(self)@.well_formed() ==> final(self)@.well_formed(),
    {
        match verdict {
            Ok(assertion) => self.credentials.apply_assertion(user, &assertion),
            Err(e) => Err(CeremonyError::VerificationFailed(e)),
        }
    }

    /// Completes the authentication of `user` with the client's response.
    ///
    /// Without a pending authentication the call fails with
    /// `NoPendingAuthentication` and changes nothing. Otherwise the pending
    /// state is consumed, the engine verifies the response against it, and the
    /// verdict is settled: what is returned and how the party is left is
    /// [`authentication_completed`] of the engine's verdict.
    ///
    /// Where the engine accepts the response, that is the settlement of what
    /// it accepted: the call succeeds exactly if the reported counter exceeds
    /// the stored one. A response that the engine does not accept gives
    /// `VerificationFailed` with the engine's error.
    pub fn complete_authentication(
        &mut self,
        engine: &Engine,
        user: UserId,
        response: &PublicKeyCredential,
    ) -> (result: Result<(), CeremonyError>)
        ensures
            exists|verdict: AssertionVerdict|
                (final(self)@, result) == #[trigger] authentication_completed(
                    old(self)@,
                    user.0,
                    verdict,
                ) && (old(self)@.authentications.contains_key(user.0) ==> bears_out(
                    verdict,
                    accepted_assertion(
                        engine.webauthn(),
                        *response,
                        old(self)@.authentications[user.0],
                    ),
                )),
            old(self)@.authentications.contains_key(user.0) ==> match accepted_assertion(
                engine.webauthn(),
                *response,
                old(self)@.authentications[user.0],
            ) {
                Some(assertion) => (final(self)@, result) == authentication_completed(
                    old(self)@,
                    user.0,
                    Ok(assertion),
                ),
                None => result matches Err(e) && e is VerificationFailed,
            },
            !old(self)@.authentications.contains_key(user.0) ==> result == Err::<
                (),
                CeremonyError,
            >(CeremonyError::NoPendingAuthentication) && final(self)@ == old(self)@,
            final(self)@.authentications == old(self)@.authentications.remove(user.0),
            final(self)@.registrations == old(self)@.registrations,
            final(self)@.credentials.dom() == old(self)@.credentials.dom(),
            result is Ok ==> old(self)@.credentials.contains_key(user.0)
                && final(self)@.credentials[user.0].counter
                > old(self)@.credentials[user.0].counter,
            result is Err ==> final(self)@.credentials == old(self)@.credentials,
            old(self)@.well_formed() ==> final(self)@.well_formed(),
    {
        match self.ceremonies.take_pending_authentication(user) {
            None => {
                proof {
                    let verdict: AssertionVerdict = arbitrary();
                    assert((self@, Err::<(), CeremonyError>(
                        CeremonyError::NoPendingAuthentication,
                    )) == authentication_completed(old(self)@, user.0, verdict));
                }
                Err(CeremonyError::NoPendingAuthentication)
            },
            Some(pending) => {
                let verdict = finish_authentication(engine, response, &pending);
                let ghost taken = self@;
                let result = self.settle_authentication(user, verdict);
                proof {
                    assert(taken == PartyState {
                        authentications: old(self)@.authentications.remove(user.0),
                        ..old(self)@
                    });
                    assert((self@, result) == authentication_completed(
                        old(self)@,
                        user.0,
                        verdict,
                    ));
                }
                result
            },
        }
    }
}

} // verus!
