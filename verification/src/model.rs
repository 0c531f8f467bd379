//! The ceremonies as a state machine.
//!
//! A relying party is, mathematically, three maps keyed by user: the enrolled
//! credentials, the pending registrations and the pending authentications.
//! Each ceremony operation is a function from the state before it and from
//! what the engine answered to the state after it and the result for the
//! caller. The executable operations of [`crate::party`] are proved to compute
//! these functions, and the laws of [`crate::laws`] are proved about them.
//!
//! A registration runs `none -> pending -> enrolled | rejected`, an
//! authentication `none -> pending -> authenticated | rejected`. Both are
//! single-attempt: completing a ceremony consumes its pending state whether or
//! not the response verifies, so that a challenge can be answered once.

use crate::credential::{assertion_applied, CredentialRecord, Records};
use crate::engine::{AssertionVerdict, IssuedAuthentication, IssuedRegistration, RegistrationVerdict};
use crate::error::CeremonyError;
use crate::identity::UserId;
use vstd::prelude::*;
use webauthn_rs::prelude::{
    CreationChallengeResponse, PasskeyAuthentication, PasskeyRegistration,
    RequestChallengeResponse,
};

verus! {

/// The state of a relying party.
#[verifier::ext_equal]
pub struct PartyState {
    /// The enrolled credential of each user who has one.
    pub credentials: Records,
    /// The engine's state of each registration in flight.
    pub registrations: Map<u128, PasskeyRegistration>,
    /// The engine's state of each authentication in flight.
    pub authentications: Map<u128, PasskeyAuthentication>,
}

impl PartyState {
    /// The state of a relying party that has served no request.
    pub open spec fn empty() -> PartyState {
        PartyState {
            credentials: Map::empty(),
            registrations: Map::empty(),
            authentications: Map::empty(),
        }
    }

    /// Every state that the operations reach from the empty one is well
    /// formed: an authentication is pending only for an enrolled user.
    pub open spec fn well_formed(self) -> bool {
        forall|user: u128| #[trigger]
            self.authentications.contains_key(user) ==> self.credentials.contains_key(user)
    }
}

/// Beginning a registration for the newly minted identity `user`, where
/// `issued` is what the engine answered. On a challenge, its server-side half
/// becomes the pending registration of `user`; on a refusal nothing changes.
pub open spec fn registration_begun(state: PartyState, user: u128, issued: IssuedRegistration) -> (
    PartyState,
    Result<(UserId, CreationChallengeResponse), CeremonyError>,
) {
    match issued {
        Ok((challenge, pending)) => (
            PartyState { registrations: state.registrations.insert(user, pending), ..state },
            Ok((UserId(user), challenge)),
        ),
        Err(e) => (state, Err(CeremonyError::Rejected(e))),
    }
}

/// Settling the registration of `user` once the engine has given its verdict
/// on the response: an accepted credential is enrolled with counter zero, in
/// place of any earlier record; a refusal changes nothing.
pub open spec fn registration_settled(state: PartyState, user: u128, verdict: RegistrationVerdict)
    -> (PartyState, Result<(), CeremonyError>) {
    match verdict {
        Ok(passkey) => (
            PartyState {
                credentials: state.credentials.insert(
                    user,
                    CredentialRecord { passkey, counter: 0 },
                ),
                ..state
            },
            Ok(()),
        ),
        Err(e) => (state, Err(CeremonyError::VerificationFailed(e))),
    }
}

/// Completing the registration of `user`, where `verdict` is what the engine
/// says of the response when asked. Without a pending registration the engine
/// is not asked and nothing changes. With one, it is consumed, and the verdict
/// is settled.
pub open spec fn registration_completed(
    state: PartyState,
    user: u128,
    verdict: RegistrationVerdict,
) -> (PartyState, Result<(), CeremonyError>) {
    if !state.registrations.contains_key(user) {
        (state, Err(CeremonyError::NoPendingRegistration))
    } else {
        registration_settled(
            PartyState { registrations: state.registrations.remove(user), ..state },
            user,
            verdict,
        )
    }
}

/// Beginning an authentication for `user`, where `issued` is what the engine
/// answers when asked for a challenge. A user without an enrolled credential
/// gets the one answer `NotEnrolled`, whatever else the state holds. For an
/// enrolled user the server-side half of the challenge becomes the pending
/// authentication, in place of any earlier one.
pub open spec fn authentication_begun(
    state: PartyState,
    user: u128,
    issued: IssuedAuthentication,
) -> (PartyState, Result<RequestChallengeResponse, CeremonyError>) {
    if !state.credentials.contains_key(user) {
        (state, Err(CeremonyError::NotEnrolled))
    } else {
        match issued {
            Ok((challenge, pending)) => (
                PartyState {
                    authentications: state.authentications.insert(user, pending),
                    ..state
                },
                Ok(challenge),
            ),
            Err(e) => (state, Err(CeremonyError::Rejected(e))),
        }
    }
}

/// Settling the authentication of `user` once the engine has given its
/// verdict. An accepted assertion is applied to the stored credential, which
/// succeeds exactly if its counter exceeds the stored one; a refusal changes
/// nothing.
pub open spec fn authentication_settled(state: PartyState, user: u128, verdict: AssertionVerdict)
    -> (PartyState, Result<(), CeremonyError>) {
    match verdict {
        Ok(assertion) => (
            PartyState {
                credentials: assertion_applied(state.credentials, user, assertion).0,
                ..state
            },
            assertion_applied(state.credentials, user, assertion).1,
        ),
        Err(e) => (state, Err(CeremonyError::VerificationFailed(e))),
    }
}

/// Completing the authentication of `user`, where `verdict` is what the engine
/// says of the response when asked. Without a pending authentication the
/// engine is not asked and nothing changes. With one, it is consumed, and the
/// verdict is settled.
pub open spec fn authentication_completed(
    state: PartyState,
    user: u128,
    verdict: AssertionVerdict,
) -> (PartyState, Result<(), CeremonyError>) {
    if !state.authentications.contains_key(user) {
        (state, Err(CeremonyError::NoPendingAuthentication))
    } else {
        authentication_settled(
            PartyState { authentications: state.authentications.remove(user), ..state },
            user,
            verdict,
        )
    }
}

} // verus!
