//! What holds of the ceremonies in every state.
//!
//! Each law is stated over the state machine of [`crate::model`], which the
//! operations of [`crate::party::RelyingParty`] are proved to compute, and for
//! every answer that the engine may give.

use crate::credential::CredentialRecord;
use crate::engine::{
    reported_counter, AssertionVerdict, IssuedAuthentication, IssuedRegistration,
    RegistrationVerdict,
};
use crate::error::CeremonyError;
use crate::identity::UserId;
use crate::model::{
    authentication_begun, authentication_completed, authentication_settled, registration_begun,
    registration_completed, registration_settled, PartyState,
};
use vstd::prelude::*;
use webauthn_rs::prelude::{
    AuthenticationResult, CreationChallengeResponse, Passkey, PasskeyAuthentication,
    PasskeyRegistration, RequestChallengeResponse,
};

verus! {

/// A registration that is begun and then completed with a response that the
/// engine accepts succeeds, and leaves the user enrolled with the accepted
/// credential and without a pending registration. It succeeds once: whatever
/// the engine would say of a further response, completing again fails with
/// `NoPendingRegistration` and changes nothing.
pub proof fn lemma_registration_succeeds_exactly_once(
    state: PartyState,
    user: u128,
    challenge: CreationChallengeResponse,
    pending: PasskeyRegistration,
    passkey: Passkey,
    again: RegistrationVerdict,
)
    ensures
        ({
            let begun = registration_begun(state, user, Ok((challenge, pending)));
            let completed = registration_completed(begun.0, user, Ok(passkey));
            let repeated = registration_completed(completed.0, user, again);
            &&& begun.1 == Ok::<(UserId, CreationChallengeResponse), CeremonyError>(
                (UserId(user), challenge),
            )
            &&& begun.0.credentials == state.credentials
            &&& completed.1 is Ok
            &&& completed.0.credentials.contains_key(user)
            &&& completed.0.credentials[user] == (CredentialRecord { passkey, counter: 0 })
            &&& !completed.0.registrations.contains_key(user)
            &&& repeated.1 == Err::<(), CeremonyError>(CeremonyError::NoPendingRegistration)
            &&& repeated.0 == completed.0
        }),
{
}

/// Of two completions of a registration for one user with nothing begun in
/// between, the second fails with `NoPendingRegistration` and changes
/// nothing, whatever the first did and whatever the engine would say: the
/// first has consumed the pending state. So at most one of them succeeds.
pub proof fn lemma_registration_completes_at_most_once(
    state: PartyState,
    user: u128,
    first: RegistrationVerdict,
    second: RegistrationVerdict,
)
    ensures
        ({
            let one = registration_completed(state, user, first);
            let two = registration_completed(one.0, user, second);
            &&& two.1 == Err::<(), CeremonyError>(CeremonyError::NoPendingRegistration)
            &&& two.0 == one.0
            &&& !(one.1 is Ok && two.1 is Ok)
        }),
{
}

/// Completing a ceremony that is not in flight is a protocol error and
/// changes nothing: the engine's verdict has no part in it.
pub proof fn lemma_completion_without_begin_fails(
    state: PartyState,
    user: u128,
    registration: RegistrationVerdict,
    assertion: AssertionVerdict,
)
    ensures
        !state.registrations.contains_key(user) ==> registration_completed(
            state,
            user,
            registration,
        ) == (state, Err::<(), CeremonyError>(CeremonyError::NoPendingRegistration)),
        !state.authentications.contains_key(user) ==> authentication_completed(
            state,
            user,
            assertion,
        ) == (state, Err::<(), CeremonyError>(CeremonyError::NoPendingAuthentication)),
        CeremonyError::NoPendingRegistration.kind_of() == crate::error::ErrorKind::Protocol,
        CeremonyError::NoPendingAuthentication.kind_of() == crate::error::ErrorKind::Protocol,
{
}

/// A relying party that has served no request has no ceremony in flight, so
/// every completion fails there.
pub proof fn lemma_nothing_is_pending_at_first(
    user: u128,
    registration: RegistrationVerdict,
    assertion: AssertionVerdict,
)
    ensures
        registration_completed(PartyState::empty(), user, registration).1 == Err::<
            (),
            CeremonyError,
        >(CeremonyError::NoPendingRegistration),
        authentication_completed(PartyState::empty(), user, assertion).1 == Err::<
            (),
            CeremonyError,
        >(CeremonyError::NoPendingAuthentication),
{
}

/// Beginning an authentication for a user without an enrolled credential gives
/// one and the same answer in every state, whatever the engine would issue:
/// `NotEnrolled`, with the same code and message, and no change of state. The
/// answer does not tell a user who began a registration, or completed one in
/// vain, from an identity that was never handed out.
pub proof fn lemma_unenrolled_answer_is_uniform(
    one: PartyState,
    other: PartyState,
    user: u128,
    issued_one: IssuedAuthentication,
    issued_other: IssuedAuthentication,
)
    requires
        !one.credentials.contains_key(user),
        !other.credentials.contains_key(user),
    ensures
        authentication_begun(one, user, issued_one).1 == authentication_begun(
            other,
            user,
            issued_other,
        ).1,
        authentication_begun(one, user, issued_one) == (
            one,
            Err::<RequestChallengeResponse, CeremonyError>(CeremonyError::NotEnrolled),
        ),
        authentication_begun(other, user, issued_other) == (
            other,
            Err::<RequestChallengeResponse, CeremonyError>(CeremonyError::NotEnrolled),
        ),
{
}

/// When an authentication is completed successfully, the stored signature
/// counter was below the one that the engine reported and is now equal to it;
/// the pending authentication is gone and no other user's record has changed.
pub proof fn lemma_accepted_assertion_sets_counter(
    state: PartyState,
    user: u128,
    assertion: AuthenticationResult,
)
    requires
        authentication_completed(state, user, Ok(assertion)).1 is Ok,
    ensures
        ({
            let after = authentication_completed(state, user, Ok(assertion)).0;
            &&& state.credentials.contains_key(user)
            &&& state.credentials[user].counter < reported_counter(assertion)
            &&& after.credentials.contains_key(user)
            &&& after.credentials[user].counter == reported_counter(assertion)
            &&& !after.authentications.contains_key(user)
            &&& after.credentials.remove(user) == state.credentials.remove(user)
        }),
{
}

/// An assertion whose counter does not exceed the stored one is never
/// accepted: completing the authentication fails, with `CounterRegression`
/// where an authentication was pending, and the credentials stay as they
/// were.
pub proof fn lemma_stale_counter_is_refused(
    state: PartyState,
    user: u128,
    assertion: AuthenticationResult,
)
    requires
        state.credentials.contains_key(user),
        reported_counter(assertion) <= state.credentials[user].counter,
    ensures
        ({
            let done = authentication_completed(state, user, Ok(assertion));
            &&& done.1 is Err
            &&& done.0.credentials == state.credentials
            &&& state.authentications.contains_key(user) ==> done.1 == Err::<(), CeremonyError>(
                CeremonyError::CounterRegression {
                    stored: state.credentials[user].counter,
                    reported: reported_counter(assertion),
                },
            )
        }),
{
}

/// The stored counter only moves forward: after a successful authentication,
/// a further authentication of the same user whose assertion carries a
/// counter that is not greater than the accepted one fails with
/// `CounterRegression` and leaves the record as the first left it.
pub proof fn lemma_counter_never_goes_back(
    state: PartyState,
    user: u128,
    first: AuthenticationResult,
    challenge: RequestChallengeResponse,
    pending: PasskeyAuthentication,
    second: AuthenticationResult,
)
    requires
        authentication_completed(state, user, Ok(first)).1 is Ok,
        reported_counter(second) <= reported_counter(first),
    ensures
        ({
            let accepted = authentication_completed(state, user, Ok(first)).0;
            let begun = authentication_begun(accepted, user, Ok((challenge, pending)));
            let done = authentication_completed(begun.0, user, Ok(second));
            &&& begun.1 is Ok
            &&& done.1 == Err::<(), CeremonyError>(
                CeremonyError::CounterRegression {
                    stored: reported_counter(first),
                    reported: reported_counter(second),
                },
            )
            &&& done.0.credentials == accepted.credentials
        }),
{
    lemma_accepted_assertion_sets_counter(state, user, first);
}

/// The results of completing the registration of one user several times in
/// turn, the `i`-th time with `verdicts[i]` as the engine's verdict, and the
/// state that is left.
pub open spec fn registrations_completed_in_turn(
    state: PartyState,
    user: u128,
    verdicts: Seq<RegistrationVerdict>,
) -> (PartyState, Seq<Result<(), CeremonyError>>)
    decreases verdicts.len(),
{
    if verdicts.len() == 0 {
        (state, Seq::empty())
    } else {
        let before = registrations_completed_in_turn(state, user, verdicts.drop_last());
        let last = registration_completed(before.0, user, verdicts.last());
        (last.0, before.1.push(last.1))
    }
}

/// However many completions of one pending registration are run, in whatever
/// order they come to be served one after the other, the one served first
/// decides: if the engine accepts the response, it succeeds and enrolls the
/// user, and every other one fails with `NoPendingRegistration`.
pub proof fn lemma_one_of_many_completions_succeeds(
    state: PartyState,
    user: u128,
    verdicts: Seq<RegistrationVerdict>,
)
    requires
        state.registrations.contains_key(user),
        verdicts.len() >= 1,
        verdicts[0] is Ok,
    ensures
        ({
            let run = registrations_completed_in_turn(state, user, verdicts);
            &&& run.1.len() == verdicts.len()
            &&& run.1[0] is Ok
            &&& forall|i: int|
                1 <= i < verdicts.len() ==> #[trigger] run.1[i] == Err::<(), CeremonyError>(
                    CeremonyError::NoPendingRegistration,
                )
            &&& run.0 == registration_completed(state, user, verdicts[0]).0
            &&& run.0.credentials.contains_key(user)
            &&& !run.0.registrations.contains_key(user)
        }),
    decreases verdicts.len(),
{
    if verdicts.len() == 1 {
        assert(verdicts.drop_last().len() == 0);
        assert(registrations_completed_in_turn(state, user, verdicts.drop_last()) == (
            state,
            Seq::<Result<(), CeremonyError>>::empty(),
        ));
        assert(verdicts.last() == verdicts[0]);
    } else {
        lemma_one_of_many_completions_succeeds(state, user, verdicts.drop_last());
        assert(verdicts.drop_last()[0] == verdicts[0]);
    }
}

/// Every operation leaves a well-formed state well formed, whatever the
/// engine answers: an authentication is pending only for an enrolled user.
pub proof fn lemma_operations_keep_well_formedness(
    state: PartyState,
    user: u128,
    issued_registration: IssuedRegistration,
    registration: RegistrationVerdict,
    issued_authentication: IssuedAuthentication,
    assertion: AssertionVerdict,
)
    requires
        state.well_formed(),
    ensures
        PartyState::empty().well_formed(),
        registration_begun(state, user, issued_registration).0.well_formed(),
        registration_settled(state, user, registration).0.well_formed(),
        registration_completed(state, user, registration).0.well_formed(),
        authentication_begun(state, user, issued_authentication).0.well_formed(),
        authentication_settled(state, user, assertion).0.well_formed(),
        authentication_completed(state, user, assertion).0.well_formed(),
{
}

/// Credentials are made by completed registrations and by nothing else, and
/// are never taken away: beginning a ceremony leaves every record as it was,
/// and completing an authentication keeps the set of enrolled users.
pub proof fn lemma_only_registration_enrolls(
    state: PartyState,
    user: u128,
    issued_registration: IssuedRegistration,
    registration: RegistrationVerdict,
    issued_authentication: IssuedAuthentication,
    assertion: AssertionVerdict,
)
    ensures
        registration_begun(state, user, issued_registration).0.credentials == state.credentials,
        authentication_begun(state, user, issued_authentication).0.credentials
            == state.credentials,
        authentication_completed(state, user, assertion).0.credentials.dom()
            =~= state.credentials.dom(),
        registration_completed(state, user, registration).0.credentials.dom().subset_of(
            state.credentials.dom().insert(user),
        ),
        state.credentials.dom().subset_of(
            registration_completed(state, user, registration).0.credentials.dom(),
        ),
        registration_completed(state, user, registration).1 is Err ==> registration_completed(
            state,
            user,
            registration,
        ).0.credentials == state.credentials,
{
}

} // verus!
