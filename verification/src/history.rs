//! What holds of every state that a relying party can be in.
//!
//! A relying party starts empty and changes only by its four operations. A
//! history is the sequence of operations served so far, each with what the
//! engine answered to it; the state reached is a function of the history.
//! The invariants below are proved for every history, and so hold at every
//! moment of the life of a [`crate::party::RelyingParty`].

use crate::engine::{AssertionVerdict, IssuedAuthentication, IssuedRegistration, RegistrationVerdict};
use crate::model::{
    authentication_begun, authentication_completed, registration_begun, registration_completed,
    PartyState,
};
use vstd::prelude::*;

verus! {

/// One operation served, with the engine's answer to it.
#[allow(inconsistent_fields)]
pub enum Event {
    /// A registration was begun for the newly minted identity `user`.
    RegistrationBegun { user: u128, issued: IssuedRegistration },
    /// The registration of `user` was to be completed.
    RegistrationCompleted { user: u128, verdict: RegistrationVerdict },
    /// An authentication of `user` was to be begun.
    AuthenticationBegun { user: u128, issued: IssuedAuthentication },
    /// The authentication of `user` was to be completed.
    AuthenticationCompleted { user: u128, verdict: AssertionVerdict },
}

impl Event {
    /// The user whom the operation was about.
    pub open spec fn user(self) -> u128 {
        match self {
            Event::RegistrationBegun { user, .. } => user,
            Event::RegistrationCompleted { user, .. } => user,
            Event::AuthenticationBegun { user, .. } => user,
            Event::AuthenticationCompleted { user, .. } => user,
        }
    }

    /// The state after the operation was served in `state`.
    pub open spec fn applied(self, state: PartyState) -> PartyState {
        match self {
            Event::RegistrationBegun { user, issued } => registration_begun(state, user, issued).0,
            Event::RegistrationCompleted { user, verdict } => registration_completed(
                state,
                user,
                verdict,
            ).0,
            Event::AuthenticationBegun { user, issued } => authentication_begun(
                state,
                user,
                issued,
            ).0,
            Event::AuthenticationCompleted { user, verdict } => authentication_completed(
                state,
                user,
                verdict,
            ).0,
        }
    }

    /// Whether the operation, served in `state`, returned success.
    pub open spec fn succeeds(self, state: PartyState) -> bool {
        match self {
            Event::RegistrationBegun { user, issued } => registration_begun(
                state,
                user,
                issued,
            ).1 is Ok,
            Event::RegistrationCompleted { user, verdict } => registration_completed(
                state,
                user,
                verdict,
            ).1 is Ok,
            Event::AuthenticationBegun { user, issued } => authentication_begun(
                state,
                user,
                issued,
            ).1 is Ok,
            Event::AuthenticationCompleted { user, verdict } => authentication_completed(
                state,
                user,
                verdict,
            ).1 is Ok,
        }
    }
}

/// The state that a relying party is in after the operations of `history`.
pub open spec fn reached(history: Seq<Event>) -> PartyState
    decreases history.len(),
{
    if history.len() == 0 {
        PartyState::empty()
    } else {
        history.last().applied(reached(history.drop_last()))
    }
}

/// Whether the `i`-th operation of `history` returned success.
pub open spec fn succeeded_at(history: Seq<Event>, i: int) -> bool {
    history[i].succeeds(reached(history.take(i)))
}

/// The `i`-th operation of `history` completed a registration of `user`
/// successfully.
pub open spec fn enrolls(history: Seq<Event>, user: u128, i: int) -> bool {
    &&& 0 <= i < history.len()
    &&& history[i] is RegistrationCompleted
    &&& history[i].user() == user
    &&& succeeded_at(history, i)
}

/// The `i`-th operation of `history` began a registration of `user`
/// successfully, and no later one was to complete a registration of `user`.
pub open spec fn leaves_registration_open(history: Seq<Event>, user: u128, i: int) -> bool {
    &&& 0 <= i < history.len()
    &&& history[i] is RegistrationBegun
    &&& history[i].user() == user
    &&& succeeded_at(history, i)
    &&& forall|j: int|
        i < j < history.len() ==> !(#[trigger] history[j] is RegistrationCompleted
            && history[j].user() == user)
}

/// The `i`-th operation of `history` began an authentication of `user`
/// successfully, and no later one was to complete an authentication of
/// `user`.
pub open spec fn leaves_authentication_open(history: Seq<Event>, user: u128, i: int) -> bool {
    &&& 0 <= i < history.len()
    &&& history[i] is AuthenticationBegun
    &&& history[i].user() == user
    &&& succeeded_at(history, i)
    &&& forall|j: int|
        i < j < history.len() ==> !(#[trigger] history[j] is AuthenticationCompleted
            && history[j].user() == user)
}

/// Serving one more operation: the earlier operations succeed or fail as
/// they did, and the new one is served in the state reached before it.
proof fn lemma_history_extends(history: Seq<Event>)
    requires
        history.len() > 0,
    ensures
        reached(history) == history.last().applied(reached(history.drop_last())),
        succeeded_at(history, history.len() - 1) == history.last().succeeds(
            reached(history.drop_last()),
        ),
        forall|i: int|
            0 <= i < history.len() - 1 ==> #[trigger] succeeded_at(history, i) == succeeded_at(
                history.drop_last(),
                i,
            ),
{
    let earlier = history.drop_last();
    assert(history.take(history.len() - 1) =~= earlier);
    assert forall|i: int| 0 <= i < history.len() - 1 implies #[trigger] succeeded_at(history, i)
        == succeeded_at(earlier, i) by {
        assert(history.take(i) =~= earlier.take(i));
    }
}

/// Every state that a relying party reaches is well formed: an authentication
/// is pending only for an enrolled user.
pub proof fn lemma_reached_states_are_well_formed(history: Seq<Event>)
    ensures
        reached(history).well_formed(),
    decreases history.len(),
{
    if history.len() > 0 {
        lemma_reached_states_are_well_formed(history.drop_last());
    }
}

/// A user has a credential record exactly if a registration of that user has
/// been completed successfully at least once.
pub proof fn lemma_enrolled_iff_registration_completed(history: Seq<Event>, user: u128)
    ensures
        reached(history).credentials.contains_key(user) <==> exists|i: int|
            enrolls(history, user, i),
    decreases history.len(),
{
    if history.len() > 0 {
        let earlier = history.drop_last();
        let last = history.len() - 1;
        lemma_enrolled_iff_registration_completed(earlier, user);
        lemma_history_extends(history);
        if reached(history).credentials.contains_key(user) {
            if reached(earlier).credentials.contains_key(user) {
                let i = choose|i: int| enrolls(earlier, user, i);
                assert(enrolls(history, user, i));
            } else {
                assert(enrolls(history, user, last));
            }
        }
        if exists|i: int| enrolls(history, user, i) {
            let i = choose|i: int| enrolls(history, user, i);
            if i < last {
                assert(enrolls(earlier, user, i));
            }
        }
    }
}

/// A registration is pending for a user exactly between a successful
/// beginning of a registration for that user and the next attempt to
/// complete one, whether that attempt succeeds or fails.
pub proof fn lemma_registration_pending_iff_open(history: Seq<Event>, user: u128)
    ensures
        reached(history).registrations.contains_key(user) <==> exists|i: int|
            leaves_registration_open(history, user, i),
    decreases history.len(),
{
    if history.len() > 0 {
        let earlier = history.drop_last();
        let last = history.len() - 1;
        lemma_registration_pending_iff_open(earlier, user);
        lemma_history_extends(history);
        if reached(history).registrations.contains_key(user) {
            if history.last() is RegistrationBegun && history.last().user() == user
                && succeeded_at(history, last) {
                assert(leaves_registration_open(history, user, last));
            } else {
                assert(reached(earlier).registrations.contains_key(user));
                let i = choose|i: int| leaves_registration_open(earlier, user, i);
                assert forall|j: int| i < j < history.len() implies !(#[trigger] history[j]
                    is RegistrationCompleted && history[j].user() == user) by {
                    if j < last {
                        assert(history[j] == earlier[j]);
                    }
                }
                assert(leaves_registration_open(history, user, i));
            }
        }
        if exists|i: int| leaves_registration_open(history, user, i) {
            let i = choose|i: int| leaves_registration_open(history, user, i);
            if i < last {
                assert(!(history[last] is RegistrationCompleted && history[last].user() == user));
                assert forall|j: int| i < j < earlier.len() implies !(#[trigger] earlier[j]
                    is RegistrationCompleted && earlier[j].user() == user) by {
                    assert(earlier[j] == history[j]);
                }
                assert(leaves_registration_open(earlier, user, i));
            }
        }
    }
}

/// An authentication is pending for a user exactly between a successful
/// beginning of an authentication of that user and the next attempt to
/// complete one, whether that attempt succeeds or fails.
pub proof fn lemma_authentication_pending_iff_open(history: Seq<Event>, user: u128)
    ensures
        reached(history).authentications.contains_key(user) <==> exists|i: int|
            leaves_authentication_open(history, user, i),
    decreases history.len(),
{
    if history.len() > 0 {
        let earlier = history.drop_last();
        let last = history.len() - 1;
        lemma_authentication_pending_iff_open(earlier, user);
        lemma_history_extends(history);
        if reached(history).authentications.contains_key(user) {
            if history.last() is AuthenticationBegun && history.last().user() == user
                && succeeded_at(history, last) {
                assert(leaves_authentication_open(history, user, last));
            } else {
                assert(reached(earlier).authentications.contains_key(user));
                let i = choose|i: int| leaves_authentication_open(earlier, user, i);
                assert forall|j: int| i < j < history.len() implies !(#[trigger] history[j]
                    is AuthenticationCompleted && history[j].user() == user) by {
                    if j < last {
                        assert(history[j] == earlier[j]);
                    }
                }
                assert(leaves_authentication_open(history, user, i));
            }
        }
        if exists|i: int| leaves_authentication_open(history, user, i) {
            let i = choose|i: int| leaves_authentication_open(history, user, i);
            if i < last {
                assert(!(history[last] is AuthenticationCompleted && history[last].user() == user));
                assert forall|j: int| i < j < earlier.len() implies !(#[trigger] earlier[j]
                    is AuthenticationCompleted && earlier[j].user() == user) by {
                    assert(earlier[j] == history[j]);
                }
                assert(leaves_authentication_open(earlier, user, i));
            }
        }
    }
}

/// The stored signature counter of a user never decreases as long as the
/// user keeps the credential: an operation that is not a successful
/// registration of the user leaves the counter where it was or moves it up.
pub proof fn lemma_counter_only_grows(state: PartyState, event: Event, user: u128)
    requires
        state.credentials.contains_key(user),
        !(event is RegistrationCompleted && event.user() == user && event.succeeds(state)),
    ensures
        event.applied(state).credentials.contains_key(user),
        event.applied(state).credentials[user].counter >= state.credentials[user].counter,
        event.applied(state).credentials[user].counter > state.credentials[user].counter
            <==> event is AuthenticationCompleted && event.user() == user && event.succeeds(
            state,
        ),
{
}

} // verus!
