//! The ceremony state store.
//!
//! Between the two halves of a ceremony the engine's state for it is kept
//! here, in one slot per user and kind of ceremony. A slot is filled when the
//! ceremony begins and emptied, in one step with reading it, when the ceremony
//! is completed.

use crate::identity::UserId;
use std::collections::HashMap;
use vstd::prelude::*;
use vstd::std_specs::hash::*;
use webauthn_rs::prelude::{PasskeyAuthentication, PasskeyRegistration};

verus! {

broadcast use vstd::std_specs::hash::group_hash_axioms;

/// The pending registrations and the pending authentications, each by the
/// 128 bits of the user's identity.
pub struct CeremonyStore {
    registrations: HashMap<u128, PasskeyRegistration>,
    authentications: HashMap<u128, PasskeyAuthentication>,
}

impl CeremonyStore {
    /// The pending registrations.
    pub closed spec fn registrations(&self) -> Map<u128, PasskeyRegistration> {
        self.registrations@
    }

    /// The pending authentications.
    pub closed spec fn authentications(&self) -> Map<u128, PasskeyAuthentication> {
        self.authentications@
    }

    /// A store with no ceremony in flight.
    pub fn new() -> (store: CeremonyStore)
        ensures
            store.registrations() == Map::<u128, PasskeyRegistration>::empty(),
            store.authentications() == Map::<u128, PasskeyAuthentication>::empty(),
    {
        CeremonyStore { registrations: HashMap::new(), authentications: HashMap::new() }
    }

    /// Keeps `state` as the pending registration of `user`, in place of any
    /// that was pending.
    pub fn put_pending_registration(&mut self, user: UserId, state: PasskeyRegistration)
        ensures
            final(self).registrations() == old(self).registrations().insert(user.0, state),
            final(self).authentications() == old(self).authentications(),
    {
        self.registrations.insert(user.0, state);
    }

    /// Removes the pending registration of `user` and returns it. `None`
    /// says that none was pending, and then nothing has changed.
    pub fn take_pending_registration(&mut self, user: UserId) -> (state: Option<
        PasskeyRegistration,
    >)
        ensures
            state == if old(self).registrations().contains_key(user.0) {
                Some(old(self).registrations()[user.0])
            } else {
                None
            },
            final(self).registrations() == old(self).registrations().remove(user.0),
            final(self).authentications() == old(self).authentications(),
    {
        self.registrations.remove(&user.0)
    }

    /// Whether a registration is pending for `user`.
    pub fn has_pending_registration(&self, user: UserId) -> (pending: bool)
        ensures
            pending == self.registrations().contains_key(user.0),
    {
        self.registrations.contains_key(&user.0)
    }

    /// Keeps `state` as the pending authentication of `user`, in place of any
    /// that was pending: of two challenges issued to one user, only the later
    /// can be answered.
    pub fn put_pending_authentication(&mut self, user: UserId, state: PasskeyAuthentication)
        ensures
            final(self).authentications() == old(self).authentications().insert(user.0, state),
            final(self).registrations() == old(self).registrations(),
    {
        self.authentications.insert(user.0, state);
    }

    /// Removes the pending authentication of `user` and returns it. `None`
    /// says that none was pending, and then nothing has changed.
    pub fn take_pending_authentication(&mut self, user: UserId) -> (state: Option<
        PasskeyAuthentication,
    >)
        ensures
            state == if old(self).authentications().contains_key(user.0) {
                Some(old(self).authentications()[user.0])
            } else {
                None
            },
            final(self).authentications() == old(self).authentications().remove(user.0),
            final(self).registrations() == old(self).registrations(),
    {
        self.authentications.remove(&user.0)
    }

    /// Whether an authentication is pending for `user`.
    pub fn has_pending_authentication(&self, user: UserId) -> (pending: bool)
        ensures
            pending == self.authentications().contains_key(user.0),
    {
        self.authentications.contains_key(&user.0)
    }

    /// The number of pending registrations.
    pub fn pending_registrations(&self) -> (n: usize)
        ensures
            n == self.registrations().len(),
    {
        self.registrations.len()
    }

    /// The number of pending authentications.
    pub fn pending_authentications(&self) -> (n: usize)
        ensures
            n == self.authentications().len(),
    {
        self.authentications.len()
    }
}

} // verus!
