//! The identity and credential store.
//!
//! A user has at most one enrolled credential. A record is created when a
//! registration completes and afterwards changes only when an assertion is
//! accepted, which moves its signature counter strictly upwards.

use crate::engine::{assertion_counter, refresh_passkey, refreshed_passkey, reported_counter};
use crate::error::CeremonyError;
use crate::identity::UserId;
use std::collections::HashMap;
use vstd::prelude::*;
use vstd::std_specs::hash::*;
use webauthn_rs::prelude::{AuthenticationResult, Passkey};

verus! {

broadcast use vstd::std_specs::hash::group_hash_axioms;

/// The enrolled credential of one user.
#[derive(Debug)]
pub struct CredentialRecord {
    /// The credential as the engine knows it: its identifier and its public
    /// key. Only the engine reads it.
    pub passkey: Passkey,
    /// The signature counter of the last assertion that was accepted, and
    /// zero as long as none has been.
    pub counter: u32,
}

/// The records of a store, by the 128 bits of the user's identity.
pub type Records = Map<u128, CredentialRecord>;

/// The records after an attempt to move the counter of `user` to `reported`,
/// with what the attempt reports. The counter moves only strictly upwards;
/// any other attempt is an error and changes nothing.
pub open spec fn counter_update(records: Records, user: u128, reported: u32) -> (
    Records,
    Result<(), CeremonyError>,
) {
    if !records.contains_key(user) {
        (records, Err(CeremonyError::NotEnrolled))
    } else if reported <= records[user].counter {
        (
            records,
            Err(CeremonyError::CounterRegression { stored: records[user].counter, reported }),
        )
    } else {
        (
            records.insert(
                user,
                CredentialRecord { passkey: records[user].passkey, counter: reported },
            ),
            Ok(()),
        )
    }
}

/// The records after an accepted assertion has been applied to the credential
/// of `user`: the counter moves as in [`counter_update`], and with it the
/// engine's passkey takes in the assertion.
pub open spec fn assertion_applied(records: Records, user: u128, result: AuthenticationResult) -> (
    Records,
    Result<(), CeremonyError>,
) {
    match counter_update(records, user, reported_counter(result)).1 {
        Ok(_) => (
            records.insert(
                user,
                CredentialRecord {
                    passkey: refreshed_passkey(records[user].passkey, result),
                    counter: reported_counter(result),
                },
            ),
            Ok(()),
        ),
        Err(e) => (records, Err(e)),
    }
}

impl CredentialRecord {
    /// The record of a credential that has just been enrolled.
    pub fn enrolled(passkey: Passkey) -> (record: CredentialRecord)
        ensures
            record == (CredentialRecord { passkey, counter: 0 }),
    {
        CredentialRecord { passkey, counter: 0 }
    }

    /// The stored signature counter.
    pub fn counter(&self) -> (counter: u32)
        ensures
            counter == self.counter,
    {
        self.counter
    }

    /// The credential as the engine knows it.
    pub fn passkey(&self) -> (passkey: &Passkey)
        ensures
            *passkey == self.passkey,
    {
        &self.passkey
    }
}

/// The credential records of all enrolled users.
pub struct CredentialStore {
    records: HashMap<u128, CredentialRecord>,
}

impl View for CredentialStore {
    type V = Records;

    closed spec fn view(&self) -> Records {
        self.records@
    }
}

impl CredentialStore {
    /// A store without records.
    pub fn new() -> (store: CredentialStore)
        ensures
            store@ == Records::empty(),
    {
        CredentialStore { records: HashMap::new() }
    }

    /// Inserts the record of `user`, in place of any that was there.
    pub fn put(&mut self, user: UserId, record: CredentialRecord)
        ensures
            final(self)@ == old(self)@.insert(user.0, record),
    {
        self.records.insert(user.0, record);
    }

    /// The record of `user`, if there is one. That there is none is an
    /// ordinary answer.
    pub fn get(&self, user: UserId) -> (record: Option<&CredentialRecord>)
        ensures
            match record {
                Some(r) => self@.contains_key(user.0) && *r == self@[user.0],
                None => !self@.contains_key(user.0),
            },
    {
        self.records.get(&user.0)
    }

    /// Whether `user` has a record.
    pub fn contains(&self, user: UserId) -> (enrolled: bool)
        ensures
            enrolled == self@.contains_key(user.0),
    {
        self.records.contains_key(&user.0)
    }

    /// The number of records.
    pub fn len(&self) -> (n: usize)
        ensures
            n == self@.len(),
    {
        self.records.len()
    }

    /// Moves the signature counter of `user` to `reported`, which must exceed
    /// the stored counter. A counter that does not advance is reported as
    /// [`CeremonyError::CounterRegression`], a missing record as
    /// [`CeremonyError::NotEnrolled`]; either way the store is left as it was.
    pub fn update_counter(&mut self, user: UserId, reported: u32) -> (result: Result<
        (),
        CeremonyError,
    >)
        ensures
            (final(self)@, result) == counter_update(old(self)@, user.0, reported),
    {
        let stored: u32 = match self.records.get(&user.0) {
            Some(record) => record.counter,
            None => {
                return Err(CeremonyError::NotEnrolled);
            },
        };
        if reported <= stored {
            return Err(CeremonyError::CounterRegression { stored, reported });
        }
        match self.records.remove(&user.0) {
            Some(record) => {
                self.records.insert(
                    user.0,
                    CredentialRecord { passkey: record.passkey, counter: reported },
                );
                assert(self.records@ =~= old(self)@.insert(
                    user.0,
                    CredentialRecord { passkey: old(self)@[user.0].passkey, counter: reported },
                ));
                Ok(())
            },
            None => Err(CeremonyError::NotEnrolled),
        }
    }

    /// Applies an accepted assertion to the credential of `user`: the counter
    /// moves to the reported one under the rule of
    /// [`CredentialStore::update_counter`], and the engine's passkey takes in
    /// the assertion. On an error the store is left as it was.
    pub fn apply_assertion(&mut self, user: UserId, assertion: &AuthenticationResult) -> (result:
        Result<(), CeremonyError>)
        ensures
            (final(self)@, result) == assertion_applied(old(self)@, user.0, *assertion),
    {
        let reported: u32 = assertion_counter(assertion);
        match self.update_counter(user, reported) {
            Err(e) => Err(e),
            Ok(_) => {
                match self.records.remove(&user.0) {
                    Some(record) => {
                        let mut passkey = record.passkey;
                        refresh_passkey(&mut passkey, assertion);
                        self.records.insert(
                            user.0,
                            CredentialRecord { passkey, counter: record.counter },
                        );
                        assert(self.records@ =~= assertion_applied(
                            old(self)@,
                            user.0,
                            *assertion,
                        ).0);
                        Ok(())
                    },
                    None => Err(CeremonyError::NotEnrolled),
                }
            },
        }
    }
}

} // verus!
