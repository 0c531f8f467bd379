//! What a ceremony reports when it does not succeed.
//!
//! Every failure of a request is a value: a variant of [`CeremonyError`], from
//! which a machine-readable code and a message for the client are derived.
//! None of them ends the process.

use crate::engine::{describe_error, error_text};
use vstd::prelude::*;
use vstd::string::*;
use webauthn_rs::prelude::WebauthnError;

verus! {

/// Why a ceremony operation failed.
#[derive(Debug)]
pub enum CeremonyError {
    /// The text that the client sent as its identity is not an identity.
    MalformedIdentity,
    /// The engine would not open the ceremony for what the client sent, such
    /// as an empty user name.
    Rejected(WebauthnError),
    /// A registration was to be completed for a user who has none pending:
    /// it was never begun, or it has been completed already.
    NoPendingRegistration,
    /// An authentication was to be completed for a user who has none pending.
    NoPendingAuthentication,
    /// The user has no enrolled credential. The same answer is given whether
    /// or not the identity was ever handed out.
    NotEnrolled,
    /// The engine did not accept the client's response.
    VerificationFailed(WebauthnError),
    /// The assertion verified, but its signature counter does not exceed the
    /// stored one: the authenticator may have been cloned.
    CounterRegression { stored: u32, reported: u32 },
}

/// The classes of failure that a caller may want to tell apart.
#[derive(Clone, Copy, Debug, PartialEq, Eq, Structural)]
pub enum ErrorKind {
    /// The client asked for a ceremony with unusable details.
    Client,
    /// A ceremony was to be completed that is not in flight.
    Protocol,
    /// No credential is enrolled for the user.
    Lookup,
    /// The client's response did not pass verification.
    Verification,
}

/// What is sent to the client about a failure.
#[derive(Debug)]
pub struct Failure {
    /// A stable, machine-readable code.
    pub code: String,
    /// A sentence for a human reader.
    pub message: String,
}

/// The result of a ceremony operation as a client sees it: a success flag
/// and, on failure, the descriptor of the error.
#[derive(Debug)]
pub struct Outcome {
    pub success: bool,
    pub err: Option<Failure>,
}

impl CeremonyError {
    /// The class of the failure.
    pub open spec fn kind_of(self) -> ErrorKind {
        match self {
            CeremonyError::MalformedIdentity => ErrorKind::Client,
            CeremonyError::Rejected(_) => ErrorKind::Client,
            CeremonyError::NoPendingRegistration => ErrorKind::Protocol,
            CeremonyError::NoPendingAuthentication => ErrorKind::Protocol,
            CeremonyError::NotEnrolled => ErrorKind::Lookup,
            CeremonyError::VerificationFailed(_) => ErrorKind::Verification,
            CeremonyError::CounterRegression { .. } => ErrorKind::Verification,
        }
    }

    /// The machine-readable code of the failure.
    pub open spec fn code_of(self) -> Seq<char> {
        match self {
            CeremonyError::MalformedIdentity => "malformed_identity"@,
            CeremonyError::Rejected(_) => "rejected"@,
            CeremonyError::NoPendingRegistration => "no_pending_registration"@,
            CeremonyError::NoPendingAuthentication => "no_pending_authentication"@,
            CeremonyError::NotEnrolled => "not_enrolled"@,
            CeremonyError::VerificationFailed(_) => "verification_failed"@,
            CeremonyError::CounterRegression { .. } => "counter_regression"@,
        }
    }

    /// The message of the failure. Where the engine refused, the message is
    /// the engine's; elsewhere it is fixed for the variant, so that it tells
    /// nothing of the state of any user.
    pub open spec fn message_of(self) -> Seq<char> {
        match self {
            CeremonyError::MalformedIdentity => "the user identity is malformed"@,
            CeremonyError::Rejected(e) => error_text(e),
            CeremonyError::NoPendingRegistration => "no registration is pending for this user"@,
            CeremonyError::NoPendingAuthentication => "no authentication is pending for this user"@,
            CeremonyError::NotEnrolled => "the ceremony cannot proceed"@,
            CeremonyError::VerificationFailed(e) => error_text(e),
            CeremonyError::CounterRegression { .. } => "the signature counter did not advance"@,
        }
    }

    /// The class of the failure.
    pub fn kind(&self) -> (kind: ErrorKind)
        ensures
            kind == self.kind_of(),
    {
        match self {
            CeremonyError::MalformedIdentity => ErrorKind::Client,
            CeremonyError::Rejected(_) => ErrorKind::Client,
            CeremonyError::NoPendingRegistration => ErrorKind::Protocol,
            CeremonyError::NoPendingAuthentication => ErrorKind::Protocol,
            CeremonyError::NotEnrolled => ErrorKind::Lookup,
            CeremonyError::VerificationFailed(_) => ErrorKind::Verification,
            CeremonyError::CounterRegression { .. } => ErrorKind::Verification,
        }
    }

    /// The machine-readable code of the failure.
    pub fn code(&self) -> (code: &'static str)
        ensures
            code@ == self.code_of(),
    {
        match self {
            CeremonyError::MalformedIdentity => "malformed_identity",
            CeremonyError::Rejected(_) => "rejected",
            CeremonyError::NoPendingRegistration => "no_pending_registration",
            CeremonyError::NoPendingAuthentication => "no_pending_authentication",
            CeremonyError::NotEnrolled => "not_enrolled",
            CeremonyError::VerificationFailed(_) => "verification_failed",
            CeremonyError::CounterRegression { .. } => "counter_regression",
        }
    }

    /// The message of the failure.
    pub fn message(&self) -> (message: String)
        ensures
            message@ == self.message_of(),
    {
        match self {
            CeremonyError::MalformedIdentity => "the user identity is malformed".to_owned(),
            CeremonyError::Rejected(e) => describe_error(e),
            CeremonyError::NoPendingRegistration => {
                "no registration is pending for this user".to_owned()
            },
            CeremonyError::NoPendingAuthentication => {
                "no authentication is pending for this user".to_owned()
            },
            CeremonyError::NotEnrolled => "the ceremony cannot proceed".to_owned(),
            CeremonyError::VerificationFailed(e) => describe_error(e),
            CeremonyError::CounterRegression { .. } => {
                "the signature counter did not advance".to_owned()
            },
        }
    }

    /// The descriptor that is sent to the client.
    pub fn describe(&self) -> (failure: Failure)
        ensures
            failure.code@ == self.code_of(),
            failure.message@ == self.message_of(),
    {
        Failure { code: self.code().to_owned(), message: self.message() }
    }
}

impl Outcome {
    /// The outcome of a completed operation: success without a descriptor, or
    /// failure with the descriptor of its error.
    pub fn of(result: &Result<(), CeremonyError>) -> (outcome: Outcome)
        ensures
            outcome.success == (result is Ok),
            outcome.err is Some == (result is Err),
            result matches Err(e) ==> outcome.err->0.code@ == e.code_of()
                && outcome.err->0.message@ == e.message_of(),
    {
        match result {
            Ok(_) => Outcome { success: true, err: None },
            Err(e) => Outcome { success: false, err: Some(e.describe()) },
        }
    }
}

} // verus!
