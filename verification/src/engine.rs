//! The boundary to `webauthn_rs`, the cryptographic engine.
//!
//! All that the crate believes without proof stands in this module: the
//! declarations of the outside types, the names given to what some outside
//! functions return, and one small function per outside call. The rest of the
//! crate is verified against the contracts written here.

use crate::identity::text_of_identity;
use vstd::prelude::*;
use webauthn_rs::prelude::{
    AuthenticationResult, CreationChallengeResponse, Passkey, PasskeyAuthentication,
    PasskeyRegistration, PublicKeyCredential, RegisterPublicKeyCredential,
    RequestChallengeResponse, Url, Uuid, Webauthn, WebauthnBuilder, WebauthnError,
};

verus! {

#[verifier::external_type_specification]
#[verifier::external_body]
pub struct ExWebauthn(Webauthn);

#[verifier::external_type_specification]
#[verifier::external_body]
pub struct ExWebauthnError(WebauthnError);

#[verifier::external_type_specification]
#[verifier::external_body]
pub struct ExUrl(Url);

#[verifier::external_type_specification]
#[verifier::external_body]
pub struct ExPasskey(Passkey);

#[verifier::external_type_specification]
#[verifier::external_body]
pub struct ExPasskeyRegistration(PasskeyRegistration);

#[verifier::external_type_specification]
#[verifier::external_body]
pub struct ExPasskeyAuthentication(PasskeyAuthentication);

#[verifier::external_type_specification]
#[verifier::external_body]
pub struct ExCreationChallengeResponse(CreationChallengeResponse);

#[verifier::external_type_specification]
#[verifier::external_body]
pub struct ExRequestChallengeResponse(RequestChallengeResponse);

#[verifier::external_type_specification]
#[verifier::external_body]
pub struct ExRegisterPublicKeyCredential(RegisterPublicKeyCredential);

#[verifier::external_type_specification]
#[verifier::external_body]
pub struct ExPublicKeyCredential(PublicKeyCredential);

#[verifier::external_type_specification]
#[verifier::external_body]
pub struct ExAuthenticationResult(AuthenticationResult);

/// What the engine hands out when it opens a registration ceremony: the public
/// challenge for the client and the state to keep on the server.
pub type IssuedRegistration = Result<
    (CreationChallengeResponse, PasskeyRegistration),
    WebauthnError,
>;

/// What the engine hands out when it opens an authentication ceremony.
pub type IssuedAuthentication = Result<
    (RequestChallengeResponse, PasskeyAuthentication),
    WebauthnError,
>;

/// The engine's verdict on a registration response.
pub type RegistrationVerdict = Result<Passkey, WebauthnError>;

/// The engine's verdict on an authentication response.
pub type AssertionVerdict = Result<AuthenticationResult, WebauthnError>;

/// Why an engine could not be configured.
#[derive(Debug)]
pub enum ConfigError {
    /// The origin is not a URL.
    MalformedOrigin,
    /// The engine refused the pair of relying party id and origin.
    Refused(WebauthnError),
}

/// A configured cryptographic engine, bound to one relying party id and one
/// origin for its whole life.
///
/// The only way to an `Engine` is [`Engine::configure`], which leaves every
/// setting but the id and the origin at the engine's default. In particular
/// the ceremony timeout stays at five minutes, which the engine can always
/// write into the 32-bit field of a challenge.
#[derive(Debug)]
pub struct Engine {
    core: Webauthn,
}

/// The signature counter that an accepted assertion carried.
pub uninterp spec fn reported_counter(result: AuthenticationResult) -> u32;

/// The passkey as it stands after the engine has applied an accepted
/// assertion to it.
pub uninterp spec fn refreshed_passkey(passkey: Passkey, result: AuthenticationResult) -> Passkey;

/// The engine's own wording of one of its errors.
pub uninterp spec fn error_text(error: WebauthnError) -> Seq<char>;

/// The 128 bits that a text denotes as a UUID, if it denotes one.
pub uninterp spec fn identity_of_text(text: Seq<char>) -> Option<u128>;

/// The URL that a text denotes, if it denotes one.
pub uninterp spec fn origin_of_text(text: Seq<char>) -> Option<Url>;

/// What the engine's builder makes of a relying party id and an origin when
/// every other setting is left at its default: an engine, or its refusal of
/// the pair.
pub uninterp spec fn built_engine(rp_id: Seq<char>, origin: Url) -> Result<Webauthn, WebauthnError>;

/// The credential that the engine enrolls when it verifies a registration
/// response against the pending state of the ceremony, if it accepts the
/// response.
pub uninterp spec fn accepted_credential(
    engine: Webauthn,
    response: RegisterPublicKeyCredential,
    pending: PasskeyRegistration,
) -> Option<Passkey>;

/// What the engine reports of an assertion when it verifies an authentication
/// response against the pending state of the ceremony, if it accepts the
/// response.
pub uninterp spec fn accepted_assertion(
    engine: Webauthn,
    response: PublicKeyCredential,
    pending: PasskeyAuthentication,
) -> Option<AuthenticationResult>;

/// A verdict bears out what was to be accepted: it is `Ok` of the accepted
/// value where there is one, and an error, whichever, where there is none.
pub open spec fn bears_out<T>(verdict: Result<T, WebauthnError>, accepted: Option<T>) -> bool {
    match verdict {
        Ok(value) => accepted == Some(value),
        Err(_) => accepted is None,
    }
}

/// What configuring an engine for `rp_id` at `rp_origin` comes to: the origin
/// must be a URL, and the engine's builder must accept the pair.
pub open spec fn configuration(rp_id: Seq<char>, rp_origin: Seq<char>) -> Result<
    Webauthn,
    ConfigError,
> {
    match origin_of_text(rp_origin) {
        None => Err(ConfigError::MalformedOrigin),
        Some(origin) => match built_engine(rp_id, origin) {
            Ok(core) => Ok(core),
            Err(e) => Err(ConfigError::Refused(e)),
        },
    }
}

/// Calls `Url::parse`. The contract only gives the outcome its name.
#[verifier::external_body]
fn parse_origin(text: &str) -> (origin: Option<Url>)
    ensures
        origin == origin_of_text(text@),
{
    Url::parse(text).ok()
}

/// Calls `WebauthnBuilder::new` and, on the builder it returns, `build`, with
/// no setting made in between. Which pairs of id and origin the engine
/// accepts takes pages to say, so the contract only gives the outcome its
/// name.
#[verifier::external_body]
fn build_core(rp_id: &str, origin: &Url) -> (built: Result<Webauthn, WebauthnError>)
    ensures
        built == built_engine(rp_id@, *origin),
{
    match WebauthnBuilder::new(rp_id, origin) {
        Ok(builder) => builder.build(),
        Err(e) => Err(e),
    }
}

/// Calls `Uuid::new_v4` and hands out the 128 bits of the random identifier.
/// The value is random: nothing is claimed of it.
#[verifier::external_body]
pub(crate) fn random_identity() -> (value: u128) {
    Uuid::new_v4().as_u128()
}

/// Calls `Uuid::parse_str`. The contract only gives the outcome its name.
#[verifier::external_body]
pub(crate) fn parse_identity(text: &str) -> (value: Option<u128>)
    ensures
        value == identity_of_text(text@),
{
    match Uuid::parse_str(text) {
        Ok(id) => Some(id.as_u128()),
        Err(_) => None,
    }
}

/// Formats `Uuid::from_u128(value)` with its `Display`, which writes the
/// hyphenated lower-case form. Besides stating that form, the contract claims
/// that `Uuid::parse_str` reads it back to the same 128 bits.
#[verifier::external_body]
pub(crate) fn format_identity(value: u128) -> (text: String)
    ensures
        text@ == text_of_identity(value),
        identity_of_text(text@) == Some(value),
{
    format!("{}", Uuid::from_u128(value))
}

/// Calls `Webauthn::start_passkey_registration` with no excluded credentials.
///
/// The engine refuses exactly the empty user name and the empty display name
/// (the 16 bytes of the identity are never empty), and otherwise returns a
/// fresh random challenge with its server-side state. The contract claims when
/// the call succeeds and nothing of the challenge.
#[verifier::external_body]
pub(crate) fn start_registration(
    engine: &Engine,
    identity: u128,
    user_name: &str,
    display_name: &str,
) -> (issued: IssuedRegistration)
    ensures
        issued is Ok <==> (user_name@.len() > 0 && display_name@.len() > 0),
{
    engine.core.start_passkey_registration(
        Uuid::from_u128(identity),
        user_name,
        display_name,
        None,
    )
}

/// Calls `Webauthn::finish_passkey_registration`.
///
/// Whether the engine accepts the response, and the credential that it then
/// returns, depend on the engine's configuration, the response and the
/// pending state alone: the engine verifies without a list of attestation
/// authorities, and so without a look at the clock. The contract gives that
/// outcome its name. Nothing is claimed of the error of a refusal, which may
/// carry what the cryptographic library had queued.
#[verifier::external_body]
pub(crate) fn finish_registration(
    engine: &Engine,
    response: &RegisterPublicKeyCredential,
    pending: &PasskeyRegistration,
) -> (verdict: RegistrationVerdict)
    ensures
        bears_out(verdict, accepted_credential(engine.webauthn(), *response, *pending)),
{
    engine.core.finish_passkey_registration(response, pending)
}

/// Calls `Webauthn::start_passkey_authentication` with the one passkey.
///
/// The engine builds the challenge under a fixed user-verification policy,
/// which leaves it no path to an error. The contract claims that the call
/// succeeds and nothing of the challenge.
#[verifier::external_body]
pub(crate) fn start_authentication(engine: &Engine, passkey: &Passkey) -> (issued:
    IssuedAuthentication)
    ensures
        issued is Ok,
{
    engine.core.start_passkey_authentication(std::slice::from_ref(passkey))
}

/// Calls `Webauthn::finish_passkey_authentication`.
///
/// Whether the engine accepts the response, and the result that it then
/// returns, depend on the engine's configuration, the response and the
/// pending state alone. The contract gives that outcome its name. Nothing is
/// claimed of the error of a refusal, which may carry what the cryptographic
/// library had queued.
#[verifier::external_body]
pub(crate) fn finish_authentication(
    engine: &Engine,
    response: &PublicKeyCredential,
    pending: &PasskeyAuthentication,
) -> (verdict: AssertionVerdict)
    ensures
        bears_out(verdict, accepted_assertion(engine.webauthn(), *response, *pending)),
{
    engine.core.finish_passkey_authentication(response, pending)
}

/// Calls `AuthenticationResult::counter`, a getter of the counter that the
/// authenticator signed.
#[verifier::external_body]
pub(crate) fn assertion_counter(result: &AuthenticationResult) -> (counter: u32)
    ensures
        counter == reported_counter(*result),
{
    result.counter()
}

/// Calls `Passkey::update_credential`, which lets a passkey take in an
/// assertion that was made with it: a greater counter, and the backup flags.
/// The contract only names the passkey that results.
#[verifier::external_body]
pub(crate) fn refresh_passkey(passkey: &mut Passkey, result: &AuthenticationResult)
    ensures
        *final(passkey) == refreshed_passkey(*old(passkey), *result),
{
    passkey.update_credential(result);
}

/// Formats a `WebauthnError` with its `Display`. The contract only names the
/// text.
#[verifier::external_body]
pub(crate) fn describe_error(error: &WebauthnError) -> (text: String)
    ensures
        text@ == error_text(*error),
{
    format!("{}", error)
}

impl Engine {
    /// The engine of `webauthn_rs` that does the work.
    pub closed spec fn webauthn(&self) -> Webauthn {
        self.core
    }

    /// Configures an engine for the relying party `rp_id`, reachable at
    /// `rp_origin`: the result is [`configuration`] of the two. An origin that
    /// is not a URL is reported as `MalformedOrigin`, a pair that the engine's
    /// builder does not accept as `Refused` with the builder's error. Either
    /// is a fault of the deployment, to be dealt with before any request is
    /// served.
    pub fn configure(rp_id: &str, rp_origin: &str) -> (engine: Result<Engine, ConfigError>)
        ensures
            match configuration(rp_id@, rp_origin@) {
                Ok(core) => engine matches Ok(e) && e.webauthn() == core,
                Err(fault) => engine == Err::<Engine, ConfigError>(fault),
            },
    {
        match parse_origin(rp_origin) {
            None => Err(ConfigError::MalformedOrigin),
            Some(origin) => match build_core(rp_id, &origin) {
                Ok(core) => Ok(Engine { core }),
                Err(e) => Err(ConfigError::Refused(e)),
            },
        }
    }
}

} // verus!
