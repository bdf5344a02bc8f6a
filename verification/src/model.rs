//! The data model of the authentication core: the durable identity record,
//! the transient request and token values, the bus topics and events, and
//! the caller-facing error taxonomy.

use vstd::prelude::*;

verus! {

/// The durable record of a registered principal. The store owns the id and
/// the two timestamps; the core never writes them. Emails are compared
/// case-sensitively, exactly as stored.
#[derive(Clone, Debug)]
pub struct Identity {
    pub id: String,
    pub email: String,
    pub password_hash: String,
    pub first_name: String,
    pub last_name: String,
    pub created_at: String,
    pub updated_at: String,
}

/// A record ready to be inserted: everything of an [`Identity`] that the
/// core decides, with the id and timestamps left to the store.
#[derive(Clone, Debug)]
pub struct NewIdentity {
    pub email: String,
    pub password_hash: String,
    pub first_name: String,
    pub last_name: String,
}

/// The transient input of the register use case; never persisted as-is.
#[derive(Clone, Debug)]
pub struct RegistrationCredentials {
    pub email: String,
    pub password: String,
    pub first_name: String,
    pub last_name: String,
}

/// The transient input of the login use case.
#[derive(Clone, Debug)]
pub struct LoginCredentials {
    pub email: String,
    pub password: String,
}

/// A signed bearer token handed back to the caller; never persisted.
#[derive(Clone, Debug)]
pub struct IssuedToken {
    pub encoded_token: String,
    pub expires_at: u64,
}

/// The two bus topics that identity events go to.
#[derive(Clone, Copy, Debug, PartialEq, Eq, Structural)]
pub enum MqTopic {
    UserRegistration,
    UserLogin,
}

impl MqTopic {
    /// The topic's name on the bus.
    pub fn name(&self) -> (r: String)
        ensures
            *self is UserRegistration ==> r@ == "user.registration"@,
            *self is UserLogin ==> r@ == "user.login"@,
    {
        match self {
            MqTopic::UserRegistration => "user.registration".to_owned(),
            MqTopic::UserLogin => "user.login".to_owned(),
        }
    }
}

/// One identity-affecting event, built per successful orchestration and
/// handed to the publisher. The key orders events of the same principal on
/// the bus; the payload is the JSON document the consumers read.
#[derive(Clone, Debug)]
pub struct IdentityEvent {
    pub topic: MqTopic,
    pub key: String,
    pub payload: Vec<u8>,
}

/// The caller-facing copy of a persisted identity: every public field
/// kept, the stored password hash left out.
pub fn sans_password_hash(identity: &Identity) -> (r: Identity)
    ensures
        r.id == identity.id,
        r.email == identity.email,
        r.first_name == identity.first_name,
        r.last_name == identity.last_name,
        r.created_at == identity.created_at,
        r.updated_at == identity.updated_at,
        r.password_hash@ == Seq::<char>::empty(),
{
    Identity {
        id: identity.id.clone(),
        email: identity.email.clone(),
        password_hash: String::new(),
        first_name: identity.first_name.clone(),
        last_name: identity.last_name.clone(),
        created_at: identity.created_at.clone(),
        updated_at: identity.updated_at.clone(),
    }
}

/// What the store's lookup-by-email reported. A failed lookup is its own
/// outcome: registration treats it as "not found" (fail-open pre-check),
/// login treats it as invalid credentials.
#[derive(Clone, Debug)]
pub enum LookupOutcome {
    Found(Identity),
    NotFound,
    LookupFailed,
}

/// What the store's insert reported. A uniqueness conflict is kept apart
/// from other write failures so it can be mapped to the duplicate-email
/// rejection.
#[derive(Clone, Debug)]
pub enum PersistOutcome {
    Persisted(Identity),
    Conflict,
    WriteFailed,
}

/// Why a registration did not complete. The first variant is a validation
/// rejection that is surfaced verbatim; the rest are dependency failures
/// surfaced only as a generic message.
#[derive(Clone, Copy, Debug, PartialEq, Eq, Structural)]
pub enum RegistrationError {
    EmailAlreadyRegistered,
    HashingFailed,
    PersistenceFailed,
    PublishFailed,
}

/// Why a login did not complete. Every credentials problem — unknown email,
/// wrong password, or an unreadable stored hash — is the single
/// `InvalidCredentials` variant, so no caller can tell them apart.
#[derive(Clone, Copy, Debug, PartialEq, Eq, Structural)]
pub enum LoginError {
    InvalidCredentials,
    IssuanceFailed,
    PublishFailed,
}

/// Whether a failed publish aborts the call (fail-closed, the reference
/// behaviour) or is tolerated after the durable write succeeded (fail-open).
#[derive(Clone, Copy, Debug, PartialEq, Eq, Structural)]
pub enum PublishPolicy {
    FailClosed,
    FailOpen,
}

/// The caller-facing message for a registration error. Only the duplicate
/// email is named; dependency failures share one generic message.
pub fn registration_message(e: &RegistrationError) -> (r: String)
    ensures
        *e is EmailAlreadyRegistered ==> r@ == "A user is already registered with this email."@,
        !(*e is EmailAlreadyRegistered) ==> r@
            == "A server error has happened. Please try again."@,
{
    match e {
        RegistrationError::EmailAlreadyRegistered => "A user is already registered with this email."
            .to_owned(),
        _ => "A server error has happened. Please try again.".to_owned(),
    }
}

/// The caller-facing message for a login error. Unknown email, wrong
/// password and unreadable hash all yield the same bytes, so errors cannot
/// be told apart from outside.
pub fn login_message(e: &LoginError) -> (r: String)
    ensures
        *e is InvalidCredentials ==> r@ == "The provided e-mail or password is invalid."@,
        !(*e is InvalidCredentials) ==> r@ == "A server error has happened. Please try again."@,
{
    match e {
        LoginError::InvalidCredentials => "The provided e-mail or password is invalid.".to_owned(),
        _ => "A server error has happened. Please try again.".to_owned(),
    }
}

} // verus!
