//! The login orchestrator: `Lookup → Verify → IssueToken → Publish →
//! Done`, with early exit to the one generic credentials rejection.
//!
//! Unknown email, failed lookup, wrong password and unreadable stored hash
//! all end in the same `InvalidCredentials` value, so nothing a caller
//! sees distinguishes them.

use vstd::prelude::*;
use vstd::utf8::encode_utf8;

use crate::events::{build_event, payload_spec};
use crate::hashing::{hash_input, is_hash_of, is_password_valid, password_accepted, phc_checkable};
use crate::model::{
    IdentityEvent, IssuedToken, LoginCredentials, LoginError, LookupOutcome, MqTopic, PublishPolicy,
};
use crate::token::{TOKEN_TTL_SECS, issue_token, jwt_of};

verus! {

/// Where a login stands between two outside calls.
#[derive(Clone, Debug)]
pub enum LoginState {
    /// The store is being asked for the identity behind the email.
    AwaitingLookup(LoginCredentials),
    /// Credentials verified, token issued, login event handed out.
    AwaitingPublish(IssuedToken),
    /// The login succeeded with this token.
    Completed(IssuedToken),
    /// The login ended without a token.
    Refused(LoginError),
}

/// The outcome of the one outside call the orchestrator waited for.
#[derive(Clone, Debug)]
pub enum LoginEvent {
    LookupDone(LookupOutcome),
    PublishDone(bool),
}

/// What the caller must do next.
#[derive(Clone, Debug)]
pub enum LoginAction {
    /// Publish this event and report whether the bus acknowledged it.
    Publish(IdentityEvent),
    /// Nothing: the orchestration is over.
    Halt,
}

/// Whether the event answers the call the state is waiting for.
pub open spec fn login_step_fits(state: LoginState, event: LoginEvent) -> bool {
    match (state, event) {
        (LoginState::AwaitingLookup(_), LoginEvent::LookupDone(_)) => true,
        (LoginState::AwaitingPublish(_), LoginEvent::PublishDone(_)) => true,
        _ => false,
    }
}

/// The runtime twin of [`login_step_fits`], for callers outside the proof.
pub fn login_step_expects(state: &LoginState, event: &LoginEvent) -> (r: bool)
    ensures
        r == login_step_fits(*state, *event),
{
    match (state, event) {
        (LoginState::AwaitingLookup(_), LoginEvent::LookupDone(_)) => true,
        (LoginState::AwaitingPublish(_), LoginEvent::PublishDone(_)) => true,
        _ => false,
    }
}

/// One decision of the login orchestrator.
///
/// - Unknown email and a failed lookup end in exactly the same
///   `InvalidCredentials` rejection — one value, so byte-identical to any
///   caller.
/// - A password the verifier does not accept, and a stored hash that
///   cannot be checked at all, end in that same rejection, with nothing
///   further asked of the caller: no token, no event.
/// - A password that matches the stored hash is never rejected as invalid
///   credentials; issuance trouble is reported apart, as a server fault.
/// - On a verified login the state carries a token that is exactly the
///   signed JWT of the identity's public fields for some issue time, and
///   the login event of that identity is handed out for publishing.
/// - An event is handed out only for a verified login; a rejected login
///   asks nothing further of the caller.
pub fn login_step(
    state: LoginState,
    event: LoginEvent,
    signing_key: &[u8],
    policy: PublishPolicy,
) -> (r: (LoginState, LoginAction))
    requires
        login_step_fits(state, event),
    ensures
        state matches LoginState::AwaitingLookup(cred) ==> (event matches LoginEvent::LookupDone(
            lk,
        ) ==> {
            &&& !(lk matches LookupOutcome::Found(_)) ==> r == (
                LoginState::Refused(LoginError::InvalidCredentials),
                LoginAction::Halt,
            )
            &&& lk matches LookupOutcome::Found(u) ==> ({
                ||| r == (LoginState::Refused(LoginError::InvalidCredentials), LoginAction::Halt)
                ||| r == (LoginState::Refused(LoginError::IssuanceFailed), LoginAction::Halt)
                ||| (r.0 matches LoginState::AwaitingPublish(t) && (r.1
                    matches LoginAction::Publish(ev) && ((exists|iat: nat, exp: nat|
                    exp == iat + TOKEN_TTL_SECS && exp <= u64::MAX && encode_utf8(
                        t.encoded_token@,
                    ) == #[trigger] jwt_of(
                        u.id@,
                        u.email@,
                        u.first_name@,
                        u.last_name@,
                        iat,
                        exp,
                        signing_key@,
                    ) && t.expires_at == exp) && ev.topic == MqTopic::UserLogin && ev.payload@
                    == payload_spec(u.id@, u.email@, u.first_name@, u.last_name@))))
            })
            &&& lk matches LookupOutcome::Found(u) ==> (is_hash_of(
                u.password_hash@,
                hash_input(cred.password@),
            ) ==> r.0 != LoginState::Refused(LoginError::InvalidCredentials))
            &&& lk matches LookupOutcome::Found(u) ==> (!password_accepted(
                cred.password@,
                u.password_hash@,
            ) ==> r == (LoginState::Refused(LoginError::InvalidCredentials), LoginAction::Halt))
            &&& lk matches LookupOutcome::Found(u) ==> (!phc_checkable(u.password_hash@) ==> r == (
                LoginState::Refused(LoginError::InvalidCredentials),
                LoginAction::Halt,
            ))
        }),
        r.1 matches LoginAction::Publish(_) ==> r.0 is AwaitingPublish,
        r.0 matches LoginState::Refused(_) ==> r.1 is Halt,
        state matches LoginState::AwaitingPublish(t) ==> (event matches LoginEvent::PublishDone(ok)
            ==> {
            &&& ok ==> r == (LoginState::Completed(t), LoginAction::Halt)
            &&& !ok && policy is FailClosed ==> r == (
                LoginState::Refused(LoginError::PublishFailed),
                LoginAction::Halt,
            )
            &&& !ok && policy is FailOpen ==> r == (LoginState::Completed(t), LoginAction::Halt)
        }),
{
    match (state, event) {
        (LoginState::AwaitingLookup(cred), LoginEvent::LookupDone(lk)) => match lk {
            LookupOutcome::Found(u) => {
                match is_password_valid(cred.password.as_str(), u.password_hash.as_str()) {
                    Ok(true) => {
                        let now = crate::clock::now_unix();
                        if now < 0 {
                            // A clock before the epoch cannot stamp a token:
                            // a server fault, not a credentials problem.
                            (LoginState::Refused(LoginError::IssuanceFailed), LoginAction::Halt)
                        } else {
                            let iat = now as u64;
                            match issue_token(&u, iat, signing_key) {
                                Ok(t) => {
                                    let key = crate::clock::now_rfc3339();
                                    let ev = build_event(MqTopic::UserLogin, key, &u);
                                    proof {
                                        assert(iat <= u64::MAX - TOKEN_TTL_SECS && encode_utf8(
                                            t.encoded_token@,
                                        ) == jwt_of(
                                            u.id@,
                                            u.email@,
                                            u.first_name@,
                                            u.last_name@,
                                            iat as nat,
                                            (iat + TOKEN_TTL_SECS) as nat,
                                            signing_key@,
                                        ) && t.expires_at == iat + TOKEN_TTL_SECS);
                                    }
                                    (LoginState::AwaitingPublish(t), LoginAction::Publish(ev))
                                },
                                Err(_) => (
                                    LoginState::Refused(LoginError::IssuanceFailed),
                                    LoginAction::Halt,
                                ),
                            }
                        }
                    },
                    Ok(false) => (
                        LoginState::Refused(LoginError::InvalidCredentials),
                        LoginAction::Halt,
                    ),
                    // An unreadable stored hash is an integrity fault, logged
                    // apart by the caller of the hasher; to the outside it is
                    // still only "invalid credentials".
                    Err(_) => (
                        LoginState::Refused(LoginError::InvalidCredentials),
                        LoginAction::Halt,
                    ),
                }
            },
            _ => (LoginState::Refused(LoginError::InvalidCredentials), LoginAction::Halt),
        },
        (LoginState::AwaitingPublish(t), LoginEvent::PublishDone(ok)) => {
            if ok {
                (LoginState::Completed(t), LoginAction::Halt)
            } else {
                match policy {
                    PublishPolicy::FailClosed => (
                        LoginState::Refused(LoginError::PublishFailed),
                        LoginAction::Halt,
                    ),
                    PublishPolicy::FailOpen => (LoginState::Completed(t), LoginAction::Halt),
                }
            }
        },
        _ => {
            // Excluded by the precondition: the event answers the state.
            proof {
                assert(false);
            }
            (LoginState::Refused(LoginError::InvalidCredentials), LoginAction::Halt)
        },
    }
}

} // verus!
