//! The registration orchestrator: `CheckExisting → Hash → Persist →
//! Publish → Done`, with early exit to a rejection or a failure.
//!
//! The sequence is a state machine driven from outside: the caller
//! performs each store or bus call, feeds the outcome back in as an event,
//! and carries out the action handed back. Every decision — the fail-open
//! pre-check, the hashing, the conflict mapping, the publish policy — is
//! made here, under contract.

use vstd::prelude::*;

use crate::events::{build_event, payload_spec};
use crate::hashing::{
    MAX_HASH_INPUT_BYTES, fresh_salt, generate_password_hash, hash_input, is_hash_of,
};
use crate::model::{
    IdentityEvent, LookupOutcome, MqTopic, NewIdentity, PersistOutcome, PublishPolicy,
    RegistrationCredentials, RegistrationError,
};

verus! {

/// Where a registration stands between two outside calls.
#[derive(Clone, Debug)]
pub enum RegState {
    /// The store is being asked whether the email is taken.
    AwaitingLookup(RegistrationCredentials),
    /// The hashed record was handed out for insertion.
    AwaitingPersist,
    /// The persisted identity's event was handed out for publishing.
    AwaitingPublish(crate::model::Identity),
    /// The identity is registered (and the event published, or tolerated
    /// as lost under the fail-open policy).
    Completed(crate::model::Identity),
    /// The registration ended without a new identity.
    Refused(RegistrationError),
}

/// The outcome of the one outside call the orchestrator waited for.
#[derive(Clone, Debug)]
pub enum RegEvent {
    LookupDone(LookupOutcome),
    PersistDone(PersistOutcome),
    PublishDone(bool),
}

/// What the caller must do next.
#[derive(Clone, Debug)]
pub enum RegAction {
    /// Insert this record into the store and report the outcome.
    Persist(NewIdentity),
    /// Publish this event and report whether the bus acknowledged it.
    Publish(IdentityEvent),
    /// Nothing: the orchestration is over.
    Halt,
}

/// Whether the event answers the call the state is waiting for.
pub open spec fn reg_step_fits(state: RegState, event: RegEvent) -> bool {
    match (state, event) {
        (RegState::AwaitingLookup(_), RegEvent::LookupDone(_)) => true,
        (RegState::AwaitingPersist, RegEvent::PersistDone(_)) => true,
        (RegState::AwaitingPublish(_), RegEvent::PublishDone(_)) => true,
        _ => false,
    }
}

/// The runtime twin of [`reg_step_fits`], for callers outside the proof.
pub fn reg_step_expects(state: &RegState, event: &RegEvent) -> (r: bool)
    ensures
        r == reg_step_fits(*state, *event),
{
    match (state, event) {
        (RegState::AwaitingLookup(_), RegEvent::LookupDone(_)) => true,
        (RegState::AwaitingPersist, RegEvent::PersistDone(_)) => true,
        (RegState::AwaitingPublish(_), RegEvent::PublishDone(_)) => true,
        _ => false,
    }
}

/// One decision of the registration orchestrator.
///
/// - A found email is rejected as `EmailAlreadyRegistered`, never as a
///   generic failure; a failed pre-check lookup proceeds as if not found.
/// - The record handed out for insertion carries the request's fields and
///   an Argon2 hash of its password under a fresh salt; for every
///   non-empty password within the hasher's input bound, the record *is*
///   handed out — `HashingFailed` cannot stand in for work not done.
/// - A store uniqueness conflict at insert time is the same
///   `EmailAlreadyRegistered` rejection as the pre-check's.
/// - An event is handed out for publishing only after a successful store
///   write, and it is the registration event of exactly the persisted
///   identity.
/// - A refused publish aborts the call under `FailClosed` and is tolerated
///   under `FailOpen`; a rejected or failed registration asks nothing
///   further of the caller.
pub fn registration_step(state: RegState, event: RegEvent, policy: PublishPolicy) -> (r: (
    RegState,
    RegAction,
))
    requires
        reg_step_fits(state, event),
    ensures
        state matches RegState::AwaitingLookup(req) ==> (event matches RegEvent::LookupDone(lk)
            ==> {
            &&& (lk matches LookupOutcome::Found(_)) ==> r == (
                RegState::Refused(RegistrationError::EmailAlreadyRegistered),
                RegAction::Halt,
            )
            &&& !(lk matches LookupOutcome::Found(_)) ==> ({
                ||| (r.1 matches RegAction::Persist(n) && (r.0 is AwaitingPersist && n.email
                    == req.email && n.first_name == req.first_name && n.last_name == req.last_name
                    && is_hash_of(n.password_hash@, hash_input(req.password@))))
                ||| r == (RegState::Refused(RegistrationError::HashingFailed), RegAction::Halt)
            })
            &&& !(lk matches LookupOutcome::Found(_)) ==> (req.password@.len() > 0 && hash_input(
                req.password@,
            ).len() <= MAX_HASH_INPUT_BYTES ==> (r.0 is AwaitingPersist && r.1 is Persist))
        }),
        event matches RegEvent::PersistDone(p) ==> {
            &&& p matches PersistOutcome::Conflict ==> r == (
                RegState::Refused(RegistrationError::EmailAlreadyRegistered),
                RegAction::Halt,
            )
            &&& p matches PersistOutcome::WriteFailed ==> r == (
                RegState::Refused(RegistrationError::PersistenceFailed),
                RegAction::Halt,
            )
            &&& p matches PersistOutcome::Persisted(u) ==> r.0 == RegState::AwaitingPublish(u) && (
            r.1 matches RegAction::Publish(ev) && (ev.topic == MqTopic::UserRegistration
                && ev.payload@ == payload_spec(u.id@, u.email@, u.first_name@, u.last_name@)))
        },
        r.1 matches RegAction::Publish(_) ==> (event matches RegEvent::PersistDone(p) && (
        p matches PersistOutcome::Persisted(_))),
        r.0 matches RegState::Refused(_) ==> r.1 is Halt,
        state matches RegState::AwaitingPublish(u) ==> (event matches RegEvent::PublishDone(ok)
            ==> {
            &&& ok ==> r == (RegState::Completed(u), RegAction::Halt)
            &&& !ok && policy is FailClosed ==> r == (
                RegState::Refused(RegistrationError::PublishFailed),
                RegAction::Halt,
            )
            &&& !ok && policy is FailOpen ==> r == (RegState::Completed(u), RegAction::Halt)
        }),
{
    match (state, event) {
        (RegState::AwaitingLookup(req), RegEvent::LookupDone(lk)) => match lk {
            LookupOutcome::Found(_) => (
                RegState::Refused(RegistrationError::EmailAlreadyRegistered),
                RegAction::Halt,
            ),
            _ => {
                // Not found, or fail-open on a failed pre-check: the store's
                // own uniqueness constraint is the authority at insert time.
                let salt = fresh_salt();
                match generate_password_hash(req.password.as_str(), salt.as_slice()) {
                    Ok(password_hash) => {
                        let record = NewIdentity {
                            email: req.email,
                            password_hash,
                            first_name: req.first_name,
                            last_name: req.last_name,
                        };
                        (RegState::AwaitingPersist, RegAction::Persist(record))
                    },
                    Err(_) => (
                        RegState::Refused(RegistrationError::HashingFailed),
                        RegAction::Halt,
                    ),
                }
            },
        },
        (RegState::AwaitingPersist, RegEvent::PersistDone(p)) => match p {
            PersistOutcome::Persisted(u) => {
                let key = crate::clock::now_rfc3339();
                let ev = build_event(MqTopic::UserRegistration, key, &u);
                (RegState::AwaitingPublish(u), RegAction::Publish(ev))
            },
            PersistOutcome::Conflict => (
                RegState::Refused(RegistrationError::EmailAlreadyRegistered),
                RegAction::Halt,
            ),
            PersistOutcome::WriteFailed => (
                RegState::Refused(RegistrationError::PersistenceFailed),
                RegAction::Halt,
            ),
        },
        (RegState::AwaitingPublish(u), RegEvent::PublishDone(ok)) => {
            if ok {
                (RegState::Completed(u), RegAction::Halt)
            } else {
                match policy {
                    PublishPolicy::FailClosed => (
                        RegState::Refused(RegistrationError::PublishFailed),
                        RegAction::Halt,
                    ),
                    PublishPolicy::FailOpen => (RegState::Completed(u), RegAction::Halt),
                }
            }
        },
        _ => {
            // Excluded by the precondition: the event answers the state.
            proof {
                assert(false);
            }
            (RegState::Refused(RegistrationError::PersistenceFailed), RegAction::Halt)
        },
    }
}

} // verus!
