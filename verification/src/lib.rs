//! Credential-authentication core: password hashing and verification,
//! registration and login orchestration, token issuance, and the event
//! payloads handed to a message bus.
//!
//! The orchestrators are pure decision functions over the outcomes of the
//! external store and bus calls; the surrounding service performs the actual
//! I/O and feeds the outcomes back in.

pub mod base64;
pub mod jsonenc;
pub mod model;
pub mod hashing;
pub mod events;
mod clock;
pub mod token;
pub mod register;
pub mod login;

use vstd::prelude::*;

verus! {

/// A salt accepted by the password hashing function: 8 to 48 raw bytes.
pub open spec fn valid_salt_len(s: Seq<u8>) -> bool {
    8 <= s.len() <= 48
}

} // verus!
