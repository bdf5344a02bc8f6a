//! The credential hasher: a memory-hard, salted password hash in the
//! self-describing PHC string format, and its verification.
//!
//! The hash function itself is the `argon2` crate behind two trusted
//! wrappers; everything around it — the base64 pre-encoding of the
//! password, the salt handling, and the orchestration-facing contracts —
//! is verified.

use vstd::prelude::*;

use crate::base64::base64_spec;
use crate::valid_salt_len;

use argon2::Argon2;
use password_hash::{PasswordHasher, PasswordVerifier};

verus! {

/// The longest byte string argon2 accepts as a password input.
pub const MAX_HASH_INPUT_BYTES: u64 = 0xFFFF_FFFF;

/// The PHC string that Argon2 (default parameters) produces for a password
/// and a raw salt. It is a pure function of the two arguments; its value is
/// fixed only through the trusted wrappers below.
pub uninterp spec fn argon2_phc(password: Seq<u8>, salt: Seq<u8>) -> Seq<char>;

/// The verdict of Argon2 verification: whether the stored PHC string's
/// digest matches the one recomputed from the password under the stored
/// parameters and salt. A pure function of the two arguments; fixed only
/// through the trusted wrapper below.
pub uninterp spec fn argon2_verifies(password: Seq<u8>, stored: Seq<char>) -> bool;

/// Whether a stored string is one the verifier reaches a verdict on: it
/// parses as a PHC string (phc crate, `PasswordHash::new`) and, when it
/// carries a salt and a digest, its algorithm, version, parameters and
/// salt are ones Argon2 can recompute with. (A parseable string missing
/// its salt or digest rejects every password; the verifier classifies
/// that as a mismatch, not an error, and this contract follows it.) When
/// this fails, nothing is ever compared and the verifier reports it apart
/// from any verdict.
pub uninterp spec fn phc_checkable(stored: Seq<char>) -> bool;

/// Whether `stored` is a hash this hasher can have produced from
/// `password`: the password is within argon2's input bound and some
/// accepted salt yields exactly this PHC string.
pub open spec fn is_hash_of(stored: Seq<char>, password: Seq<u8>) -> bool {
    &&& password.len() <= MAX_HASH_INPUT_BYTES
    &&& exists|s: Seq<u8>| valid_salt_len(s) && stored == argon2_phc(password, s)
}

/// What failed while hashing or verifying a credential.
#[derive(Clone, Copy, Debug, PartialEq, Eq, Structural)]
pub enum CredentialError {
    /// The password hashing function reported an error.
    HashingFailed,
    /// The stored hash could not be read as a PHC string this verifier can
    /// recompute with: an integrity fault of the record, reported
    /// distinctly from a mere mismatch.
    MalformedHash,
}

/// Relies on `Argon2::hash_password_with_salt` (argon2 crate, via the
/// `password_hash::PasswordHasher` trait): on success the rendered PHC
/// string is a function of the password and salt alone. Its only error
/// paths are a salt outside 8 to 48 bytes (`Salt::new`) and a password
/// over argon2's length bound (`verify_inputs`), so within those bounds it
/// succeeds. Because the PHC string embeds the base64 of the salt
/// verbatim, hashes of the same password under two different accepted
/// salts are different strings.
#[verifier::external_body]
fn argon2_hash(password: &[u8], salt: &[u8]) -> (r: Result<String, CredentialError>)
    ensures
        r matches Ok(h) ==> h@ == argon2_phc(password@, salt@),
        r matches Ok(h) ==> valid_salt_len(salt@) && password@.len() <= MAX_HASH_INPUT_BYTES,
        r matches Ok(h) ==> forall|s2: Seq<u8>|
            valid_salt_len(s2) && s2 != salt@ ==> argon2_phc(password@, s2) != h@,
        r matches Err(_) ==> !(valid_salt_len(salt@) && password@.len() <= MAX_HASH_INPUT_BYTES),
{
    match Argon2::default().hash_password_with_salt(password, salt) {
        Ok(h) => Ok(h.to_string()),
        Err(_) => Err(CredentialError::HashingFailed),
    }
}

/// Relies on `Argon2::verify_password` (argon2 crate, via
/// `password_hash::PasswordVerifier<str>`): it parses the stored PHC
/// string, recomputes the hash with the embedded salt and parameters, and
/// compares the digests in constant time. The boolean is the comparison's
/// verdict, a function of the two arguments alone; a hash produced from
/// the same password always verifies; an error means the stored string
/// was not checkable, and then nothing was compared.
#[verifier::external_body]
fn argon2_check(password: &[u8], stored: &str) -> (r: Result<bool, CredentialError>)
    requires
        password@.len() <= MAX_HASH_INPUT_BYTES,
    ensures
        r matches Ok(b) ==> b == argon2_verifies(password@, stored@),
        r matches Ok(b) && !b ==> !is_hash_of(stored@, password@),
        r matches Err(_) ==> !is_hash_of(stored@, password@),
        r matches Ok(_) ==> phc_checkable(stored@),
        r matches Err(_) ==> !phc_checkable(stored@),
{
    match PasswordVerifier::<str>::verify_password(&Argon2::default(), password, stored) {
        Ok(()) => Ok(true),
        Err(password_hash::Error::PasswordInvalid) => Ok(false),
        Err(_) => Err(CredentialError::MalformedHash),
    }
}

/// Relies on `Uuid::new_v4` (uuid crate): a fresh random v4 UUID, rendered
/// in its 36-character hyphenated form. Nothing is assumed about the value
/// beyond its length; freshness is a matter of the generator's entropy.
#[verifier::external_body]
pub(crate) fn fresh_salt() -> (r: Vec<u8>)
    ensures
        r@.len() == 36,
{
    uuid::Uuid::new_v4().to_string().into_bytes()
}

/// The bytes that are actually hashed for a password: the base64 of its
/// UTF-8 form, mirroring the transport encoding the service applies before
/// hashing.
pub open spec fn hash_input(password: Seq<char>) -> Seq<u8> {
    base64_spec(vstd::utf8::encode_utf8(password), false, true)
}

/// The verifier's verdict on a plaintext password against a stored hash:
/// the password is within the hasher's input bound and Argon2 verification
/// accepts it.
pub open spec fn password_accepted(password: Seq<char>, stored: Seq<char>) -> bool {
    &&& hash_input(password).len() <= MAX_HASH_INPUT_BYTES
    &&& argon2_verifies(hash_input(password), stored)
}

/// Hash a plaintext password under a caller-supplied fresh salt. An empty
/// plaintext is refused; any other plaintext within the hasher's input
/// bound, under an accepted salt, succeeds. On success the result is the
/// PHC string for exactly this password and salt, and it differs from the
/// hash of the same password under any other accepted salt.
pub fn generate_password_hash(password: &str, salt: &[u8]) -> (r: Result<String, CredentialError>)
    ensures
        r matches Ok(h) ==> h@ == argon2_phc(hash_input(password@), salt@),
        r matches Ok(h) ==> valid_salt_len(salt@) && password@.len() > 0 && hash_input(password@).len()
            <= MAX_HASH_INPUT_BYTES,
        r matches Ok(h) ==> forall|s2: Seq<u8>|
            valid_salt_len(s2) && s2 != salt@ ==> argon2_phc(hash_input(password@), s2) != h@,
        r matches Err(e) ==> e is HashingFailed,
        password@.len() > 0 && valid_salt_len(salt@) && hash_input(password@).len()
            <= MAX_HASH_INPUT_BYTES ==> r matches Ok(_),
        password@.len() == 0 ==> r matches Err(_),
{
    if password.is_empty() {
        return Err(CredentialError::HashingFailed);
    }
    let encoded = crate::base64::base64_encode(password.as_bytes(), false, true);
    match argon2_hash(encoded.as_slice(), salt) {
        Ok(h) => Ok(h),
        Err(_) => Err(CredentialError::HashingFailed),
    }
}

/// Verify a plaintext password against a stored PHC hash. The verdict is
/// exactly the verifier's: a hash produced by [`generate_password_hash`]
/// from the same password always verifies, a password the verifier
/// rejects yields `false`, and a stored hash that cannot be checked is a
/// `MalformedHash` error — never a silent mismatch, and never a silent
/// acceptance.
pub fn is_password_valid(password: &str, stored_hash: &str) -> (r: Result<bool, CredentialError>)
    ensures
        is_hash_of(stored_hash@, hash_input(password@)) ==> r == Result::<
            bool,
            CredentialError,
        >::Ok(true),
        r matches Ok(b) ==> b == password_accepted(password@, stored_hash@),
        r matches Ok(b) && b ==> phc_checkable(stored_hash@),
        r matches Err(e) ==> e is MalformedHash && !phc_checkable(stored_hash@),
        !phc_checkable(stored_hash@) && hash_input(password@).len() <= MAX_HASH_INPUT_BYTES
            ==> r matches Err(_),
{
    let encoded = crate::base64::base64_encode(password.as_bytes(), false, true);
    if encoded.len() as u64 > MAX_HASH_INPUT_BYTES {
        // Longer than anything the hasher can ever have hashed: no stored
        // hash can match it.
        return Ok(false);
    }
    match argon2_check(encoded.as_slice(), stored_hash) {
        Ok(b) => Ok(b),
        Err(_) => Err(CredentialError::MalformedHash),
    }
}

/// Hashing then verifying with the same password succeeds: whenever the
/// inputs are within the hasher's bounds both calls go through, and the
/// verdict is `true`.
pub fn hash_then_verify(password: &str, salt: &[u8]) -> (r: Option<bool>)
    ensures
        r matches Some(b) ==> b == true,
        password@.len() > 0 && valid_salt_len(salt@) && hash_input(password@).len()
            <= MAX_HASH_INPUT_BYTES ==> r is Some,
{
    match generate_password_hash(password, salt) {
        Ok(h) => match is_password_valid(password, h.as_str()) {
            Ok(b) => Some(b),
            Err(_) => None,
        },
        Err(_) => None,
    }
}

/// Hashing one password under two different salts yields two different
/// stored hashes: whenever the inputs are within the hasher's bounds both
/// calls go through, and the strings differ.
pub fn hash_with_two_salts(password: &str, salt1: &[u8], salt2: &[u8]) -> (r: Option<
    (String, String),
>)
    requires
        salt1@ != salt2@,
    ensures
        r matches Some((h1, h2)) ==> h1@ != h2@,
        password@.len() > 0 && valid_salt_len(salt1@) && valid_salt_len(salt2@) && hash_input(
            password@,
        ).len() <= MAX_HASH_INPUT_BYTES ==> r is Some,
{
    match generate_password_hash(password, salt1) {
        Ok(h1) => match generate_password_hash(password, salt2) {
            Ok(h2) => Some((h1, h2)),
            Err(_) => None,
        },
        Err(_) => None,
    }
}

} // verus!
