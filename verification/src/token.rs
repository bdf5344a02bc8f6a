//! The token issuer: a signed, self-contained bearer token (a JWT with an
//! HMAC-SHA-256 signature) over the verified identity, with issue and
//! expiry times. The serialization is specified byte-for-byte; only the
//! MAC itself is an outside call.

use vstd::prelude::*;
use vstd::utf8::{
    decode_utf8, encode_utf8, is_leading_byte_width_1, partial_valid_utf8,
    partial_valid_utf8_extend_ascii_block, valid_utf8,
};

use crate::base64::{
    base64_encode, base64_spec, lemma_base64_spec_ascii, lemma_base64_spec_no_dot,
    lemma_base64_unpadded_injective,
};
use crate::events::{json_email_mid, json_first_mid, json_last_mid};
use crate::jsonenc::{
    append_bytes, append_decimal, append_json_escaped, dec_spec, json_escaped,
    lemma_dec_spec_digits, lemma_dec_spec_injective,
};
use crate::model::{Identity, IssuedToken};

use hmac::{KeyInit, Mac};

verus! {

/// How long an issued token stays valid, in seconds.
pub const TOKEN_TTL_SECS: u64 = 3600;

/// Token issuance failed: a server fault, never a credentials problem.
#[derive(Clone, Copy, Debug, PartialEq, Eq, Structural)]
pub enum IssueError {
    IssuanceFailed,
}

/// The HMAC-SHA-256 tag of a message under a key: a pure function of the
/// two arguments, fixed only through the trusted wrapper below.
pub uninterp spec fn hmac_sha256_of(key: Seq<u8>, msg: Seq<u8>) -> Seq<u8>;

/// Relies on `Hmac::<Sha256>` of the hmac crate (`new_from_slice`,
/// `update`, `finalize`): the 32-byte HMAC-SHA-256 tag of the message
/// under the key, a function of the two arguments alone. `new_from_slice`
/// accepts keys of every length for HMAC and has no failing path, so the
/// call always succeeds.
#[verifier::external_body]
fn hmac_sha256(key: &[u8], msg: &[u8]) -> (r: Result<Vec<u8>, IssueError>)
    ensures
        r is Ok,
        r matches Ok(d) ==> d@ == hmac_sha256_of(key@, msg@),
        r matches Ok(d) ==> d@.len() == 32,
{
    match hmac::Hmac::<sha2::Sha256>::new_from_slice(key) {
        Ok(mut mac) => {
            mac.update(msg);
            Ok(mac.finalize().into_bytes().to_vec())
        },
        Err(_) => Err(IssueError::IssuanceFailed),
    }
}

/// Relies on `String::from_utf8`: it accepts exactly the valid UTF-8 byte
/// sequences and decodes them.
#[verifier::external_body]
fn bytes_to_string(v: Vec<u8>) -> (r: Option<String>)
    ensures
        r matches Some(s) ==> s@ == decode_utf8(v@) && valid_utf8(v@),
        r is None ==> !valid_utf8(v@),
{
    match String::from_utf8(v) {
        Ok(s) => Some(s),
        Err(_) => None,
    }
}

/// A sequence of bytes below 0x80 is valid UTF-8.
proof fn lemma_ascii_valid_utf8(b: Seq<u8>)
    requires
        forall|i: int| 0 <= i < b.len() ==> b[i] < 0x80,
    ensures
        valid_utf8(b),
{
    assert(b.subrange(0, 0) =~= Seq::<u8>::empty());
    assert(partial_valid_utf8(b, 0));
    assert forall|i: int| 0 <= 0 <= i < b.len() <= b.len() implies #[trigger] is_leading_byte_width_1(
        b[i],
    ) by {}
    partial_valid_utf8_extend_ascii_block(b, 0, b.len() as int);
    assert(b.subrange(0, b.len() as int) =~= b);
}

/// The bytes of the JWT header `{"alg":"HS256","typ":"JWT"}`.
pub open spec fn jwt_header_bytes() -> Seq<u8> {
    seq![
        123u8,
        34u8,
        97u8,
        108u8,
        103u8,
        34u8,
        58u8,
        34u8,
        72u8,
        83u8,
        50u8,
        53u8,
        54u8,
        34u8,
        44u8,
        34u8,
        116u8,
        121u8,
        112u8,
        34u8,
        58u8,
        34u8,
        74u8,
        87u8,
        84u8,
        34u8,
        125u8,
    ]
}

/// The bytes of `{"sub":"`.
pub open spec fn jwt_sub_open() -> Seq<u8> {
    seq![123u8, 34u8, 115u8, 117u8, 98u8, 34u8, 58u8, 34u8]
}

/// The bytes of `","iat":`.
pub open spec fn jwt_iat_mid() -> Seq<u8> {
    seq![34u8, 44u8, 34u8, 105u8, 97u8, 116u8, 34u8, 58u8]
}

/// The bytes of `,"exp":`.
pub open spec fn jwt_exp_mid() -> Seq<u8> {
    seq![44u8, 34u8, 101u8, 120u8, 112u8, 34u8, 58u8]
}

/// The claims document: subject, email, names, issue and expiry times, as
/// `{"sub":"…","email":"…","firstName":"…","lastName":"…","iat":N,"exp":M}`.
pub open spec fn jwt_claims_bytes(
    sub: Seq<char>,
    email: Seq<char>,
    first: Seq<char>,
    last: Seq<char>,
    iat: nat,
    exp: nat,
) -> Seq<u8> {
    jwt_sub_open() + json_escaped(encode_utf8(sub)) + json_email_mid() + json_escaped(
        encode_utf8(email),
    ) + json_first_mid() + json_escaped(encode_utf8(first)) + json_last_mid() + json_escaped(
        encode_utf8(last),
    ) + jwt_iat_mid() + dec_spec(iat) + jwt_exp_mid() + dec_spec(exp) + seq![125u8]
}

/// The full encoded token: base64url of the header, a dot, base64url of
/// the claims, a dot, base64url of the HMAC-SHA-256 tag of the first two
/// parts under the signing key.
pub open spec fn jwt_of(
    sub: Seq<char>,
    email: Seq<char>,
    first: Seq<char>,
    last: Seq<char>,
    iat: nat,
    exp: nat,
    key: Seq<u8>,
) -> Seq<u8> {
    let signing_input = base64_spec(jwt_header_bytes(), true, false) + seq![46u8] + base64_spec(
        jwt_claims_bytes(sub, email, first, last, iat, exp),
        true,
        false,
    );
    signing_input + seq![46u8] + base64_spec(hmac_sha256_of(key, signing_input), true, false)
}

proof fn lemma_strip_prefix(p: Seq<u8>, x: Seq<u8>, y: Seq<u8>)
    requires
        p + x == p + y,
    ensures
        x == y,
{
    assert(x.len() == (p + x).len() - p.len());
    assert(y.len() == (p + y).len() - p.len());
    assert forall|j: int| 0 <= j < x.len() implies x[j] == y[j] by {
        assert((p + x)[p.len() + j] == x[j]);
        assert((p + y)[p.len() + j] == y[j]);
    }
    assert(x =~= y);
}

/// Two claims documents for the same identity but different issue times
/// are different byte sequences: the decimal issue time is embedded, its
/// bytes are digits, and the field that follows it starts with a comma.
pub proof fn lemma_claims_differ(
    sub: Seq<char>,
    email: Seq<char>,
    first: Seq<char>,
    last: Seq<char>,
    iat1: nat,
    exp1: nat,
    iat2: nat,
    exp2: nat,
)
    requires
        iat1 != iat2,
    ensures
        jwt_claims_bytes(sub, email, first, last, iat1, exp1) != jwt_claims_bytes(
            sub,
            email,
            first,
            last,
            iat2,
            exp2,
        ),
{
    let pre = jwt_sub_open() + json_escaped(encode_utf8(sub)) + json_email_mid() + json_escaped(
        encode_utf8(email),
    ) + json_first_mid() + json_escaped(encode_utf8(first)) + json_last_mid() + json_escaped(
        encode_utf8(last),
    ) + jwt_iat_mid();
    let d1 = dec_spec(iat1);
    let d2 = dec_spec(iat2);
    let u1 = jwt_exp_mid() + dec_spec(exp1) + seq![125u8];
    let u2 = jwt_exp_mid() + dec_spec(exp2) + seq![125u8];
    let t1 = d1 + u1;
    let t2 = d2 + u2;
    assert(jwt_claims_bytes(sub, email, first, last, iat1, exp1) =~= pre + t1);
    assert(jwt_claims_bytes(sub, email, first, last, iat2, exp2) =~= pre + t2);
    if jwt_claims_bytes(sub, email, first, last, iat1, exp1) == jwt_claims_bytes(
        sub,
        email,
        first,
        last,
        iat2,
        exp2,
    ) {
        lemma_strip_prefix(pre, t1, t2);
        lemma_dec_spec_digits(iat1);
        lemma_dec_spec_digits(iat2);
        assert(u1[0] == 44 && u2[0] == 44);
        if d1.len() < d2.len() {
            assert(t1[d1.len() as int] == u1[0]);
            assert(t2[d1.len() as int] == d2[d1.len() as int]);
            assert(48 <= d2[d1.len() as int] <= 57);
        } else if d2.len() < d1.len() {
            assert(t2[d2.len() as int] == u2[0]);
            assert(t1[d2.len() as int] == d1[d2.len() as int]);
            assert(48 <= d1[d2.len() as int] <= 57);
        } else {
            assert forall|j: int| 0 <= j < d1.len() implies d1[j] == d2[j] by {
                assert(t1[j] == d1[j]);
                assert(t2[j] == d2[j]);
            }
            assert(d1 =~= d2);
            lemma_dec_spec_injective(iat1, iat2);
        }
    }
}

/// Tokens issued to one identity at different issue times differ: the
/// claims embed the issue time, base64 is injective, and the dot that
/// separates the token's segments never occurs inside them.
pub proof fn lemma_tokens_differ_across_issue_times(
    sub: Seq<char>,
    email: Seq<char>,
    first: Seq<char>,
    last: Seq<char>,
    iat1: nat,
    exp1: nat,
    iat2: nat,
    exp2: nat,
    key: Seq<u8>,
)
    requires
        iat1 != iat2,
    ensures
        jwt_of(sub, email, first, last, iat1, exp1, key) != jwt_of(
            sub,
            email,
            first,
            last,
            iat2,
            exp2,
            key,
        ),
{
    let h = base64_spec(jwt_header_bytes(), true, false);
    let cl1 = jwt_claims_bytes(sub, email, first, last, iat1, exp1);
    let cl2 = jwt_claims_bytes(sub, email, first, last, iat2, exp2);
    let c1 = base64_spec(cl1, true, false);
    let c2 = base64_spec(cl2, true, false);
    lemma_claims_differ(sub, email, first, last, iat1, exp1, iat2, exp2);
    lemma_base64_unpadded_injective(cl1, cl2, true);
    lemma_base64_spec_no_dot(cl1, true);
    lemma_base64_spec_no_dot(cl2, true);
    let si1 = h + seq![46u8] + c1;
    let si2 = h + seq![46u8] + c2;
    let sig1 = base64_spec(hmac_sha256_of(key, si1), true, false);
    let sig2 = base64_spec(hmac_sha256_of(key, si2), true, false);
    let tok1 = jwt_of(sub, email, first, last, iat1, exp1, key);
    let tok2 = jwt_of(sub, email, first, last, iat2, exp2, key);
    assert(tok1 == si1 + seq![46u8] + sig1);
    assert(tok2 == si2 + seq![46u8] + sig2);
    let p = h + seq![46u8];
    let x1 = c1 + (seq![46u8] + sig1);
    let x2 = c2 + (seq![46u8] + sig2);
    assert(tok1 =~= p + x1);
    assert(tok2 =~= p + x2);
    if tok1 == tok2 {
        lemma_strip_prefix(p, x1, x2);
        if c1.len() == c2.len() {
            assert forall|j: int| 0 <= j < c1.len() implies c1[j] == c2[j] by {
                assert(x1[j] == c1[j]);
                assert(x2[j] == c2[j]);
            }
            assert(c1 =~= c2);
        } else if c1.len() < c2.len() {
            assert(x1[c1.len() as int] == (seq![46u8] + sig1)[0]);
            assert(x2[c1.len() as int] == c2[c1.len() as int]);
            assert(c2[c1.len() as int] != 46);
        } else {
            assert(x2[c2.len() as int] == (seq![46u8] + sig2)[0]);
            assert(x1[c2.len() as int] == c1[c2.len() as int]);
            assert(c1[c2.len() as int] != 46);
        }
    }
}

/// Issue a bearer token for a verified identity, valid from `iat` for
/// [`TOKEN_TTL_SECS`] seconds, signed under `key`. Issuance always
/// succeeds, and the encoded token is exactly the JWT of the identity's
/// public fields and the two times.
pub fn issue_token(identity: &Identity, iat: u64, key: &[u8]) -> (r: Result<
    IssuedToken,
    IssueError,
>)
    requires
        iat <= u64::MAX - TOKEN_TTL_SECS,
    ensures
        r is Ok,
        r matches Ok(t) ==> encode_utf8(t.encoded_token@) == jwt_of(
            identity.id@,
            identity.email@,
            identity.first_name@,
            identity.last_name@,
            iat as nat,
            (iat + TOKEN_TTL_SECS) as nat,
            key@,
        ),
        r matches Ok(t) ==> t.expires_at == iat + TOKEN_TTL_SECS,
{
    let exp = iat + TOKEN_TTL_SECS;
    let header: Vec<u8> = vec![
        123u8,
        34u8,
        97u8,
        108u8,
        103u8,
        34u8,
        58u8,
        34u8,
        72u8,
        83u8,
        50u8,
        53u8,
        54u8,
        34u8,
        44u8,
        34u8,
        116u8,
        121u8,
        112u8,
        34u8,
        58u8,
        34u8,
        74u8,
        87u8,
        84u8,
        34u8,
        125u8,
    ];
    proof {
        assert(header@ =~= jwt_header_bytes());
    }
    let sub_open: Vec<u8> = vec![123u8, 34u8, 115u8, 117u8, 98u8, 34u8, 58u8, 34u8];
    let email_mid: Vec<u8> = vec![
        34u8,
        44u8,
        34u8,
        101u8,
        109u8,
        97u8,
        105u8,
        108u8,
        34u8,
        58u8,
        34u8,
    ];
    let first_mid: Vec<u8> = vec![
        34u8,
        44u8,
        34u8,
        102u8,
        105u8,
        114u8,
        115u8,
        116u8,
        78u8,
        97u8,
        109u8,
        101u8,
        34u8,
        58u8,
        34u8,
    ];
    let last_mid: Vec<u8> = vec![
        34u8,
        44u8,
        34u8,
        108u8,
        97u8,
        115u8,
        116u8,
        78u8,
        97u8,
        109u8,
        101u8,
        34u8,
        58u8,
        34u8,
    ];
    let iat_mid: Vec<u8> = vec![34u8, 44u8, 34u8, 105u8, 97u8, 116u8, 34u8, 58u8];
    let exp_mid: Vec<u8> = vec![44u8, 34u8, 101u8, 120u8, 112u8, 34u8, 58u8];
    proof {
        assert(sub_open@ =~= jwt_sub_open());
        assert(email_mid@ =~= json_email_mid());
        assert(first_mid@ =~= json_first_mid());
        assert(last_mid@ =~= json_last_mid());
        assert(iat_mid@ =~= jwt_iat_mid());
        assert(exp_mid@ =~= jwt_exp_mid());
    }
    let mut claims: Vec<u8> = Vec::new();
    append_bytes(&mut claims, sub_open.as_slice());
    append_json_escaped(&mut claims, identity.id.as_str().as_bytes());
    append_bytes(&mut claims, email_mid.as_slice());
    append_json_escaped(&mut claims, identity.email.as_str().as_bytes());
    append_bytes(&mut claims, first_mid.as_slice());
    append_json_escaped(&mut claims, identity.first_name.as_str().as_bytes());
    append_bytes(&mut claims, last_mid.as_slice());
    append_json_escaped(&mut claims, identity.last_name.as_str().as_bytes());
    append_bytes(&mut claims, iat_mid.as_slice());
    append_decimal(&mut claims, iat);
    append_bytes(&mut claims, exp_mid.as_slice());
    append_decimal(&mut claims, exp);
    claims.push(125);
    let ghost claims_spec = jwt_claims_bytes(
        identity.id@,
        identity.email@,
        identity.first_name@,
        identity.last_name@,
        iat as nat,
        exp as nat,
    );
    proof {
        assert(claims@ =~= claims_spec);
    }
    let header_b64 = base64_encode(header.as_slice(), true, false);
    let claims_b64 = base64_encode(claims.as_slice(), true, false);
    let mut signing_input: Vec<u8> = Vec::new();
    append_bytes(&mut signing_input, header_b64.as_slice());
    signing_input.push(46);
    append_bytes(&mut signing_input, claims_b64.as_slice());
    let ghost si_spec = base64_spec(jwt_header_bytes(), true, false) + seq![46u8] + base64_spec(
        claims_spec,
        true,
        false,
    );
    proof {
        assert(signing_input@ =~= si_spec);
    }
    let tag = match hmac_sha256(key, signing_input.as_slice()) {
        Ok(t) => t,
        Err(e) => {
            return Err(e);
        },
    };
    let tag_b64 = base64_encode(tag.as_slice(), true, false);
    let mut token_bytes = signing_input;
    token_bytes.push(46);
    append_bytes(&mut token_bytes, tag_b64.as_slice());
    let ghost jwt_spec = jwt_of(
        identity.id@,
        identity.email@,
        identity.first_name@,
        identity.last_name@,
        iat as nat,
        (iat + TOKEN_TTL_SECS) as nat,
        key@,
    );
    proof {
        assert(token_bytes@ =~= jwt_spec);
        lemma_base64_spec_ascii(jwt_header_bytes(), true, false);
        lemma_base64_spec_ascii(claims_spec, true, false);
        lemma_base64_spec_ascii(hmac_sha256_of(key@, si_spec), true, false);
        assert(forall|i: int| 0 <= i < token_bytes@.len() ==> token_bytes@[i] < 0x80);
        lemma_ascii_valid_utf8(token_bytes@);
    }
    match bytes_to_string(token_bytes) {
        Some(encoded_token) => {
            proof {
                vstd::utf8::decode_utf8_encode_utf8(jwt_spec);
            }
            Ok(IssuedToken { encoded_token, expires_at: exp })
        },
        None => Err(IssueError::IssuanceFailed),
    }
}

} // verus!
