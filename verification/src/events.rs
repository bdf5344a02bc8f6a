//! Building the identity event handed to the bus: a JSON document over the
//! persisted identity's public fields, specified byte-for-byte.

use vstd::prelude::*;

use crate::jsonenc::{append_bytes, append_json_escaped, json_escaped};
use crate::model::{Identity, IdentityEvent, MqTopic};

verus! {

/// The bytes of `{"id":"`.
pub open spec fn json_id_open() -> Seq<u8> {
    seq![123u8, 34u8, 105u8, 100u8, 34u8, 58u8, 34u8]
}

/// The bytes of `","email":"`.
pub open spec fn json_email_mid() -> Seq<u8> {
    seq![34u8, 44u8, 34u8, 101u8, 109u8, 97u8, 105u8, 108u8, 34u8, 58u8, 34u8]
}

/// The bytes of `","firstName":"`.
pub open spec fn json_first_mid() -> Seq<u8> {
    seq![
        34u8,
        44u8,
        34u8,
        102u8,
        105u8,
        114u8,
        115u8,
        116u8,
        78u8,
        97u8,
        109u8,
        101u8,
        34u8,
        58u8,
        34u8,
    ]
}

/// The bytes of `","lastName":"`.
pub open spec fn json_last_mid() -> Seq<u8> {
    seq![34u8, 44u8, 34u8, 108u8, 97u8, 115u8, 116u8, 78u8, 97u8, 109u8, 101u8, 34u8, 58u8, 34u8]
}

/// The bytes of `"}`.
pub open spec fn json_str_close() -> Seq<u8> {
    seq![34u8, 125u8]
}

/// The event payload for an identity: the JSON document
/// `{"id":"…","email":"…","firstName":"…","lastName":"…"}` over the UTF-8
/// bytes of the four fields, each JSON-escaped.
pub open spec fn payload_spec(
    id: Seq<char>,
    email: Seq<char>,
    first: Seq<char>,
    last: Seq<char>,
) -> Seq<u8> {
    json_id_open() + json_escaped(vstd::utf8::encode_utf8(id)) + json_email_mid() + json_escaped(
        vstd::utf8::encode_utf8(email),
    ) + json_first_mid() + json_escaped(vstd::utf8::encode_utf8(first)) + json_last_mid()
        + json_escaped(vstd::utf8::encode_utf8(last)) + json_str_close()
}

/// Build the payload bytes for an identity.
pub fn build_payload(identity: &Identity) -> (r: Vec<u8>)
    ensures
        r@ == payload_spec(
            identity.id@,
            identity.email@,
            identity.first_name@,
            identity.last_name@,
        ),
{
    let mut out: Vec<u8> = Vec::new();
    let id_open: Vec<u8> = vec![123u8, 34u8, 105u8, 100u8, 34u8, 58u8, 34u8];
    let email_mid: Vec<u8> = vec![
        34u8,
        44u8,
        34u8,
        101u8,
        109u8,
        97u8,
        105u8,
        108u8,
        34u8,
        58u8,
        34u8,
    ];
    let first_mid: Vec<u8> = vec![
        34u8,
        44u8,
        34u8,
        102u8,
        105u8,
        114u8,
        115u8,
        116u8,
        78u8,
        97u8,
        109u8,
        101u8,
        34u8,
        58u8,
        34u8,
    ];
    let last_mid: Vec<u8> = vec![
        34u8,
        44u8,
        34u8,
        108u8,
        97u8,
        115u8,
        116u8,
        78u8,
        97u8,
        109u8,
        101u8,
        34u8,
        58u8,
        34u8,
    ];
    let str_close: Vec<u8> = vec![34u8, 125u8];
    proof {
        assert(id_open@ =~= json_id_open());
        assert(email_mid@ =~= json_email_mid());
        assert(first_mid@ =~= json_first_mid());
        assert(last_mid@ =~= json_last_mid());
        assert(str_close@ =~= json_str_close());
    }
    append_bytes(&mut out, id_open.as_slice());
    append_json_escaped(&mut out, identity.id.as_str().as_bytes());
    append_bytes(&mut out, email_mid.as_slice());
    append_json_escaped(&mut out, identity.email.as_str().as_bytes());
    append_bytes(&mut out, first_mid.as_slice());
    append_json_escaped(&mut out, identity.first_name.as_str().as_bytes());
    append_bytes(&mut out, last_mid.as_slice());
    append_json_escaped(&mut out, identity.last_name.as_str().as_bytes());
    append_bytes(&mut out, str_close.as_slice());
    proof {
        assert(out@ =~= payload_spec(
            identity.id@,
            identity.email@,
            identity.first_name@,
            identity.last_name@,
        ));
    }
    out
}

/// Build the event for an identity under a topic and an ordering key.
pub fn build_event(topic: MqTopic, key: String, identity: &Identity) -> (ev: IdentityEvent)
    ensures
        ev.topic == topic,
        ev.key == key,
        ev.payload@ == payload_spec(
            identity.id@,
            identity.email@,
            identity.first_name@,
            identity.last_name@,
        ),
{
    IdentityEvent { topic, key, payload: build_payload(identity) }
}

} // verus!
