use auth_core::base64::base64_encode;
use auth_core::jsonenc::{append_bytes, append_decimal, append_json_escaped};

fn b64(input: &[u8], url: bool, pad: bool) -> String {
    String::from_utf8(base64_encode(input, url, pad)).unwrap()
}

#[test]
fn base64_standard_vectors() {
    assert_eq!(b64(b"", false, true), "");
    assert_eq!(b64(b"f", false, true), "Zg==");
    assert_eq!(b64(b"fo", false, true), "Zm8=");
    assert_eq!(b64(b"foo", false, true), "Zm9v");
    assert_eq!(b64(b"foob", false, true), "Zm9vYg==");
    assert_eq!(b64(b"fooba", false, true), "Zm9vYmE=");
    assert_eq!(b64(b"foobar", false, true), "Zm9vYmFy");
}

#[test]
fn base64_unpadded() {
    assert_eq!(b64(b"f", false, false), "Zg");
    assert_eq!(b64(b"fo", false, false), "Zm8");
    assert_eq!(b64(b"foo", false, false), "Zm9v");
}

#[test]
fn base64_url_alphabet() {
    assert_eq!(b64(&[0xff, 0xfe], false, true), "//4=");
    assert_eq!(b64(&[0xff, 0xfe], true, false), "__4");
    assert_eq!(b64(&[0xfb, 0xff], false, false), "+/8");
    assert_eq!(b64(&[0xfb, 0xff], true, false), "-_8");
}

#[test]
fn json_escaping() {
    let mut out: Vec<u8> = Vec::new();
    append_json_escaped(&mut out, b"a\"b\\c\nd");
    assert_eq!(out, b"a\\\"b\\\\c\\u000ad".to_vec());
}

#[test]
fn json_escaping_passes_multibyte_through() {
    let mut out: Vec<u8> = Vec::new();
    append_json_escaped(&mut out, "héllo".as_bytes());
    assert_eq!(out, "héllo".as_bytes().to_vec());
}

#[test]
fn json_escaping_control_bytes() {
    let mut out: Vec<u8> = Vec::new();
    append_json_escaped(&mut out, &[0x00, 0x1f, 0x20]);
    assert_eq!(out, b"\\u0000\\u001f ".to_vec());
}

#[test]
fn decimal_formatting() {
    let mut out: Vec<u8> = Vec::new();
    append_decimal(&mut out, 0);
    assert_eq!(out, b"0".to_vec());
    let mut out: Vec<u8> = Vec::new();
    append_decimal(&mut out, 1234567890);
    assert_eq!(out, b"1234567890".to_vec());
    let mut out: Vec<u8> = Vec::new();
    append_decimal(&mut out, u64::MAX);
    assert_eq!(out, b"18446744073709551615".to_vec());
}

#[test]
fn append_bytes_appends() {
    let mut out: Vec<u8> = vec![1, 2];
    append_bytes(&mut out, &[3, 4, 5]);
    assert_eq!(out, vec![1, 2, 3, 4, 5]);
}
