//! Base64 encoding (standard and URL-safe alphabets, with or without
//! padding), specified byte-for-byte and verified.

use vstd::prelude::*;

verus! {

/// The base64 character (as an ASCII byte) for a 6-bit value.
pub open spec fn b64_digit(v: int, url: bool) -> u8 {
    if 0 <= v < 26 {
        (65 + v) as u8
    } else if 26 <= v < 52 {
        (97 + (v - 26)) as u8
    } else if 52 <= v < 62 {
        (48 + (v - 52)) as u8
    } else if v == 62 {
        if url {
            45
        } else {
            43
        }
    } else {
        if url {
            95
        } else {
            47
        }
    }
}

/// Base64 encoding of a byte sequence, three input bytes to four output
/// characters, with `=` padding only when `pad` is set.
pub open spec fn base64_spec(s: Seq<u8>, url: bool, pad: bool) -> Seq<u8>
    decreases s.len(),
{
    if s.len() == 0 {
        Seq::<u8>::empty()
    } else if s.len() == 1 {
        let b0 = s[0];
        seq![b64_digit((b0 >> 2) as int, url), b64_digit(((b0 & 3) << 4) as int, url)] + (if pad {
            seq![61u8, 61u8]
        } else {
            Seq::<u8>::empty()
        })
    } else if s.len() == 2 {
        let b0 = s[0];
        let b1 = s[1];
        seq![
            b64_digit((b0 >> 2) as int, url),
            b64_digit((((b0 & 3) << 4) | (b1 >> 4)) as int, url),
            b64_digit(((b1 & 15) << 2) as int, url),
        ] + (if pad {
            seq![61u8]
        } else {
            Seq::<u8>::empty()
        })
    } else {
        let b0 = s[0];
        let b1 = s[1];
        let b2 = s[2];
        seq![
            b64_digit((b0 >> 2) as int, url),
            b64_digit((((b0 & 3) << 4) | (b1 >> 4)) as int, url),
            b64_digit((((b1 & 15) << 2) | (b2 >> 6)) as int, url),
            b64_digit((b2 & 63) as int, url),
        ] + base64_spec(s.skip(3), url, pad)
    }
}

/// Every base64 character is printable ASCII.
proof fn lemma_b64_digit_ascii(url: bool)
    ensures
        forall|v: int| #[trigger] b64_digit(v, url) < 0x80,
{
}

/// Every byte of a base64 encoding is printable ASCII.
pub proof fn lemma_base64_spec_ascii(s: Seq<u8>, url: bool, pad: bool)
    ensures
        forall|i: int| 0 <= i < base64_spec(s, url, pad).len() ==> base64_spec(s, url, pad)[i] < 0x80,
    decreases s.len(),
{
    lemma_b64_digit_ascii(url);
    if s.len() > 2 {
        lemma_base64_spec_ascii(s.skip(3), url, pad);
    }
    assert forall|i: int| 0 <= i < base64_spec(s, url, pad).len() implies base64_spec(s, url, pad)[i]
        < 0x80 by {
        if s.len() > 2 && i >= 4 {
            assert(base64_spec(s, url, pad)[i] == base64_spec(s.skip(3), url, pad)[i - 4]);
        }
    }
}

/// Distinct six-bit values map to distinct base64 characters, and none of
/// them is the dot that separates the segments of a token.
pub proof fn lemma_b64_digit_distinct(url: bool)
    ensures
        forall|v: int, w: int|
            0 <= v < 64 && 0 <= w < 64 && v != w ==> b64_digit(v, url) != b64_digit(w, url),
        forall|v: int| #[trigger] b64_digit(v, url) != 46,
{
}

/// No byte of an unpadded base64 encoding is the dot (0x2e).
pub proof fn lemma_base64_spec_no_dot(s: Seq<u8>, url: bool)
    ensures
        forall|i: int|
            0 <= i < base64_spec(s, url, false).len() ==> #[trigger] base64_spec(s, url, false)[i]
                != 46,
    decreases s.len(),
{
    lemma_b64_digit_distinct(url);
    if s.len() > 2 {
        lemma_base64_spec_no_dot(s.skip(3), url);
    }
    assert forall|i: int| 0 <= i < base64_spec(s, url, false).len() implies #[trigger] base64_spec(
        s,
        url,
        false,
    )[i] != 46 by {
        if s.len() > 2 && i >= 4 {
            assert(base64_spec(s, url, false)[i] == base64_spec(s.skip(3), url, false)[i - 4]);
        }
    }
}

/// Distinct byte sequences have distinct unpadded base64 encodings.
pub proof fn lemma_base64_unpadded_injective(s1: Seq<u8>, s2: Seq<u8>, url: bool)
    requires
        s1 != s2,
    ensures
        base64_spec(s1, url, false) != base64_spec(s2, url, false),
    decreases s1.len(),
{
    lemma_b64_digit_distinct(url);
    let o1 = base64_spec(s1, url, false);
    let o2 = base64_spec(s2, url, false);
    if o1 == o2 {
        if s1.len() == 0 || s2.len() == 0 {
            // A nonempty input has a nonempty encoding, so both are empty.
            assert(s1 =~= s2);
        } else if s1.len() == 1 && s2.len() == 1 {
            let b0 = s1[0];
            let c0 = s2[0];
            lemma_six_bits(b0, 0, 0);
            lemma_six_bits(c0, 0, 0);
            assert(o1[0] == o2[0] && o1[1] == o2[1]);
            assert(b0 >> 2 == c0 >> 2 && (b0 & 3) << 4 == (c0 & 3) << 4 ==> b0 == c0)
                by (bit_vector);
            assert(s1 =~= s2);
        } else if s1.len() == 2 && s2.len() == 2 {
            let b0 = s1[0];
            let b1 = s1[1];
            let c0 = s2[0];
            let c1 = s2[1];
            lemma_six_bits(b0, b1, 0);
            lemma_six_bits(c0, c1, 0);
            assert(o1[0] == o2[0] && o1[1] == o2[1] && o1[2] == o2[2]);
            assert(b0 >> 2 == c0 >> 2 && ((b0 & 3) << 4) | (b1 >> 4) == ((c0 & 3) << 4) | (c1 >> 4)
                && (b1 & 15) << 2 == (c1 & 15) << 2 ==> b0 == c0 && b1 == c1) by (bit_vector);
            assert(s1 =~= s2);
        } else if s1.len() >= 3 && s2.len() >= 3 {
            let b0 = s1[0];
            let b1 = s1[1];
            let b2 = s1[2];
            let c0 = s2[0];
            let c1 = s2[1];
            let c2 = s2[2];
            lemma_six_bits(b0, b1, b2);
            lemma_six_bits(c0, c1, c2);
            assert(o1[0] == o2[0] && o1[1] == o2[1] && o1[2] == o2[2] && o1[3] == o2[3]);
            assert(b0 >> 2 == c0 >> 2 && ((b0 & 3) << 4) | (b1 >> 4) == ((c0 & 3) << 4) | (c1 >> 4)
                && ((b1 & 15) << 2) | (b2 >> 6) == ((c1 & 15) << 2) | (c2 >> 6) && b2 & 63 == c2
                & 63 ==> b0 == c0 && b1 == c1 && b2 == c2) by (bit_vector);
            let r1 = base64_spec(s1.skip(3), url, false);
            let r2 = base64_spec(s2.skip(3), url, false);
            assert(r1.len() == o1.len() - 4 && r2.len() == o2.len() - 4);
            assert forall|j: int| 0 <= j < r1.len() implies r1[j] == r2[j] by {
                assert(o1[4 + j] == r1[j]);
                assert(o2[4 + j] == r2[j]);
            }
            assert(r1 =~= r2);
            if s1.skip(3) != s2.skip(3) {
                lemma_base64_unpadded_injective(s1.skip(3), s2.skip(3), url);
            }
            assert forall|i: int| 0 <= i < s1.len() implies s1[i] == s2[i] by {
                if i >= 3 {
                    assert(s1[i] == s1.skip(3)[i - 3]);
                    assert(s2[i] == s2.skip(3)[i - 3]);
                }
            }
            assert(s1 =~= s2);
        } else {
            // Encodings of inputs of length 1, 2 and 3-or-more have output
            // lengths 2, 3 and at least 4: the cases cannot be confused.
            assert(s1.len() >= 3 ==> o1.len() >= 4);
            assert(s2.len() >= 3 ==> o2.len() >= 4);
        }
    }
}

proof fn lemma_six_bits(b0: u8, b1: u8, b2: u8)
    ensures
        b0 >> 2 < 64,
        ((b0 & 3) << 4) | (b1 >> 4) < 64,
        ((b1 & 15) << 2) | (b2 >> 6) < 64,
        b2 & 63 < 64,
        (b0 & 3) << 4 < 64,
        (b1 & 15) << 2 < 64,
{
    assert(b0 >> 2 < 64 && ((b0 & 3) << 4) | (b1 >> 4) < 64 && ((b1 & 15) << 2) | (b2 >> 6) < 64
        && b2 & 63 < 64 && (b0 & 3) << 4 < 64 && (b1 & 15) << 2 < 64) by (bit_vector);
}

fn b64_digit_ex(v: u8, url: bool) -> (r: u8)
    requires
        v < 64,
    ensures
        r == b64_digit(v as int, url),
{
    if v < 26 {
        65 + v
    } else if v < 52 {
        97 + (v - 26)
    } else if v < 62 {
        48 + (v - 52)
    } else if v == 62 {
        if url {
            45
        } else {
            43
        }
    } else {
        if url {
            95
        } else {
            47
        }
    }
}

/// Base64-encode `input`, with the URL-safe alphabet when `url` is set and
/// with `=` padding when `pad` is set.
pub fn base64_encode(input: &[u8], url: bool, pad: bool) -> (r: Vec<u8>)
    ensures
        r@ == base64_spec(input@, url, pad),
{
    let mut out: Vec<u8> = Vec::new();
    let mut i: usize = 0;
    proof {
        assert(input@.skip(0) =~= input@);
    }
    while input.len() - i >= 3
        invariant
            i <= input.len(),
            base64_spec(input@, url, pad) == out@ + base64_spec(input@.skip(i as int), url, pad),
        decreases input.len() - i,
    {
        let b0 = input[i];
        let b1 = input[i + 1];
        let b2 = input[i + 2];
        proof {
            lemma_six_bits(b0, b1, b2);
            assert(input@.skip(i as int).len() >= 3);
            assert(input@.skip(i as int)[0] == b0);
            assert(input@.skip(i as int)[1] == b1);
            assert(input@.skip(i as int)[2] == b2);
            assert(input@.skip(i as int).skip(3) =~= input@.skip(i as int + 3));
        }
        out.push(b64_digit_ex(b0 >> 2, url));
        out.push(b64_digit_ex(((b0 & 3) << 4) | (b1 >> 4), url));
        out.push(b64_digit_ex(((b1 & 15) << 2) | (b2 >> 6), url));
        out.push(b64_digit_ex(b2 & 63, url));
        proof {
            assert(base64_spec(input@, url, pad) == out@ + base64_spec(
                input@.skip(i as int + 3),
                url,
                pad,
            )) by {
                assert(base64_spec(input@, url, pad) =~= out@ + base64_spec(
                    input@.skip(i as int + 3),
                    url,
                    pad,
                ));
            }
        }
        i = i + 3;
    }
    if input.len() - i == 1 {
        let b0 = input[i];
        proof {
            lemma_six_bits(b0, 0, 0);
            assert(input@.skip(i as int).len() == 1);
            assert(input@.skip(i as int)[0] == b0);
        }
        out.push(b64_digit_ex(b0 >> 2, url));
        out.push(b64_digit_ex((b0 & 3) << 4, url));
        if pad {
            out.push(61);
            out.push(61);
        }
    } else if input.len() - i == 2 {
        let b0 = input[i];
        let b1 = input[i + 1];
        proof {
            lemma_six_bits(b0, b1, 0);
            assert(input@.skip(i as int).len() == 2);
            assert(input@.skip(i as int)[0] == b0);
            assert(input@.skip(i as int)[1] == b1);
        }
        out.push(b64_digit_ex(b0 >> 2, url));
        out.push(b64_digit_ex(((b0 & 3) << 4) | (b1 >> 4), url));
        out.push(b64_digit_ex((b1 & 15) << 2, url));
        if pad {
            out.push(61);
        }
    } else {
        proof {
            assert(input@.skip(i as int).len() == 0);
        }
    }
    proof {
        assert(out@ =~= base64_spec(input@, url, pad));
    }
    out
}

} // verus!
