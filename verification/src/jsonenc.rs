//! Byte-level JSON string escaping and decimal number formatting, used for
//! the event payloads and the token claims. Working on the UTF-8 bytes is
//! sound: every byte that needs an escape is ASCII, and multi-byte sequences
//! pass through untouched.

use vstd::prelude::*;

verus! {

/// The ASCII byte for a hex digit value.
pub open spec fn hex_digit(v: int) -> u8 {
    if 0 <= v < 10 {
        (48 + v) as u8
    } else if 10 <= v < 16 {
        (97 + (v - 10)) as u8
    } else {
        48
    }
}

/// How one byte of a JSON string body is emitted: `"` and `\` get a
/// backslash escape, control bytes a `\u00XX` escape, all else is verbatim.
pub open spec fn json_escaped_byte(b: u8) -> Seq<u8> {
    if b == 0x22 {
        seq![0x5cu8, 0x22u8]
    } else if b == 0x5c {
        seq![0x5cu8, 0x5cu8]
    } else if b < 0x20 {
        seq![0x5cu8, 0x75u8, 0x30u8, 0x30u8, hex_digit((b >> 4) as int), hex_digit((b & 15) as int)]
    } else {
        seq![b]
    }
}

/// The JSON escaping of a whole string body, byte by byte.
pub open spec fn json_escaped(s: Seq<u8>) -> Seq<u8>
    decreases s.len(),
{
    if s.len() == 0 {
        Seq::<u8>::empty()
    } else {
        json_escaped_byte(s[0]) + json_escaped(s.skip(1))
    }
}

fn hex_digit_ex(v: u8) -> (r: u8)
    requires
        v < 16,
    ensures
        r == hex_digit(v as int),
{
    if v < 10 {
        48 + v
    } else {
        97 + (v - 10)
    }
}

/// Append the JSON escaping of `s` to `out`.
pub fn append_json_escaped(out: &mut Vec<u8>, s: &[u8])
    ensures
        final(out)@ == old(out)@ + json_escaped(s@),
{
    let mut i: usize = 0;
    proof {
        assert(s@.skip(0) =~= s@);
    }
    while i < s.len()
        invariant
            i <= s.len(),
            old(out)@ + json_escaped(s@) == out@ + json_escaped(s@.skip(i as int)),
        decreases s.len() - i,
    {
        let b = s[i];
        proof {
            assert(s@.skip(i as int)[0] == b);
            assert(s@.skip(i as int).skip(1) =~= s@.skip(i as int + 1));
        }
        if b == 0x22 {
            out.push(0x5c);
            out.push(0x22);
        } else if b == 0x5c {
            out.push(0x5c);
            out.push(0x5c);
        } else if b < 0x20 {
            out.push(0x5c);
            out.push(0x75);
            out.push(0x30);
            out.push(0x30);
            proof {
                assert(b >> 4 < 16 && b & 15 < 16) by (bit_vector);
            }
            out.push(hex_digit_ex(b >> 4));
            out.push(hex_digit_ex(b & 15));
        } else {
            out.push(b);
        }
        proof {
            assert(old(out)@ + json_escaped(s@) =~= out@ + json_escaped(s@.skip(i as int + 1)));
        }
        i = i + 1;
    }
    proof {
        assert(final(out)@ =~= old(out)@ + json_escaped(s@));
    }
}

/// The decimal digits of a natural number, most significant first.
pub open spec fn dec_spec(n: nat) -> Seq<u8>
    decreases n,
{
    if n < 10 {
        seq![(48 + n) as u8]
    } else {
        dec_spec(n / 10) + seq![(48 + n % 10) as u8]
    }
}

/// Every byte of a decimal rendering is an ASCII digit.
pub proof fn lemma_dec_spec_digits(n: nat)
    ensures
        forall|i: int| 0 <= i < dec_spec(n).len() ==> 48 <= #[trigger] dec_spec(n)[i] <= 57,
    decreases n,
{
    if n >= 10 {
        lemma_dec_spec_digits(n / 10);
        assert forall|i: int| 0 <= i < dec_spec(n).len() implies 48 <= #[trigger] dec_spec(n)[i]
            <= 57 by {
            if i < dec_spec(n / 10).len() {
                assert(dec_spec(n)[i] == dec_spec(n / 10)[i]);
            }
        }
    }
}

/// Distinct numbers have distinct decimal renderings.
pub proof fn lemma_dec_spec_injective(a: nat, b: nat)
    requires
        a != b,
    ensures
        dec_spec(a) != dec_spec(b),
    decreases a + b,
{
    if dec_spec(a) == dec_spec(b) {
        if a < 10 && b < 10 {
            assert(dec_spec(a)[0] == dec_spec(b)[0]);
        } else if a < 10 {
            assert(dec_spec(a).len() == 1);
            assert(dec_spec(b).len() == dec_spec(b / 10).len() + 1);
            assert(dec_spec(b / 10).len() >= 1);
        } else if b < 10 {
            assert(dec_spec(b).len() == 1);
            assert(dec_spec(a).len() == dec_spec(a / 10).len() + 1);
            assert(dec_spec(a / 10).len() >= 1);
        } else {
            assert(dec_spec(a).last() == dec_spec(b).last());
            assert(a % 10 == b % 10);
            assert(dec_spec(a).drop_last() =~= dec_spec(a / 10));
            assert(dec_spec(b).drop_last() =~= dec_spec(b / 10));
            if a / 10 != b / 10 {
                lemma_dec_spec_injective(a / 10, b / 10);
            }
            assert(a == 10 * (a / 10) + a % 10);
            assert(b == 10 * (b / 10) + b % 10);
        }
    }
}

/// Append the decimal form of `n` to `out`.
pub fn append_decimal(out: &mut Vec<u8>, n: u64)
    ensures
        final(out)@ == old(out)@ + dec_spec(n as nat),
    decreases n,
{
    if n >= 10 {
        append_decimal(out, n / 10);
    }
    out.push(48 + (n % 10) as u8);
    proof {
        assert(final(out)@ =~= old(out)@ + dec_spec(n as nat));
    }
}

/// Append every byte of `s` to `out`.
pub fn append_bytes(out: &mut Vec<u8>, s: &[u8])
    ensures
        final(out)@ == old(out)@ + s@,
{
    let mut i: usize = 0;
    while i < s.len()
        invariant
            i <= s.len(),
            out@ == old(out)@ + s@.take(i as int),
        decreases s.len() - i,
    {
        out.push(s[i]);
        proof {
            assert(old(out)@ + s@.take(i as int + 1) =~= (old(out)@ + s@.take(i as int)).push(
                s@[i as int],
            ));
        }
        i = i + 1;
    }
    proof {
        assert(s@.take(s@.len() as int) =~= s@);
    }
}

} // verus!
