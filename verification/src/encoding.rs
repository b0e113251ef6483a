//! Percent-encoding of resource path segments.
//!
//! Resource names (virtual hosts, queue names, and so on) may contain `/`,
//! spaces and other reserved characters, so every name is percent-encoded
//! before it is inserted into a request path.  The encoding is the
//! conservative one: every byte that is not an ASCII letter or digit is
//! written as `%` followed by two uppercase hexadecimal digits.

use vstd::prelude::*;
use vstd::string::StringSliceAdditionalSpecFns;

verus! {

/// A byte that the encoder leaves as it is: an ASCII letter or digit.
pub open spec fn is_unreserved_byte(b: u8) -> bool {
    (0x30 <= b <= 0x39) || (0x41 <= b <= 0x5a) || (0x61 <= b <= 0x7a)
}

/// The uppercase hexadecimal digit (as an ASCII byte) for a value below 16.
pub open spec fn hex_upper_byte(v: u8) -> u8 {
    if v < 10 {
        (0x30 + v as int) as u8
    } else {
        (0x37 + v as int) as u8
    }
}

/// The percent-encoding of one byte, as ASCII bytes.
pub open spec fn pct_byte(b: u8) -> Seq<u8> {
    if is_unreserved_byte(b) {
        seq![b]
    } else {
        seq![0x25u8, hex_upper_byte(b / 16), hex_upper_byte(b % 16)]
    }
}

/// The percent-encoding of a byte string, as ASCII bytes.
pub open spec fn pct_bytes(bytes: Seq<u8>) -> Seq<u8>
    decreases bytes.len(),
{
    if bytes.len() == 0 {
        Seq::empty()
    } else {
        pct_byte(bytes[0]) + pct_bytes(bytes.drop_first())
    }
}

/// Lifts a sequence of ASCII bytes to the characters of a string.
pub open spec fn ascii_chars(bytes: Seq<u8>) -> Seq<char> {
    Seq::new(bytes.len(), |i: int| bytes[i] as char)
}

/// The percent-encoding of a byte string, as the characters of a string.
pub open spec fn pct_chars(bytes: Seq<u8>) -> Seq<char> {
    ascii_chars(pct_bytes(bytes))
}

/// Relies on `percent_encoding::percent_encode` with the `NON_ALPHANUMERIC`
/// set: every byte that is not an ASCII letter or digit is replaced by `%`
/// and two uppercase hexadecimal digits, and every other byte stands as
/// itself.
#[verifier::external_body]
fn percent_encode_raw(value: &[u8]) -> (r: String)
    ensures
        r@ == pct_chars(value@),
{
    percent_encoding::percent_encode(value, percent_encoding::NON_ALPHANUMERIC).to_string()
}

/// Percent-encodes a resource name for use as a single path segment.
pub fn percent_encode(value: &str) -> (r: String)
    ensures
        r@ == pct_chars(value.spec_bytes()),
{
    percent_encode_raw(value.as_bytes())
}

/// An ASCII byte that stands for a hexadecimal digit, in either case.
pub open spec fn is_hex_byte(b: u8) -> bool {
    (0x30 <= b <= 0x39) || (0x41 <= b <= 0x46) || (0x61 <= b <= 0x66)
}

/// The value of a hexadecimal digit byte.
pub open spec fn hex_value(b: u8) -> u8 {
    if 0x30 <= b <= 0x39 {
        (b - 0x30) as u8
    } else if 0x41 <= b <= 0x46 {
        (b - 0x37) as u8
    } else {
        (b - 0x57) as u8
    }
}

/// Decodes a percent-encoded byte string; `None` when the input is not a
/// well-formed encoding (a `%` without two hexadecimal digits, or a byte
/// outside the ASCII range).
pub open spec fn pct_decode_bytes(s: Seq<u8>) -> Option<Seq<u8>>
    decreases s.len(),
{
    if s.len() == 0 {
        Some(Seq::empty())
    } else if s[0] == 0x25 {
        if s.len() >= 3 && is_hex_byte(s[1]) && is_hex_byte(s[2]) {
            match pct_decode_bytes(s.skip(3)) {
                Some(rest) => Some(seq![(hex_value(s[1]) * 16 + hex_value(s[2])) as u8] + rest),
                None => None,
            }
        } else {
            None
        }
    } else if s[0] < 0x80 {
        match pct_decode_bytes(s.skip(1)) {
            Some(rest) => Some(seq![s[0]] + rest),
            None => None,
        }
    } else {
        None
    }
}

/// Decodes a percent-encoded path segment back into the bytes of the name.
pub fn percent_decode(input: &[u8]) -> (r: Option<Vec<u8>>)
    ensures
        match r {
            Some(v) => pct_decode_bytes(input@) == Some(v@),
            None => pct_decode_bytes(input@) is None,
        },
{
    let mut out: Vec<u8> = Vec::new();
    let mut i: usize = 0;
    proof {
        assert(input@.skip(0) =~= input@);
        match pct_decode_bytes(input@) {
            Some(rest) => {
                assert(Seq::<u8>::empty() + rest =~= rest);
            },
            None => {},
        }
    }
    while i < input.len()
        invariant
            i <= input.len(),
            pct_decode_bytes(input@) == match pct_decode_bytes(input@.skip(i as int)) {
                Some(rest) => Some(out@ + rest),
                None => None::<Seq<u8>>,
            },
        decreases input.len() - i,
    {
        let b = input[i];
        proof {
            assert(input@.skip(i as int)[0] == b);
        }
        if b == 0x25 {
            if input.len() - i > 2 && hex_byte_value(input[i + 1]).is_some() && hex_byte_value(
                input[i + 2],
            ).is_some() {
                let hi = hex_byte_value(input[i + 1]).unwrap();
                let lo = hex_byte_value(input[i + 2]).unwrap();
                proof {
                    assert(input@.skip(i as int)[1] == input@[i + 1]);
                    assert(input@.skip(i as int)[2] == input@[i + 2]);
                    assert(input@.skip(i as int).skip(3) =~= input@.skip(i + 3));
                }
                let ghost prev = out@;
                out.push(hi * 16 + lo);
                i = i + 3;
                proof {
                    match pct_decode_bytes(input@.skip(i as int)) {
                        Some(rest) => {
                            assert(prev + (seq![(hi * 16 + lo) as u8] + rest) =~= out@ + rest);
                        },
                        None => {},
                    }
                }
            } else {
                proof {
                    if input.len() - i > 2 {
                        assert(input@.skip(i as int)[1] == input@[i + 1]);
                        assert(input@.skip(i as int)[2] == input@[i + 2]);
                    }
                }
                return None;
            }
        } else if b < 0x80 {
            proof {
                assert(input@.skip(i as int).skip(1) =~= input@.skip(i + 1));
            }
            let ghost prev = out@;
            out.push(b);
            i = i + 1;
            proof {
                match pct_decode_bytes(input@.skip(i as int)) {
                    Some(rest) => {
                        assert(prev + (seq![b] + rest) =~= out@ + rest);
                    },
                    None => {},
                }
            }
        } else {
            return None;
        }
    }
    proof {
        assert(input@.skip(input@.len() as int) =~= Seq::<u8>::empty());
        assert(out@ + Seq::<u8>::empty() =~= out@);
    }
    Some(out)
}

/// Percent-encoding round-trips: decoding the encoding of any byte string
/// gives the original bytes back, so a name used as a path segment reaches
/// the server unchanged.
pub proof fn lemma_pct_round_trip(b: Seq<u8>)
    ensures
        pct_decode_bytes(pct_bytes(b)) == Some(b),
    decreases b.len(),
{
    if b.len() == 0 {
        assert(b =~= Seq::<u8>::empty());
    } else {
        let e0 = pct_byte(b[0]);
        let rest = pct_bytes(b.drop_first());
        let enc = pct_bytes(b);
        lemma_pct_round_trip(b.drop_first());
        if is_unreserved_byte(b[0]) {
            assert(enc[0] == b[0]);
            assert(enc.skip(1) =~= rest);
            assert(seq![b[0]] + b.drop_first() =~= b);
        } else {
            let hi = hex_upper_byte(b[0] / 16);
            let lo = hex_upper_byte(b[0] % 16);
            assert(enc[0] == 0x25u8);
            assert(enc[1] == hi);
            assert(enc[2] == lo);
            assert(enc.skip(3) =~= rest);
            assert(hex_value(hi) == b[0] / 16);
            assert(hex_value(lo) == b[0] % 16);
            assert((b[0] / 16) * 16 + b[0] % 16 == b[0]) by (nonlinear_arith);
            assert(seq![(hex_value(enc[1]) * 16 + hex_value(enc[2])) as u8] + b.drop_first() =~= b);
        }
    }
}

/// Every byte of an encoded segment is an ASCII letter, an ASCII digit, or
/// `%`; in particular no `/` and no space survives encoding, so an encoded
/// name always stays a single path segment.
pub proof fn lemma_pct_single_segment(b: Seq<u8>)
    ensures
        forall|i: int|
            0 <= i < pct_bytes(b).len() ==> is_unreserved_byte(#[trigger] pct_bytes(b)[i])
                || pct_bytes(b)[i] == 0x25,
    decreases b.len(),
{
    if b.len() != 0 {
        lemma_pct_single_segment(b.drop_first());
        let e0 = pct_byte(b[0]);
        let rest = pct_bytes(b.drop_first());
        assert forall|i: int| 0 <= i < pct_bytes(b).len() implies is_unreserved_byte(
            #[trigger] pct_bytes(b)[i],
        ) || pct_bytes(b)[i] == 0x25 by {
            if i < e0.len() {
                assert(pct_bytes(b)[i] == e0[i]);
            } else {
                assert(pct_bytes(b)[i] == rest[i - e0.len()]);
            }
        }
    }
}

/// Percent-encoding is injective: distinct names have distinct encodings.
pub proof fn lemma_pct_injective(a: Seq<u8>, b: Seq<u8>)
    requires
        pct_bytes(a) == pct_bytes(b),
    ensures
        a == b,
{
    lemma_pct_round_trip(a);
    lemma_pct_round_trip(b);
}

/// Lifting distinct ASCII byte strings gives distinct character strings.
pub proof fn lemma_ascii_chars_injective(a: Seq<u8>, b: Seq<u8>)
    requires
        ascii_chars(a) == ascii_chars(b),
    ensures
        a == b,
{
    assert(ascii_chars(a).len() == a.len());
    assert(ascii_chars(b).len() == b.len());
    assert(a.len() == b.len());
    assert forall|i: int| 0 <= i < a.len() implies a[i] == b[i] by {
        assert(ascii_chars(a)[i] == a[i] as char);
        assert(ascii_chars(b)[i] == b[i] as char);
        assert((a[i] as char) as u8 == a[i]);
        assert((b[i] as char) as u8 == b[i]);
    }
    assert(a =~= b);
}

/// No `/` and no space survives encoding: every character of an encoded
/// segment is a letter, a digit or `%`, so an encoded name always stays
/// one path segment.
pub proof fn lemma_encoded_segment_stays_single(b: Seq<u8>)
    ensures
        forall|i: int|
            0 <= i < pct_chars(b).len() ==> #[trigger] pct_chars(b)[i] != '/' && pct_chars(b)[i]
                != ' ',
{
    lemma_pct_single_segment(b);
    assert forall|i: int| 0 <= i < pct_chars(b).len() implies #[trigger] pct_chars(b)[i] != '/'
        && pct_chars(b)[i] != ' ' by {
        let x = pct_bytes(b)[i];
        assert(pct_chars(b)[i] == x as char);
        assert((x as char) as u8 == x);
        assert(('/' as u8) == 0x2f && (' ' as u8) == 0x20);
        assert(is_unreserved_byte(x) || x == 0x25);
    }
}

/// The value of a hexadecimal digit byte, in either case.
fn hex_byte_value(b: u8) -> (r: Option<u8>)
    ensures
        r is Some <==> is_hex_byte(b),
        r is Some ==> r == Some(hex_value(b)),
{
    if 0x30 <= b && b <= 0x39 {
        Some(b - 0x30)
    } else if 0x41 <= b && b <= 0x46 {
        Some(b - 0x37)
    } else if 0x61 <= b && b <= 0x66 {
        Some(b - 0x57)
    } else {
        None
    }
}

} // verus!
