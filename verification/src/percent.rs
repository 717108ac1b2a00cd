//! Percent-encoding of a query parameter value.
//!
//! Hand-written rather than taken from a crate: the unreserved set is four lines, and the
//! encoding is proved to round-trip below.

use vstd::prelude::*;
use vstd::utf8::encode_utf8;

use crate::text::push_char;

verus! {

/// The bytes that travel as themselves: `A-Z a-z 0-9 - _ . ~`.
pub open spec fn unreserved(b: u8) -> bool {
    ||| (0x41 <= b && b <= 0x5a)
    ||| (0x61 <= b && b <= 0x7a)
    ||| (0x30 <= b && b <= 0x39)
    ||| b == 0x2d
    ||| b == 0x5f
    ||| b == 0x2e
    ||| b == 0x7e
}

/// The upper-case hexadecimal digit for `n < 16`.
pub open spec fn hex_digit(n: u8) -> char {
    if n < 10 {
        ((n as u32) + 0x30) as char
    } else {
        ((n as u32) + 0x37) as char
    }
}

/// The value of a hexadecimal digit.
pub open spec fn hex_value(c: char) -> int {
    if '0' <= c && c <= '9' {
        (c as int) - 0x30
    } else if 'A' <= c && c <= 'F' {
        (c as int) - 0x37
    } else if 'a' <= c && c <= 'f' {
        (c as int) - 0x57
    } else {
        0
    }
}

/// How one byte is written: itself when unreserved, `%XX` otherwise.
pub open spec fn encode_byte(b: u8) -> Seq<char> {
    if unreserved(b) {
        seq![(b as u32) as char]
    } else {
        seq!['%', hex_digit(b / 16), hex_digit(b % 16)]
    }
}

/// The percent-encoding of `bytes`.
pub open spec fn percent_encoded(bytes: Seq<u8>) -> Seq<char>
    decreases bytes.len(),
{
    if bytes.len() == 0 {
        Seq::empty()
    } else {
        encode_byte(bytes[0]) + percent_encoded(bytes.drop_first())
    }
}

/// Percent-decoding: `%XX` becomes the byte `XX`, anything else the byte of its character.
pub open spec fn percent_decoded(s: Seq<char>) -> Seq<u8>
    decreases s.len(),
{
    if s.len() == 0 {
        Seq::empty()
    } else if s[0] == '%' && s.len() >= 3 {
        seq![(hex_value(s[1]) * 16 + hex_value(s[2])) as u8] + percent_decoded(s.skip(3))
    } else {
        seq![(s[0] as u32) as u8] + percent_decoded(s.drop_first())
    }
}

/// Whether a character may stand in a query parameter value without ending it or
/// changing its meaning: an unreserved character, `%`, or an upper-case hex digit.
pub open spec fn query_safe(c: char) -> bool {
    ||| c == '%'
    ||| (c as u32) < 128 && unreserved((c as u32) as u8)
}

proof fn lemma_encoded_append(a: Seq<u8>, b: Seq<u8>)
    ensures
        percent_encoded(a + b) == percent_encoded(a) + percent_encoded(b),
    decreases a.len(),
{
    if a.len() == 0 {
        assert(a + b == b);
        assert(percent_encoded(a) + percent_encoded(b) == percent_encoded(b));
    } else {
        assert((a + b).drop_first() == a.drop_first() + b);
        lemma_encoded_append(a.drop_first(), b);
        assert(encode_byte(a[0]) + (percent_encoded(a.drop_first()) + percent_encoded(b))
            == (encode_byte(a[0]) + percent_encoded(a.drop_first())) + percent_encoded(b));
    }
}

proof fn lemma_hex_digit(n: u8)
    requires
        n < 16,
    ensures
        hex_value(hex_digit(n)) == n,
        ('0' <= hex_digit(n) && hex_digit(n) <= '9') || ('A' <= hex_digit(n) && hex_digit(n)
            <= 'F'),
{
}

/// Decoding undoes encoding: the encoded text carries exactly the bytes that were encoded.
pub proof fn lemma_percent_round_trip(bytes: Seq<u8>)
    ensures
        percent_decoded(percent_encoded(bytes)) == bytes,
    decreases bytes.len(),
{
    if bytes.len() > 0 {
        let b = bytes[0];
        let rest = bytes.drop_first();
        lemma_percent_round_trip(rest);
        let e = encode_byte(b) + percent_encoded(rest);
        if unreserved(b) {
            assert(e[0] != '%');
            assert(e.drop_first() == percent_encoded(rest));
            assert(percent_decoded(e) == seq![b] + rest);
        } else {
            lemma_hex_digit(b / 16);
            lemma_hex_digit(b % 16);
            assert(e.skip(3) == percent_encoded(rest));
            assert((hex_value(e[1]) * 16 + hex_value(e[2])) as u8 == b);
            assert(percent_decoded(e) == seq![b] + rest);
        }
        assert(seq![b] + rest == bytes);
    }
}

/// Every character of an encoding is query-safe: the encoded value cannot end the
/// parameter (`&`, `#`), start another (`=`), or carry a space.
pub proof fn lemma_percent_encoded_safe(bytes: Seq<u8>)
    ensures
        forall|i: int|
            0 <= i < percent_encoded(bytes).len() ==> query_safe(#[trigger] percent_encoded(bytes)[i]),
    decreases bytes.len(),
{
    if bytes.len() > 0 {
        let b = bytes[0];
        lemma_percent_encoded_safe(bytes.drop_first());
        if !unreserved(b) {
            lemma_hex_digit(b / 16);
            lemma_hex_digit(b % 16);
        }
        let e = encode_byte(b);
        let r = percent_encoded(bytes.drop_first());
        assert forall|i: int| 0 <= i < (e + r).len() implies query_safe(#[trigger] (e + r)[i]) by {
            if i >= e.len() {
                assert((e + r)[i] == r[i - e.len()]);
            }
        }
    }
}

/// An upper-case hexadecimal digit: `0-9` or `A-F`.
pub open spec fn upper_hex(c: char) -> bool {
    ('0' <= c && c <= '9') || ('A' <= c && c <= 'F')
}

/// Every `%` in `s` is followed by two upper-case hexadecimal digits.
pub open spec fn escapes_well_formed(s: Seq<char>) -> bool {
    forall|i: int|
        0 <= i < s.len() && #[trigger] s[i] == '%' ==> i + 2 < s.len() && upper_hex(s[i + 1])
            && upper_hex(s[i + 2])
}

/// How many bytes of `bytes` are unreserved.
pub open spec fn unreserved_count(bytes: Seq<u8>) -> nat
    decreases bytes.len(),
{
    if bytes.len() == 0 {
        0
    } else {
        (if unreserved(bytes[0]) {
            1nat
        } else {
            0nat
        }) + unreserved_count(bytes.drop_first())
    }
}

/// The shape of an encoding: each unreserved byte takes one character and every other
/// byte three, and every `%` is followed by two upper-case hexadecimal digits.
pub proof fn lemma_percent_encoded_shape(bytes: Seq<u8>)
    ensures
        unreserved_count(bytes) <= bytes.len(),
        percent_encoded(bytes).len() == unreserved_count(bytes) + 3 * (bytes.len()
            - unreserved_count(bytes)),
        escapes_well_formed(percent_encoded(bytes)),
    decreases bytes.len(),
{
    if bytes.len() > 0 {
        let b = bytes[0];
        let rest = bytes.drop_first();
        lemma_percent_encoded_shape(rest);
        let e = encode_byte(b);
        let r = percent_encoded(rest);
        assert(percent_encoded(bytes) == e + r);
        if !unreserved(b) {
            lemma_hex_digit(b / 16);
            lemma_hex_digit(b % 16);
        } else {
            assert(e[0] != '%');
        }
        assert forall|i: int|
            0 <= i < (e + r).len() && #[trigger] (e + r)[i] == '%' implies i + 2 < (e
            + r).len() && upper_hex((e + r)[i + 1]) && upper_hex((e + r)[i + 2]) by {
            if i >= e.len() {
                assert((e + r)[i] == r[i - e.len()]);
                assert(r[i - e.len()] == '%');
                assert((e + r)[i + 1] == r[i - e.len() + 1]);
                assert((e + r)[i + 2] == r[i - e.len() + 2]);
            } else if !unreserved(b) {
                assert(i == 0) by {
                    if i == 1 || i == 2 {
                        assert((e + r)[i] == e[i]);
                    }
                }
            }
        }
    }
}

/// An encoding is made of `A-Z a-z 0-9 - _ . ~` and of `%` followed by two digits from
/// `0-9 A-F`: nothing else, so no `#`, `&`, `=`, `+` or space can reach the URL.
pub proof fn lemma_percent_encoded_alphabet(bytes: Seq<u8>)
    ensures
        forall|i: int|
            #![trigger percent_encoded(bytes)[i]]
            0 <= i < percent_encoded(bytes).len() ==> {
                let e = percent_encoded(bytes);
                let c = e[i];
                ||| ('A' <= c && c <= 'Z')
                ||| ('a' <= c && c <= 'z')
                ||| ('0' <= c && c <= '9')
                ||| c == '-'
                ||| c == '_'
                ||| c == '.'
                ||| c == '~'
                ||| (c == '%' && i + 2 < e.len() && (('0' <= e[i + 1] && e[i + 1] <= '9') || (
                'A' <= e[i + 1] && e[i + 1] <= 'F')) && (('0' <= e[i + 2] && e[i + 2] <= '9') || (
                'A' <= e[i + 2] && e[i + 2] <= 'F')))
            },
{
    lemma_percent_encoded_safe(bytes);
    lemma_percent_encoded_shape(bytes);
    let e = percent_encoded(bytes);
    assert forall|i: int| #![trigger e[i]] 0 <= i < e.len() implies {
        let c = e[i];
        ||| ('A' <= c && c <= 'Z')
        ||| ('a' <= c && c <= 'z')
        ||| ('0' <= c && c <= '9')
        ||| c == '-'
        ||| c == '_'
        ||| c == '.'
        ||| c == '~'
        ||| (c == '%' && i + 2 < e.len() && (('0' <= e[i + 1] && e[i + 1] <= '9') || ('A'
            <= e[i + 1] && e[i + 1] <= 'F')) && (('0' <= e[i + 2] && e[i + 2] <= '9') || ('A'
            <= e[i + 2] && e[i + 2] <= 'F')))
    } by {
        let c = e[i];
        assert(query_safe(c));
        let v = c as u32;
        assert(v < 128 ==> (v as u8) as u32 == v) by (bit_vector);
        vstd::utf8::char_u32_cast(c, v);
        if c == '%' {
            assert(upper_hex(e[i + 1]) && upper_hex(e[i + 2]));
        }
    }
}

/// The hexadecimal digit for `n < 16`.
fn hex_char(n: u8) -> (c: char)
    requires
        n < 16,
    ensures
        c == hex_digit(n),
{
    if n < 10 {
        (n + 0x30) as char
    } else {
        (n + 0x37) as char
    }
}

/// Percent-encodes a query parameter value: every byte of its UTF-8 encoding that is not
/// unreserved is written `%XX`, with upper-case hex digits.
pub fn percent_encode(value: &str) -> (r: String)
    ensures
        r@ == percent_encoded(encode_utf8(value@)),
        forall|i: int|
            #![trigger r@[i]]
            0 <= i < r@.len() ==> {
                let c = r@[i];
                ||| ('A' <= c && c <= 'Z')
                ||| ('a' <= c && c <= 'z')
                ||| ('0' <= c && c <= '9')
                ||| c == '-'
                ||| c == '_'
                ||| c == '.'
                ||| c == '~'
                ||| (c == '%' && i + 2 < r@.len() && (('0' <= r@[i + 1] && r@[i + 1] <= '9') || (
                'A' <= r@[i + 1] && r@[i + 1] <= 'F')) && (('0' <= r@[i + 2] && r@[i + 2] <= '9')
                    || ('A' <= r@[i + 2] && r@[i + 2] <= 'F')))
            },
{
    let bytes = value.as_bytes();
    let mut r = String::new();
    let mut i: usize = 0;
    while i < bytes.len()
        invariant
            i <= bytes@.len(),
            bytes@ == encode_utf8(value@),
            r@ == percent_encoded(bytes@.take(i as int)),
        decreases bytes.len() - i,
    {
        let b = bytes[i];
        let ghost before = r@;
        if (0x41 <= b && b <= 0x5a) || (0x61 <= b && b <= 0x7a) || (0x30 <= b && b <= 0x39)
            || b == 0x2d || b == 0x5f || b == 0x2e || b == 0x7e {
            push_char(&mut r, b as char);
            assert(r@ == before + encode_byte(b));
        } else {
            push_char(&mut r, '%');
            push_char(&mut r, hex_char(b / 16));
            push_char(&mut r, hex_char(b % 16));
            assert(r@ == before + encode_byte(b));
        }
        proof {
            let taken = bytes@.take(i as int);
            assert(bytes@.take(i + 1) == taken + seq![b]);
            lemma_encoded_append(taken, seq![b]);
            assert(percent_encoded(seq![b]) == encode_byte(b) + percent_encoded(
                seq![b].drop_first(),
            ));
            assert(seq![b].drop_first() == Seq::<u8>::empty());
            assert(percent_encoded(seq![b]) == encode_byte(b));
        }
        i = i + 1;
    }
    assert(bytes@.take(bytes@.len() as int) == bytes@);
    proof {
        lemma_percent_encoded_alphabet(bytes@);
    }
    r
}

} // verus!
