//! The success type, and how its text is decoded.

use vstd::prelude::*;
use vstd::utf8::{decode_utf8, encode_utf8, valid_utf8};

use crate::text::{
    chars_eq_ignore_ascii_case, eq_ignore_ascii_case, find_char, first_index_of, str_chars,
    string_of, strip_bounds, trim, trim_quotes,
};

verus! {

/// The outcome of a successful conversion.
///
/// `bytes` is authoritative. PDF, PNG, BMP, GIF and JPEG targets are binary, so treating
/// the response as text would silently corrupt five of the eleven targets, and EPL and
/// TSPL reach the same hazard through a `text/plain` response, because their `GW` and
/// `BITMAP` commands inline a raw 1-bpp payload.
#[derive(Clone, Debug)]
pub struct ConversionResult {
    /// The response body, exactly as the server sent it.
    pub bytes: Vec<u8>,
    /// The response `Content-Type` header, if any.
    pub content_type: Option<String>,
    /// The HTTP status code, always 2xx here.
    pub status: u16,
    /// The `X-LZ-Request-Id` response header, when the server sent one. The support handle.
    pub request_id: Option<String>,
}

/// Whether `encoding_rs` knows an encoding by the label `label`.
pub uninterp spec fn encoding_label_known(label: Seq<u8>) -> bool;

/// What `encoding_rs` decodes `body` to, with BOM sniffing and with malformed sequences
/// replaced by U+FFFD, in the encoding that `label` names.
pub uninterp spec fn decoded_in_encoding(label: Seq<u8>, body: Seq<u8>) -> Seq<char>;

/// The label `utf-8`.
pub open spec fn utf8_label() -> Seq<u8> {
    seq![0x75u8, 0x74u8, 0x66u8, 0x2du8, 0x38u8]
}

/// Whether `body` begins with the UTF-8 byte order mark.
pub open spec fn starts_with_utf8_bom(body: Seq<u8>) -> bool {
    body.len() >= 3 && body[0] == 0xEFu8 && body[1] == 0xBBu8 && body[2] == 0xBFu8
}

/// The largest body a decode is asked to handle: `encoding_rs` panics when the size of
/// its worst-case output buffer overflows `usize`.
pub open spec fn decodable_length(len: nat) -> bool {
    len <= usize::MAX / 8
}

/// `encoding_rs::Encoding::for_label`, then `Encoding::decode` with the encoding found.
///
/// Claimed of the outside code: the lookup succeeds exactly for the labels it knows,
/// which include `utf-8` (its documentation's own example); the text it returns is a
/// function of the label and the body alone; and UTF-8 input that is valid and carries
/// no byte order mark comes back as the text it encodes. What the text is otherwise is
/// left to the name `decoded_in_encoding`.
#[verifier::external_body]
fn decode_with_label(label: &[u8], body: &[u8]) -> (r: Option<String>)
    requires
        decodable_length(body@.len()),
    ensures
        r is Some <==> encoding_label_known(label@),
        label@ == utf8_label() ==> r is Some,
        r matches Some(text) ==> text@ == decoded_in_encoding(label@, body@),
        label@ == utf8_label() && valid_utf8(body@) && !starts_with_utf8_bom(body@) ==> r is Some
            && r->0@ == decode_utf8(body@),
{
    match encoding_rs::Encoding::for_label(label) {
        Some(encoding) => Some(encoding.decode(body).0.into_owned()),
        None => None,
    }
}

/// The charset named by one `;`-separated parameter, if the parameter is `charset=...`:
/// the value trimmed of white space and then of double quotes.
pub open spec fn parameter_charset(p: Seq<char>) -> Option<Seq<char>> {
    match first_index_of(p, '=') {
        None => None,
        Some(k) => if eq_ignore_ascii_case(
            trim(p.take(k)),
            seq!['c', 'h', 'a', 'r', 's', 'e', 't'],
        ) {
            Some(trim_quotes(trim(p.skip(k + 1))))
        } else {
            None
        },
    }
}

/// The first charset named in `s`, a `;`-separated list of parameters.
pub open spec fn charset_in_parameters(s: Seq<char>) -> Option<Seq<char>>
    decreases s.len(),
{
    match first_index_of(s, ';') {
        None => parameter_charset(s),
        Some(k) => match parameter_charset(s.take(k)) {
            Some(v) => Some(v),
            None => if 0 <= k < s.len() {
                charset_in_parameters(s.skip(k + 1))
            } else {
                None
            },
        },
    }
}

/// The charset a `Content-Type` header names: the first `charset` among the parameters
/// that follow the first `;`.
pub open spec fn header_charset(content_type: Option<Seq<char>>) -> Option<Seq<char>> {
    match content_type {
        None => None,
        Some(h) => match first_index_of(h, ';') {
            None => None,
            Some(k) => charset_in_parameters(h.skip(k + 1)),
        },
    }
}

/// The encoding label a body is decoded with: the header's charset when `encoding_rs`
/// knows it, UTF-8 otherwise.
pub open spec fn effective_label(content_type: Option<Seq<char>>) -> Seq<u8> {
    match header_charset(content_type) {
        Some(c) => if encoding_label_known(encode_utf8(c)) {
            encode_utf8(c)
        } else {
            utf8_label()
        },
        None => utf8_label(),
    }
}

/// The view of an optional string.
pub open spec fn opt_view(s: Option<&str>) -> Option<Seq<char>> {
    match s {
        Some(v) => Some(v@),
        None => None,
    }
}

/// The view of an optional owned string.
pub open spec fn opt_string_view(s: Option<String>) -> Option<Seq<char>> {
    match s {
        Some(v) => Some(v@),
        None => None,
    }
}

/// The charset of the parameter `v[from..to]`, if it is the charset parameter.
fn parameter_charset_at(v: &[char], from: usize, to: usize) -> (r: Option<String>)
    requires
        from <= to <= v@.len(),
    ensures
        opt_string_view(r) == parameter_charset(v@.subrange(from as int, to as int)),
{
    let ghost p = v@.subrange(from as int, to as int);
    match find_char(v, from, to, '=') {
        None => None,
        Some(k) => {
            assert(p.take(k as int) == v@.subrange(from as int, from + k));
            assert(p.skip(k + 1) == v@.subrange(from + k + 1, to as int));
            let (name_lo, name_hi) = strip_bounds(v, from, from + k, false);
            let wanted = ['c', 'h', 'a', 'r', 's', 'e', 't'];
            assert(wanted@ == seq!['c', 'h', 'a', 'r', 's', 'e', 't']);
            if !chars_eq_ignore_ascii_case(&v[name_lo..name_hi], wanted.as_slice()) {
                return None;
            }
            let (value_lo, value_hi) = strip_bounds(v, from + k + 1, to, false);
            let (lo, hi) = strip_bounds(v, value_lo, value_hi, true);
            Some(string_of(v, lo, hi))
        },
    }
}

/// Pulls the charset parameter off a `Content-Type` header.
pub fn charset_of(content_type: Option<&str>) -> (r: Option<String>)
    ensures
        opt_string_view(r) == header_charset(opt_view(content_type)),
{
    let header = match content_type {
        Some(h) => h,
        None => return None,
    };
    let v = str_chars(header);
    let n: usize = v.len();
    let first = match find_char(v.as_slice(), 0, n, ';') {
        Some(k) => k,
        None => {
            assert(v@.subrange(0, n as int) == v@);
            return None;
        },
    };
    assert(v@.subrange(0, n as int) == v@);
    let mut start: usize = first + 1;
    assert(v@.skip(first + 1) == v@.subrange(start as int, n as int));
    while start <= n
        invariant
            n == v@.len(),
            v@ == header@,
            first < start <= n,
            header_charset(opt_view(content_type)) == charset_in_parameters(
                v@.subrange(start as int, n as int),
            ),
        decreases n - start,
    {
        let ghost s = v@.subrange(start as int, n as int);
        match find_char(v.as_slice(), start, n, ';') {
            None => {
                return parameter_charset_at(v.as_slice(), start, n);
            },
            Some(k) => {
                assert(s.take(k as int) == v@.subrange(start as int, start + k));
                let found = parameter_charset_at(v.as_slice(), start, start + k);
                if found.is_some() {
                    return found;
                }
                assert(s.skip(k + 1) == v@.subrange(start + k + 1, n as int));
                start = start + k + 1;
            },
        }
    }
    None
}

/// Decodes `body` with the charset named in `content_type`, defaulting to UTF-8.
///
/// Not a hardcoded UTF-8 decode: the API serves ISO-8859-1 for some conversions, and a
/// byte like 0xE9 is not valid UTF-8; it would come back as U+FFFD rather than "é".
pub fn decode(body: &[u8], content_type: Option<&str>) -> (r: String)
    requires
        decodable_length(body@.len()),
    ensures
        r@ == decoded_in_encoding(effective_label(opt_view(content_type)), body@),
        effective_label(opt_view(content_type)) == utf8_label() && valid_utf8(body@)
            && !starts_with_utf8_bom(body@) ==> r@ == decode_utf8(body@),
{
    let named = match charset_of(content_type) {
        Some(charset) => decode_with_label(charset.as_str().as_bytes(), body),
        None => None,
    };
    match named {
        Some(text) => text,
        None => {
            let utf8 = vec![0x75u8, 0x74u8, 0x66u8, 0x2du8, 0x38u8];
            assert(utf8@ == utf8_label());
            match decode_with_label(utf8.as_slice(), body) {
                Some(text) => text,
                None => {
                    proof {
                        assert(false);
                    }
                    String::new()
                },
            }
        },
    }
}

impl ConversionResult {
    /// Decodes `bytes` using the response charset, defaulting to UTF-8.
    ///
    /// Safe for the textual targets. For a binary target, or an EPL/TSPL label that might
    /// carry graphics, read the bytes instead.
    pub fn text(&self) -> (r: String)
        requires
            decodable_length(self.bytes@.len()),
        ensures
            r@ == decoded_in_encoding(
                effective_label(opt_string_view(self.content_type)),
                self.bytes@,
            ),
            effective_label(opt_string_view(self.content_type)) == utf8_label() && valid_utf8(
                self.bytes@,
            ) && !starts_with_utf8_bom(self.bytes@) ==> r@ == decode_utf8(self.bytes@),
    {
        let content_type = match &self.content_type {
            Some(s) => Some(s.as_str()),
            None => None,
        };
        decode(self.bytes.as_slice(), content_type)
    }
}

} // verus!
