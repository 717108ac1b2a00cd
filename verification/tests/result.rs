use labelzoom::{charset_of, decode, ConversionResult};

#[test]
fn decodes_latin1_by_the_response_charset() {
    // The exact bytes response/success-text-non-utf8-charset sends: "Hello " + 0xE9,
    // which is invalid UTF-8 and would otherwise decode to U+FFFD.
    let body = b"Hello \xE9";
    assert_eq!(
        decode(body, Some("text/plain;charset=ISO-8859-1")),
        "Hello é"
    );
    assert_eq!(decode(body, Some("text/plain")), "Hello \u{FFFD}");
}

#[test]
fn ignores_an_unrecognized_charset() {
    assert_eq!(
        decode(b"hi", Some("text/plain; charset=\"not-a-charset\"")),
        "hi"
    );
    assert_eq!(decode(b"hi", None), "hi");
}

#[test]
fn strips_quotes_around_the_charset() {
    assert_eq!(
        charset_of(Some("text/plain; charset=\"utf-8\"")).as_deref(),
        Some("utf-8")
    );
}

#[test]
fn charset_needs_a_parameter_list() {
    assert_eq!(charset_of(None), None);
    assert_eq!(charset_of(Some("charset=utf-8")), None);
    assert_eq!(charset_of(Some("text/plain")), None);
    assert_eq!(charset_of(Some("text/plain;")), None);
}

#[test]
fn charset_name_is_case_insensitive_and_trimmed() {
    assert_eq!(
        charset_of(Some("text/plain;  CharSet =  \"\"ISO-8859-1\"\" ")).as_deref(),
        Some("ISO-8859-1")
    );
    assert_eq!(
        charset_of(Some("text/html; boundary=x; charset=windows-1252; charset=utf-8")).as_deref(),
        Some("windows-1252")
    );
    assert_eq!(
        charset_of(Some("text/html; charsets=x; name")).as_deref(),
        None
    );
    assert_eq!(
        charset_of(Some("text/html; charset=a=b")).as_deref(),
        Some("a=b")
    );
}

#[test]
fn text_uses_the_content_type_of_the_result() {
    let result = ConversionResult {
        bytes: b"caf\xE9".to_vec(),
        content_type: Some("text/plain; charset=latin1".to_owned()),
        status: 200,
        request_id: None,
    };
    assert_eq!(result.text(), "café");
    let utf8 = ConversionResult {
        bytes: "café".as_bytes().to_vec(),
        content_type: None,
        status: 200,
        request_id: None,
    };
    assert_eq!(utf8.text(), "café");
}

#[test]
fn decode_honours_a_byte_order_mark() {
    // BOM sniffing overrides the declared charset.
    assert_eq!(decode(b"\xEF\xBB\xBFhi", Some("text/plain; charset=latin1")), "hi");
}
