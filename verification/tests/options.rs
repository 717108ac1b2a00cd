use labelzoom::{
    check_options, describe, ColorMode, JsonKind, PdfConversionMode, ZplImageCompression,
};

#[test]
fn rotation_must_be_a_multiple_of_90() {
    assert!(check_options(Some(270), None, None).is_ok());
    assert!(check_options(Some(-90), None, None).is_ok());
    let error = check_options(Some(45), None, None).unwrap_err();
    assert_eq!(error.parameter, "rotation");
    assert_eq!(error.message, "Rotation must be a multiple of 90 degrees, but was 45.");
    let error = check_options(Some(-45), None, None).unwrap_err();
    assert_eq!(error.message, "Rotation must be a multiple of 90 degrees, but was -45.");
    let error = check_options(Some(i64::MIN), None, None).unwrap_err();
    assert_eq!(
        error.message,
        "Rotation must be a multiple of 90 degrees, but was -9223372036854775808."
    );
}

#[test]
fn darkness_must_be_between_0_and_100() {
    assert!(check_options(None, Some(0), None).is_ok());
    assert!(check_options(None, Some(100), None).is_ok());
    let error = check_options(None, Some(101), None).unwrap_err();
    assert_eq!(error.parameter, "darkness");
    assert_eq!(error.message, "Darkness must be between 0 and 100, but was 101.");
    let error = check_options(Some(45), Some(-1), None).unwrap_err();
    assert_eq!(error.parameter, "rotation");
}

#[test]
fn data_entries_must_be_objects() {
    assert!(check_options(None, None, Some(&[JsonKind::Object, JsonKind::Object])).is_ok());
    assert!(check_options(None, None, Some(&[])).is_ok());
    let error = check_options(
        None,
        None,
        Some(&[JsonKind::Object, JsonKind::Number, JsonKind::Null]),
    )
    .unwrap_err();
    assert_eq!(error.parameter, "data");
    assert_eq!(
        error.message,
        "data[1] is a number; every entry must be an object whose keys are the label's variable field names."
    );
}

#[test]
fn json_kinds_are_described() {
    assert_eq!(describe(JsonKind::Null), "null");
    assert_eq!(describe(JsonKind::Bool), "a boolean");
    assert_eq!(describe(JsonKind::String), "a string");
    assert_eq!(describe(JsonKind::Array), "an array");
    assert_eq!(describe(JsonKind::Object), "an object");
}

#[test]
fn enums_use_upper_case_wire_tokens() {
    assert_eq!(ColorMode::Bw.wire_token(), "BW");
    assert_eq!(ColorMode::Grayscale.wire_token(), "GRAYSCALE");
    assert_eq!(ColorMode::Color.wire_token(), "COLOR");
    assert_eq!(PdfConversionMode::Image.wire_token(), "IMAGE");
    assert_eq!(PdfConversionMode::Native.wire_token(), "NATIVE");
    assert_eq!(ZplImageCompression::Z64.wire_token(), "Z64");
    assert_eq!(ZplImageCompression::CompressedHex.wire_token(), "COMPRESSED_HEX");
}
