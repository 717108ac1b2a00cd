use labelzoom::{SourceFormat, TargetFormat};

#[test]
fn jpg_is_sent_as_jpeg() {
    assert_eq!(SourceFormat::Jpg.wire_token(), "jpeg");
    assert_eq!(SourceFormat::Jpg.name(), "jpg");
    assert_eq!(SourceFormat::Jpeg.wire_token(), "jpeg");
    assert_eq!(SourceFormat::Zpl.wire_token(), "zpl");
    assert_eq!(SourceFormat::Url.wire_token(), "url");
}

#[test]
fn media_types_follow_the_table() {
    assert_eq!(SourceFormat::Zpl.media_type(), "text/plain");
    assert_eq!(SourceFormat::Epl.media_type(), "text/plain");
    assert_eq!(SourceFormat::Tspl.media_type(), "text/plain");
    assert_eq!(SourceFormat::Dpl.media_type(), "text/plain");
    assert_eq!(SourceFormat::Url.media_type(), "text/plain");
    assert_eq!(SourceFormat::Xml.media_type(), "application/xml");
    assert_eq!(SourceFormat::Json.media_type(), "application/json");
    assert_eq!(SourceFormat::Pdf.media_type(), "application/pdf");
    assert_eq!(SourceFormat::Png.media_type(), "image/png");
    assert_eq!(SourceFormat::Bmp.media_type(), "image/bmp");
    assert_eq!(SourceFormat::Gif.media_type(), "image/gif");
    assert_eq!(SourceFormat::Jpeg.media_type(), "image/jpeg");
    assert_eq!(SourceFormat::Jpg.media_type(), "image/jpeg");
}

#[test]
fn every_source_parses_from_its_name() {
    assert_eq!(SourceFormat::ALL.len(), 13);
    for format in SourceFormat::ALL {
        assert_eq!(SourceFormat::from_name(format.name()), Some(format));
        assert_eq!(
            SourceFormat::from_name(&format.name().to_ascii_uppercase()),
            Some(format)
        );
    }
}

#[test]
fn every_target_parses_from_its_token() {
    assert_eq!(TargetFormat::ALL.len(), 11);
    for format in TargetFormat::ALL {
        assert_eq!(TargetFormat::from_name(format.wire_token()), Some(format));
    }
    assert_eq!(TargetFormat::from_name("PnG"), Some(TargetFormat::Png));
}

#[test]
fn source_only_names_are_not_targets() {
    assert_eq!(TargetFormat::from_name("url"), None);
    assert_eq!(TargetFormat::from_name("jpg"), None);
    assert_eq!(SourceFormat::from_name("URL"), Some(SourceFormat::Url));
    assert_eq!(SourceFormat::from_name("Jpg"), Some(SourceFormat::Jpg));
    assert_eq!(SourceFormat::from_name("ipl"), None);
    assert_eq!(SourceFormat::from_name(""), None);
    assert_eq!(SourceFormat::from_name(" zpl"), None);
}

#[test]
fn printer_languages_are_targets() {
    assert_eq!(TargetFormat::from_name("epl"), Some(TargetFormat::Epl));
    assert_eq!(TargetFormat::from_name("tspl"), Some(TargetFormat::Tspl));
    assert_eq!(TargetFormat::from_name("dpl"), Some(TargetFormat::Dpl));
    assert_eq!(TargetFormat::Dpl.wire_token(), "dpl");
}
