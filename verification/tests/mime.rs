use serve::mime::Mime;

#[test]
fn known_extensions_name_their_category() {
    let table = [
        ("gz", Mime::GZip),
        ("json", Mime::Json),
        ("jsonld", Mime::JsonLd),
        ("bin", Mime::Binary),
        ("xml", Mime::Xml),
        ("zip", Mime::Zip),
        ("gif", Mime::Gif),
        ("jpeg", Mime::Jpeg),
        ("jpg", Mime::Jpeg),
        ("png", Mime::Png),
        ("svg", Mime::Svg),
        ("ics", Mime::ICalendar),
        ("css", Mime::Css),
        ("csv", Mime::Csv),
        ("html", Mime::Html),
        ("mjs", Mime::JavaScriptModule),
        ("js", Mime::JavaScript),
        ("md", Mime::Markdown),
        ("txt", Mime::PlainText),
    ];
    for (ext, mime) in table {
        assert_eq!(Mime::from_str(ext), Ok(mime));
        assert_eq!(Mime::from_extension(Some(ext)), mime);
    }
}

#[test]
fn unknown_extension_is_an_error_with_its_message() {
    assert_eq!(Mime::from_str("exe"), Err("Unkown file extension".to_string()));
    assert_eq!(Mime::from_str(""), Err("Unkown file extension".to_string()));
    assert_eq!(Mime::from_str("htm"), Err("Unkown file extension".to_string()));
}

#[test]
fn extensions_are_taken_as_written() {
    assert_eq!(Mime::from_str("HTML"), Err("Unkown file extension".to_string()));
    assert_eq!(Mime::from_extension(Some("Html")), Mime::Binary);
    assert_eq!(Mime::from_extension(Some(" html")), Mime::Binary);
}

#[test]
fn unknown_or_missing_extension_falls_back_to_binary() {
    assert_eq!(Mime::from_extension(None), Mime::Binary);
    assert_eq!(Mime::from_extension(Some("")), Mime::Binary);
    assert_eq!(Mime::from_extension(Some("tar")), Mime::Binary);
}

#[test]
fn every_category_has_its_content_type() {
    assert_eq!(Mime::GZip.as_str(), "application/gzip");
    assert_eq!(Mime::Json.as_str(), "application/json");
    assert_eq!(Mime::JsonLd.as_str(), "application/ld+json");
    assert_eq!(Mime::Binary.as_str(), "application/octet-stream");
    assert_eq!(Mime::Xml.as_str(), "application/xml");
    assert_eq!(Mime::Zip.as_str(), "application/zip");
    assert_eq!(Mime::Gif.as_str(), "image/gif");
    assert_eq!(Mime::Jpeg.as_str(), "image/jpeg");
    assert_eq!(Mime::Png.as_str(), "image/png");
    assert_eq!(Mime::Svg.as_str(), "image/svg+xml");
    assert_eq!(Mime::ICalendar.as_str(), "text/calendar");
    assert_eq!(Mime::Css.as_str(), "text/css");
    assert_eq!(Mime::Csv.as_str(), "text/csv");
    assert_eq!(Mime::Html.as_str(), "text/html");
    assert_eq!(Mime::JavaScriptModule.as_str(), "text/javascript");
    assert_eq!(Mime::JavaScript.as_str(), "text/javascript");
    assert_eq!(Mime::Markdown.as_str(), "text/markdown");
    assert_eq!(Mime::PlainText.as_str(), "text/plain");
}
