//! Content types, chosen by file extension.

use vstd::prelude::*;
use vstd::string::*;
use crate::text::str_eq;

verus! {

/// The content categories the server can announce.
#[derive(Debug, Clone, Copy, PartialEq, Eq, Structural)]
pub enum Mime {
    GZip,
    Json,
    JsonLd,
    Binary,
    Xml,
    Zip,
    Gif,
    Jpeg,
    Png,
    Svg,
    ICalendar,
    Css,
    Csv,
    Html,
    JavaScriptModule,
    JavaScript,
    Markdown,
    PlainText,
}

impl Mime {
    /// The content-type string of each category.
    pub open spec fn content_type(self) -> Seq<char> {
        match self {
            Mime::GZip => "application/gzip"@,
            Mime::Json => "application/json"@,
            Mime::JsonLd => "application/ld+json"@,
            Mime::Binary => "application/octet-stream"@,
            Mime::Xml => "application/xml"@,
            Mime::Zip => "application/zip"@,
            Mime::Gif => "image/gif"@,
            Mime::Jpeg => "image/jpeg"@,
            Mime::Png => "image/png"@,
            Mime::Svg => "image/svg+xml"@,
            Mime::ICalendar => "text/calendar"@,
            Mime::Css => "text/css"@,
            Mime::Csv => "text/csv"@,
            Mime::Html => "text/html"@,
            Mime::JavaScriptModule | Mime::JavaScript => "text/javascript"@,
            Mime::Markdown => "text/markdown"@,
            Mime::PlainText => "text/plain"@,
        }
    }

    /// The category that a known extension names. Extensions are taken as
    /// written: `HTML` is not `html`.
    pub open spec fn of_known_extension(ext: Seq<char>) -> Option<Mime> {
        if ext == "gz"@ {
            Some(Mime::GZip)
        } else if ext == "json"@ {
            Some(Mime::Json)
        } else if ext == "jsonld"@ {
            Some(Mime::JsonLd)
        } else if ext == "bin"@ {
            Some(Mime::Binary)
        } else if ext == "xml"@ {
            Some(Mime::Xml)
        } else if ext == "zip"@ {
            Some(Mime::Zip)
        } else if ext == "gif"@ {
            Some(Mime::Gif)
        } else if ext == "jpeg"@ || ext == "jpg"@ {
            Some(Mime::Jpeg)
        } else if ext == "png"@ {
            Some(Mime::Png)
        } else if ext == "svg"@ {
            Some(Mime::Svg)
        } else if ext == "ics"@ {
            Some(Mime::ICalendar)
        } else if ext == "css"@ {
            Some(Mime::Css)
        } else if ext == "csv"@ {
            Some(Mime::Csv)
        } else if ext == "html"@ {
            Some(Mime::Html)
        } else if ext == "mjs"@ {
            Some(Mime::JavaScriptModule)
        } else if ext == "js"@ {
            Some(Mime::JavaScript)
        } else if ext == "md"@ {
            Some(Mime::Markdown)
        } else if ext == "txt"@ {
            Some(Mime::PlainText)
        } else {
            None
        }
    }

    /// The category served for a file with the given extension: the one the
    /// extension names, and `Binary` for an unknown or missing extension.
    pub open spec fn of_extension(ext: Option<Seq<char>>) -> Mime {
        match ext {
            Some(e) => match Mime::of_known_extension(e) {
                Some(m) => m,
                None => Mime::Binary,
            },
            None => Mime::Binary,
        }
    }

    /// The content-type string of this category.
    pub fn as_str(&self) -> (s: &'static str)
        ensures
            s@ == self.content_type(),
    {
        match self {
            Mime::GZip => "application/gzip",
            Mime::Json => "application/json",
            Mime::JsonLd => "application/ld+json",
            Mime::Binary => "application/octet-stream",
            Mime::Xml => "application/xml",
            Mime::Zip => "application/zip",
            Mime::Gif => "image/gif",
            Mime::Jpeg => "image/jpeg",
            Mime::Png => "image/png",
            Mime::Svg => "image/svg+xml",
            Mime::ICalendar => "text/calendar",
            Mime::Css => "text/css",
            Mime::Csv => "text/csv",
            Mime::Html => "text/html",
            Mime::JavaScriptModule | Mime::JavaScript => "text/javascript",
            Mime::Markdown => "text/markdown",
            Mime::PlainText => "text/plain",
        }
    }

    /// The category that the extension `s` names, or an error message for
    /// an extension that names none.
    pub fn from_str(s: &str) -> (r: Result<Mime, String>)
        ensures
            match r {
                Ok(m) => Mime::of_known_extension(s@) == Some(m),
                Err(e) => Mime::of_known_extension(s@).is_none() && e@
                    == "Unkown file extension"@,
            },
    {
        if str_eq(s, "gz") {
            Ok(Mime::GZip)
        } else if str_eq(s, "json") {
            Ok(Mime::Json)
        } else if str_eq(s, "jsonld") {
            Ok(Mime::JsonLd)
        } else if str_eq(s, "bin") {
            Ok(Mime::Binary)
        } else if str_eq(s, "xml") {
            Ok(Mime::Xml)
        } else if str_eq(s, "zip") {
            Ok(Mime::Zip)
        } else if str_eq(s, "gif") {
            Ok(Mime::Gif)
        } else if str_eq(s, "jpeg") || str_eq(s, "jpg") {
            Ok(Mime::Jpeg)
        } else if str_eq(s, "png") {
            Ok(Mime::Png)
        } else if str_eq(s, "svg") {
            Ok(Mime::Svg)
        } else if str_eq(s, "ics") {
            Ok(Mime::ICalendar)
        } else if str_eq(s, "css") {
            Ok(Mime::Css)
        } else if str_eq(s, "csv") {
            Ok(Mime::Csv)
        } else if str_eq(s, "html") {
            Ok(Mime::Html)
        } else if str_eq(s, "mjs") {
            Ok(Mime::JavaScriptModule)
        } else if str_eq(s, "js") {
            Ok(Mime::JavaScript)
        } else if str_eq(s, "md") {
            Ok(Mime::Markdown)
        } else if str_eq(s, "txt") {
            Ok(Mime::PlainText)
        } else {
            Err(String::from_str("Unkown file extension"))
        }
    }

    /// The category served for a file with the given extension. Total: an
    /// unknown or missing extension gives `Binary`.
    pub fn from_extension(ext: Option<&str>) -> (m: Mime)
        ensures
            m == Mime::of_extension(
                match ext {
                    Some(e) => Some(e@),
                    None => None,
                },
            ),
    {
        match ext {
            Some(e) => match Mime::from_str(e) {
                Ok(m) => m,
                Err(_) => Mime::Binary,
            },
            None => Mime::Binary,
        }
    }
}

} // verus!
