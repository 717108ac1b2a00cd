//! Source and target formats, and the one place a format's media type is written down.

use vstd::prelude::*;

use crate::text::{ascii_lower_seq, chars_eq, lower_ascii, str_chars};

verus! {

/// The format of the document being converted.
///
/// A distinct type from [`TargetFormat`], and the two sets are not the same: `Jpg` and
/// `Url` are source-only. `Jpg` is an input spelling that normalizes to `jpeg` on the
/// wire, and `Url` is an instruction to the server to go fetch a document rather than a
/// format at all.
#[derive(Clone, Copy, Debug, PartialEq, Eq, Structural, Hash)]
#[non_exhaustive]
pub enum SourceFormat {
    /// Zebra Programming Language.
    Zpl,
    /// Eltron Programming Language.
    Epl,
    /// `TSC` Printer Language.
    Tspl,
    /// Datamax Programming Language.
    Dpl,
    /// The LabelZoom label model, as XML.
    Xml,
    /// The LabelZoom label model, as JSON.
    Json,
    /// A PDF document.
    Pdf,
    /// A PNG image.
    Png,
    /// A BMP image.
    Bmp,
    /// A GIF image.
    Gif,
    /// A JPEG image.
    Jpeg,
    /// An alias for `SourceFormat::Jpeg`; sent as `jpeg`.
    Jpg,
    /// Has the *server* fetch a URL and convert what it finds. The request body is the URL.
    ///
    /// Validate the URL first if it came from untrusted input: the fetch happens
    /// server-side, from LabelZoom's network, not from yours.
    Url,
}

/// The format to convert into.
///
/// There is no `TargetFormat::Url`: a URL is a fetch instruction, not an output format.
/// There is no `Jpg` either: that spelling is source-side only.
///
/// The printer languages round-trip: `Epl`, `Tspl` and `Dpl` are targets as well as
/// sources.
#[derive(Clone, Copy, Debug, PartialEq, Eq, Structural, Hash)]
#[non_exhaustive]
pub enum TargetFormat {
    /// Zebra Programming Language.
    Zpl,
    /// Eltron Programming Language. Can inline raw binary (`GW`); prefer the result's
    /// bytes over its text.
    Epl,
    /// TSC Printer Language. Can inline raw binary (`BITMAP`); prefer the result's bytes
    /// over its text.
    Tspl,
    /// Datamax Programming Language.
    Dpl,
    /// The LabelZoom label model, as XML.
    Xml,
    /// The LabelZoom label model, as JSON.
    Json,
    /// A PDF document.
    Pdf,
    /// A PNG image.
    Png,
    /// A BMP image.
    Bmp,
    /// A GIF image.
    Gif,
    /// A JPEG image.
    Jpeg,
}

/// The lowercase name of a source, before `jpg` normalization.
pub open spec fn source_name(f: SourceFormat) -> Seq<char> {
    match f {
        SourceFormat::Zpl => seq!['z', 'p', 'l'],
        SourceFormat::Epl => seq!['e', 'p', 'l'],
        SourceFormat::Tspl => seq!['t', 's', 'p', 'l'],
        SourceFormat::Dpl => seq!['d', 'p', 'l'],
        SourceFormat::Xml => seq!['x', 'm', 'l'],
        SourceFormat::Json => seq!['j', 's', 'o', 'n'],
        SourceFormat::Pdf => seq!['p', 'd', 'f'],
        SourceFormat::Png => seq!['p', 'n', 'g'],
        SourceFormat::Bmp => seq!['b', 'm', 'p'],
        SourceFormat::Gif => seq!['g', 'i', 'f'],
        SourceFormat::Jpeg => seq!['j', 'p', 'e', 'g'],
        SourceFormat::Jpg => seq!['j', 'p', 'g'],
        SourceFormat::Url => seq!['u', 'r', 'l'],
    }
}

/// The path segment for a source: its name, except that `jpg` is sent as `jpeg`.
pub open spec fn source_wire_token(f: SourceFormat) -> Seq<char> {
    if f == SourceFormat::Jpg {
        source_name(SourceFormat::Jpeg)
    } else {
        source_name(f)
    }
}

/// The request `Content-Type` for a source.
pub open spec fn source_media_type(f: SourceFormat) -> Seq<char> {
    match f {
        SourceFormat::Zpl | SourceFormat::Epl | SourceFormat::Tspl | SourceFormat::Dpl
        | SourceFormat::Url => "text/plain"@,
        SourceFormat::Xml => "application/xml"@,
        SourceFormat::Json => "application/json"@,
        SourceFormat::Pdf => "application/pdf"@,
        SourceFormat::Png => "image/png"@,
        SourceFormat::Bmp => "image/bmp"@,
        SourceFormat::Gif => "image/gif"@,
        SourceFormat::Jpeg | SourceFormat::Jpg => "image/jpeg"@,
    }
}

/// The path segment for a target. Targets need no normalization.
pub open spec fn target_wire_token(t: TargetFormat) -> Seq<char> {
    match t {
        TargetFormat::Zpl => source_name(SourceFormat::Zpl),
        TargetFormat::Epl => source_name(SourceFormat::Epl),
        TargetFormat::Tspl => source_name(SourceFormat::Tspl),
        TargetFormat::Dpl => source_name(SourceFormat::Dpl),
        TargetFormat::Xml => source_name(SourceFormat::Xml),
        TargetFormat::Json => source_name(SourceFormat::Json),
        TargetFormat::Pdf => source_name(SourceFormat::Pdf),
        TargetFormat::Png => source_name(SourceFormat::Png),
        TargetFormat::Bmp => source_name(SourceFormat::Bmp),
        TargetFormat::Gif => source_name(SourceFormat::Gif),
        TargetFormat::Jpeg => source_name(SourceFormat::Jpeg),
    }
}

/// Every accepted source, in canonical order.
pub open spec fn all_sources() -> Seq<SourceFormat> {
    seq![
        SourceFormat::Zpl,
        SourceFormat::Epl,
        SourceFormat::Tspl,
        SourceFormat::Dpl,
        SourceFormat::Xml,
        SourceFormat::Json,
        SourceFormat::Pdf,
        SourceFormat::Png,
        SourceFormat::Bmp,
        SourceFormat::Gif,
        SourceFormat::Jpeg,
        SourceFormat::Jpg,
        SourceFormat::Url,
    ]
}

/// Every accepted target, in canonical order.
pub open spec fn all_targets() -> Seq<TargetFormat> {
    seq![
        TargetFormat::Zpl,
        TargetFormat::Epl,
        TargetFormat::Tspl,
        TargetFormat::Dpl,
        TargetFormat::Xml,
        TargetFormat::Json,
        TargetFormat::Pdf,
        TargetFormat::Png,
        TargetFormat::Bmp,
        TargetFormat::Gif,
        TargetFormat::Jpeg,
    ]
}

/// The first source, in canonical order, whose name is `s`.
pub open spec fn first_source_named(s: Seq<char>, from: int) -> Option<SourceFormat>
    decreases all_sources().len() - from,
{
    if from < 0 || from >= all_sources().len() {
        None
    } else if source_name(all_sources()[from]) == s {
        Some(all_sources()[from])
    } else {
        first_source_named(s, from + 1)
    }
}

/// The first target, in canonical order, whose wire token is `s`.
pub open spec fn first_target_named(s: Seq<char>, from: int) -> Option<TargetFormat>
    decreases all_targets().len() - from,
{
    if from < 0 || from >= all_targets().len() {
        None
    } else if target_wire_token(all_targets()[from]) == s {
        Some(all_targets()[from])
    } else {
        first_target_named(s, from + 1)
    }
}

/// Lowercase letters are left alone by ASCII lowercasing.
proof fn lemma_lowercase_fixed(s: Seq<char>)
    requires
        forall|i: int| 0 <= i < s.len() ==> 'a' <= #[trigger] s[i] <= 'z',
    ensures
        ascii_lower_seq(s) == s,
{
    assert(ascii_lower_seq(s) =~= s);
}

/// Parsing a source's own name gives that source back, whatever the ASCII case of the
/// name.
pub proof fn lemma_source_name_round_trip(f: SourceFormat, spelled: Seq<char>)
    requires
        ascii_lower_seq(spelled) == source_name(f),
    ensures
        first_source_named(ascii_lower_seq(spelled), 0) == Some(f),
{
    lemma_lowercase_fixed(source_name(f));
    reveal_with_fuel(first_source_named, 14);
}

/// Parsing a target's own wire token gives that target back, whatever the ASCII case of
/// the token.
pub proof fn lemma_target_name_round_trip(t: TargetFormat, spelled: Seq<char>)
    requires
        ascii_lower_seq(spelled) == target_wire_token(t),
    ensures
        first_target_named(ascii_lower_seq(spelled), 0) == Some(t),
{
    reveal_with_fuel(first_target_named, 12);
}

/// `jpg` and `url` are sources only: no target is named either.
pub proof fn lemma_source_only_names(spelled: Seq<char>)
    requires
        ascii_lower_seq(spelled) == source_name(SourceFormat::Jpg) || ascii_lower_seq(spelled)
            == source_name(SourceFormat::Url),
    ensures
        first_target_named(ascii_lower_seq(spelled), 0) is None,
{
    reveal_with_fuel(first_target_named, 12);
}

/// Every source's wire token is the wire token of some target.
pub proof fn lemma_source_tokens_are_targets(f: SourceFormat)
    requires
        f != SourceFormat::Url,
    ensures
        exists|t: TargetFormat| target_wire_token(t) == source_wire_token(f),
{
    let t = match f {
        SourceFormat::Zpl => TargetFormat::Zpl,
        SourceFormat::Epl => TargetFormat::Epl,
        SourceFormat::Tspl => TargetFormat::Tspl,
        SourceFormat::Dpl => TargetFormat::Dpl,
        SourceFormat::Xml => TargetFormat::Xml,
        SourceFormat::Json => TargetFormat::Json,
        SourceFormat::Pdf => TargetFormat::Pdf,
        SourceFormat::Png => TargetFormat::Png,
        SourceFormat::Bmp => TargetFormat::Bmp,
        SourceFormat::Gif => TargetFormat::Gif,
        _ => TargetFormat::Jpeg,
    };
    assert(target_wire_token(t) == source_wire_token(f));
}

/// The names on the wire, each tied to its own variant: a source is named by its
/// lowercase variant name, `jpg` is sent as `jpeg`, and each target's token is its
/// lowercase variant name.
pub proof fn lemma_format_tokens()
    ensures
        source_name(SourceFormat::Zpl) == "zpl"@,
        source_name(SourceFormat::Epl) == "epl"@,
        source_name(SourceFormat::Tspl) == "tspl"@,
        source_name(SourceFormat::Dpl) == "dpl"@,
        source_name(SourceFormat::Xml) == "xml"@,
        source_name(SourceFormat::Json) == "json"@,
        source_name(SourceFormat::Pdf) == "pdf"@,
        source_name(SourceFormat::Png) == "png"@,
        source_name(SourceFormat::Bmp) == "bmp"@,
        source_name(SourceFormat::Gif) == "gif"@,
        source_name(SourceFormat::Jpeg) == "jpeg"@,
        source_name(SourceFormat::Jpg) == "jpg"@,
        source_name(SourceFormat::Url) == "url"@,
        source_wire_token(SourceFormat::Jpg) == "jpeg"@,
        target_wire_token(TargetFormat::Zpl) == "zpl"@,
        target_wire_token(TargetFormat::Epl) == "epl"@,
        target_wire_token(TargetFormat::Tspl) == "tspl"@,
        target_wire_token(TargetFormat::Dpl) == "dpl"@,
        target_wire_token(TargetFormat::Xml) == "xml"@,
        target_wire_token(TargetFormat::Json) == "json"@,
        target_wire_token(TargetFormat::Pdf) == "pdf"@,
        target_wire_token(TargetFormat::Png) == "png"@,
        target_wire_token(TargetFormat::Bmp) == "bmp"@,
        target_wire_token(TargetFormat::Gif) == "gif"@,
        target_wire_token(TargetFormat::Jpeg) == "jpeg"@,
{
    reveal_strlit("bmp");
    reveal_strlit("dpl");
    reveal_strlit("epl");
    reveal_strlit("gif");
    reveal_strlit("jpeg");
    reveal_strlit("jpg");
    reveal_strlit("json");
    reveal_strlit("pdf");
    reveal_strlit("png");
    reveal_strlit("tspl");
    reveal_strlit("url");
    reveal_strlit("xml");
    reveal_strlit("zpl");
}

/// A source's `Content-Type` agrees with its path segment: an image is `image/` followed
/// by its token, XML, JSON and PDF are `application/` followed by theirs, and the printer
/// languages and a URL are sent as `text/plain`.
pub proof fn lemma_media_type_matches_token(f: SourceFormat)
    ensures
        (f is Png || f is Bmp || f is Gif || f is Jpeg || f is Jpg) ==> source_media_type(f)
            == "image/"@ + source_wire_token(f),
        (f is Xml || f is Json || f is Pdf) ==> source_media_type(f) == "application/"@
            + source_wire_token(f),
        (f is Zpl || f is Epl || f is Tspl || f is Dpl || f is Url) ==> source_media_type(f)
            == "text/plain"@,
{
    reveal_strlit("bmp");
    reveal_strlit("dpl");
    reveal_strlit("epl");
    reveal_strlit("gif");
    reveal_strlit("jpeg");
    reveal_strlit("jpg");
    reveal_strlit("json");
    reveal_strlit("pdf");
    reveal_strlit("png");
    reveal_strlit("tspl");
    reveal_strlit("url");
    reveal_strlit("xml");
    reveal_strlit("zpl");
    reveal_strlit("image/");
    reveal_strlit("application/");
    reveal_strlit("text/plain");
    reveal_strlit("image/png");
    reveal_strlit("image/bmp");
    reveal_strlit("image/gif");
    reveal_strlit("image/jpeg");
    reveal_strlit("application/xml");
    reveal_strlit("application/json");
    reveal_strlit("application/pdf");
}

/// Whether the characters `v` spell `s`.
fn spells(v: &[char], s: &str) -> (r: bool)
    ensures
        r == (v@ == s@),
{
    let cs = str_chars(s);
    chars_eq(v, cs.as_slice())
}

impl SourceFormat {
    /// Every accepted source, in canonical order.
    pub const ALL: [SourceFormat; 13] = [
        SourceFormat::Zpl,
        SourceFormat::Epl,
        SourceFormat::Tspl,
        SourceFormat::Dpl,
        SourceFormat::Xml,
        SourceFormat::Json,
        SourceFormat::Pdf,
        SourceFormat::Png,
        SourceFormat::Bmp,
        SourceFormat::Gif,
        SourceFormat::Jpeg,
        SourceFormat::Jpg,
        SourceFormat::Url,
    ];

    /// The path segment for this source. `Jpg` normalizes to `jpeg`.
    pub fn wire_token(self) -> (r: &'static str)
        ensures
            r@ == source_wire_token(self),
    {
        match self {
            SourceFormat::Jpg => {
                proof {
                    reveal_strlit("jpeg");
                }
                "jpeg"
            },
            other => other.name(),
        }
    }

    /// The request `Content-Type` for this source.
    ///
    /// The format metadata table, defined once and never inlined at a call site.
    pub fn media_type(self) -> (r: &'static str)
        ensures
            r@ == source_media_type(self),
    {
        match self {
            // The body for Url is the URL itself.
            SourceFormat::Zpl | SourceFormat::Epl | SourceFormat::Tspl | SourceFormat::Dpl
            | SourceFormat::Url => "text/plain",
            SourceFormat::Xml => "application/xml",
            SourceFormat::Json => "application/json",
            SourceFormat::Pdf => "application/pdf",
            SourceFormat::Png => "image/png",
            SourceFormat::Bmp => "image/bmp",
            SourceFormat::Gif => "image/gif",
            SourceFormat::Jpeg | SourceFormat::Jpg => "image/jpeg",
        }
    }

    /// The lowercase name of this format, before `jpg` normalization.
    pub fn name(self) -> (r: &'static str)
        ensures
            r@ == source_name(self),
    {
        proof {
            reveal_strlit("zpl");
            reveal_strlit("epl");
            reveal_strlit("tspl");
            reveal_strlit("dpl");
            reveal_strlit("xml");
            reveal_strlit("json");
            reveal_strlit("pdf");
            reveal_strlit("png");
            reveal_strlit("bmp");
            reveal_strlit("gif");
            reveal_strlit("jpeg");
            reveal_strlit("jpg");
            reveal_strlit("url");
        }
        match self {
            SourceFormat::Zpl => "zpl",
            SourceFormat::Epl => "epl",
            SourceFormat::Tspl => "tspl",
            SourceFormat::Dpl => "dpl",
            SourceFormat::Xml => "xml",
            SourceFormat::Json => "json",
            SourceFormat::Pdf => "pdf",
            SourceFormat::Png => "png",
            SourceFormat::Bmp => "bmp",
            SourceFormat::Gif => "gif",
            SourceFormat::Jpeg => "jpeg",
            SourceFormat::Jpg => "jpg",
            SourceFormat::Url => "url",
        }
    }

    /// Parses a format name, ignoring ASCII case: the first source in `ALL` whose name
    /// matches, if any.
    pub fn from_name(name: &str) -> (r: Option<SourceFormat>)
        ensures
            r == first_source_named(ascii_lower_seq(name@), 0),
    {
        let chars = str_chars(name);
        let lower = lower_ascii(chars.as_slice());
        let ghost s = lower@;
        let mut i: usize = 0;
        while i < 13
            invariant
                i <= 13,
                s == lower@,
                s == ascii_lower_seq(name@),
                first_source_named(s, 0) == first_source_named(s, i as int),
            decreases 13 - i,
        {
            let candidate = SourceFormat::ALL[i];
            assert(candidate == all_sources()[i as int]);
            if spells(lower.as_slice(), candidate.name()) {
                return Some(candidate);
            }
            i = i + 1;
        }
        None
    }
}

impl TargetFormat {
    /// Every accepted target, in canonical order.
    pub const ALL: [TargetFormat; 11] = [
        TargetFormat::Zpl,
        TargetFormat::Epl,
        TargetFormat::Tspl,
        TargetFormat::Dpl,
        TargetFormat::Xml,
        TargetFormat::Json,
        TargetFormat::Pdf,
        TargetFormat::Png,
        TargetFormat::Bmp,
        TargetFormat::Gif,
        TargetFormat::Jpeg,
    ];

    /// The path segment for this target. Targets need no normalization.
    pub fn wire_token(self) -> (r: &'static str)
        ensures
            r@ == target_wire_token(self),
    {
        match self {
            TargetFormat::Zpl => SourceFormat::Zpl.name(),
            TargetFormat::Epl => SourceFormat::Epl.name(),
            TargetFormat::Tspl => SourceFormat::Tspl.name(),
            TargetFormat::Dpl => SourceFormat::Dpl.name(),
            TargetFormat::Xml => SourceFormat::Xml.name(),
            TargetFormat::Json => SourceFormat::Json.name(),
            TargetFormat::Pdf => SourceFormat::Pdf.name(),
            TargetFormat::Png => SourceFormat::Png.name(),
            TargetFormat::Bmp => SourceFormat::Bmp.name(),
            TargetFormat::Gif => SourceFormat::Gif.name(),
            TargetFormat::Jpeg => SourceFormat::Jpeg.name(),
        }
    }

    /// Parses a wire token, ignoring ASCII case: the first target in `ALL` whose token
    /// matches, if any.
    pub fn from_name(name: &str) -> (r: Option<TargetFormat>)
        ensures
            r == first_target_named(ascii_lower_seq(name@), 0),
    {
        let chars = str_chars(name);
        let lower = lower_ascii(chars.as_slice());
        let ghost s = lower@;
        let mut i: usize = 0;
        while i < 11
            invariant
                i <= 11,
                s == lower@,
                s == ascii_lower_seq(name@),
                first_target_named(s, 0) == first_target_named(s, i as int),
            decreases 11 - i,
        {
            let candidate = TargetFormat::ALL[i];
            assert(candidate == all_targets()[i as int]);
            if spells(lower.as_slice(), candidate.wire_token()) {
                return Some(candidate);
            }
            i = i + 1;
        }
        None
    }
}

} // verus!
