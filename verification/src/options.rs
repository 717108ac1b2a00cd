//! Conversion parameters: the enumerations and sub-objects of the `params` JSON, their
//! wire tokens, and the checks made before a request leaves the process.

use vstd::prelude::*;

use crate::error::ValidationError;
use crate::text::{decimal, i64_decimal, push_str, u64_decimal};

verus! {

/// How colour is reduced when rasterizing. Server default `GRAYSCALE`.
#[derive(Clone, Copy, Debug, PartialEq, Eq, Structural)]
#[non_exhaustive]
pub enum ColorMode {
    /// Pure black and white.
    Bw,
    /// Greyscale.
    Grayscale,
    /// Full colour.
    Color,
}

/// How a PDF source is interpreted. Server default `IMAGE`.
#[derive(Clone, Copy, Debug, PartialEq, Eq, Structural)]
#[non_exhaustive]
pub enum PdfConversionMode {
    /// Rasterize the page.
    Image,
    /// Extract the page's text and vectors.
    Native,
}

/// Encoding of images embedded in ZPL output. Server default `Z64`.
#[derive(Clone, Copy, Debug, PartialEq, Eq, Structural)]
#[non_exhaustive]
pub enum ZplImageCompression {
    /// Base-64 encoded, DEFLATE compressed.
    Z64,
    /// Run-length encoded hexadecimal.
    CompressedHex,
}

/// The pixel offset of the extracted region. Server default 0,0.
#[derive(Clone, Copy, Debug, Default, PartialEq, Eq, Structural)]
pub struct Position {
    /// Horizontal offset, in pixels.
    pub x: i64,
    /// Vertical offset, in pixels.
    pub y: i64,
}

/// How a PDF source is read.
#[derive(Clone, Copy, Debug, Default, PartialEq, Eq, Structural)]
pub struct PdfOptions {
    /// Rasterize or extract. Server default `IMAGE`.
    pub conversion_mode: Option<PdfConversionMode>,
    /// ZERO-BASED. Leave `None` to convert every page.
    pub page_number: Option<i64>,
}

/// ZPL output settings.
#[derive(Clone, Debug, Default, PartialEq)]
pub struct ZplOptions {
    /// Drop the named commands from the output, e.g. `["^PQ"]`.
    pub commands_to_ignore: Option<Vec<String>>,
    /// Encoding of embedded images. Server default `Z64`.
    pub image_compression: Option<ZplImageCompression>,
}

impl ColorMode {
    /// The exact upper-case token this mode is sent as.
    pub fn wire_token(self) -> (r: &'static str)
        ensures
            r@ == match self {
                ColorMode::Bw => "BW"@,
                ColorMode::Grayscale => "GRAYSCALE"@,
                ColorMode::Color => "COLOR"@,
            },
    {
        match self {
            ColorMode::Bw => "BW",
            ColorMode::Grayscale => "GRAYSCALE",
            ColorMode::Color => "COLOR",
        }
    }
}

impl PdfConversionMode {
    /// The exact upper-case token this mode is sent as.
    pub fn wire_token(self) -> (r: &'static str)
        ensures
            r@ == match self {
                PdfConversionMode::Image => "IMAGE"@,
                PdfConversionMode::Native => "NATIVE"@,
            },
    {
        match self {
            PdfConversionMode::Image => "IMAGE",
            PdfConversionMode::Native => "NATIVE",
        }
    }
}

impl ZplImageCompression {
    /// The exact upper-case token this compression is sent as.
    pub fn wire_token(self) -> (r: &'static str)
        ensures
            r@ == match self {
                ZplImageCompression::Z64 => "Z64"@,
                ZplImageCompression::CompressedHex => "COMPRESSED_HEX"@,
            },
    {
        match self {
            ZplImageCompression::Z64 => "Z64",
            ZplImageCompression::CompressedHex => "COMPRESSED_HEX",
        }
    }
}

/// The shape of one JSON value: all that the local checks read of a `data` entry.
#[derive(Clone, Copy, Debug, PartialEq, Eq, Structural)]
pub enum JsonKind {
    /// `null`.
    Null,
    /// `true` or `false`.
    Bool,
    /// A number.
    Number,
    /// A string.
    String,
    /// An array.
    Array,
    /// An object.
    Object,
}

/// How an error message names a JSON value's shape.
pub open spec fn kind_description(kind: JsonKind) -> Seq<char> {
    match kind {
        JsonKind::Null => "null"@,
        JsonKind::Bool => "a boolean"@,
        JsonKind::Number => "a number"@,
        JsonKind::String => "a string"@,
        JsonKind::Array => "an array"@,
        JsonKind::Object => "an object"@,
    }
}

/// How an error message names a JSON value's shape.
pub fn describe(kind: JsonKind) -> (r: &'static str)
    ensures
        r@ == kind_description(kind),
{
    match kind {
        JsonKind::Null => "null",
        JsonKind::Bool => "a boolean",
        JsonKind::Number => "a number",
        JsonKind::String => "a string",
        JsonKind::Array => "an array",
        JsonKind::Object => "an object",
    }
}

/// The position of the first `data` entry that is not an object, if there is one.
pub open spec fn first_non_object(kinds: Seq<JsonKind>, from: int) -> Option<int>
    decreases kinds.len() - from,
{
    if from < 0 || from >= kinds.len() {
        None
    } else if kinds[from] != JsonKind::Object {
        Some(from)
    } else {
        first_non_object(kinds, from + 1)
    }
}

/// What the local checks reject in a set of options, as the parameter at fault and the
/// message, in the order the checks run: rotation, darkness, then data.
pub open spec fn options_problem(
    rotation: Option<i64>,
    darkness: Option<i64>,
    data: Option<Seq<JsonKind>>,
) -> Option<(Seq<char>, Seq<char>)> {
    if rotation is Some && rotation->0 % 90 != 0 {
        Some(
            (
                "rotation"@,
                "Rotation must be a multiple of 90 degrees, but was "@ + decimal(
                    rotation->0 as int,
                ) + "."@,
            ),
        )
    } else if darkness is Some && !(0 <= darkness->0 && darkness->0 <= 100) {
        Some(
            (
                "darkness"@,
                "Darkness must be between 0 and 100, but was "@ + decimal(darkness->0 as int)
                    + "."@,
            ),
        )
    } else if data is Some && first_non_object(data->0, 0) is Some {
        Some(
            (
                "data"@,
                "data["@ + decimal(first_non_object(data->0, 0)->0) + "] is "@
                    + kind_description(data->0[first_non_object(data->0, 0)->0])
                    + "; every entry must be an object whose keys are the label's variable field names."@,
            ),
        )
    } else {
        None
    }
}

/// The local checks accept a rotation only when it is a multiple of 90 and a darkness
/// only from 0 to 100: a rotation that is not a multiple of 90 is rejected under
/// `rotation`, and otherwise a darkness below 0 or above 100 is rejected under
/// `darkness`, whatever the data.
pub proof fn lemma_options_ranges(
    rotation: Option<i64>,
    darkness: Option<i64>,
    data: Option<Seq<JsonKind>>,
)
    ensures
        options_problem(rotation, darkness, data) is None ==> (rotation matches Some(x) ==> x
            % 90 == 0) && (darkness matches Some(d) ==> 0 <= d && d <= 100),
        rotation is Some && rotation->0 % 90 != 0 ==> (options_problem(rotation, darkness, data)
            matches Some(p) && p.0 == "rotation"@),
        (rotation is Some ==> rotation->0 % 90 == 0) && darkness is Some && (darkness->0 < 0
            || darkness->0 > 100) ==> (options_problem(rotation, darkness, data) matches Some(p)
            && p.0 == "darkness"@),
{
}

/// A validation error naming `parameter`.
fn invalid(parameter: &str, message: String) -> (e: ValidationError)
    ensures
        e.parameter@ == parameter@,
        e.message == message,
{
    let mut name = String::new();
    push_str(&mut name, parameter);
    ValidationError { parameter: name, message }
}

/// Checks what can be checked locally: a rotation that is a multiple of 90, a darkness
/// from 0 to 100, and `data` entries that are all objects.
///
/// Rejected locally because the server would answer 400, and each is unambiguously a
/// caller bug.
pub fn check_options(rotation: Option<i64>, darkness: Option<i64>, data: Option<&[JsonKind]>) -> (r:
    Result<(), ValidationError>)
    ensures
        match options_problem(
            rotation,
            darkness,
            match data {
                Some(d) => Some(d@),
                None => None,
            },
        ) {
            None => r is Ok,
            Some((parameter, message)) => r matches Err(e) && e.parameter@ == parameter
                && e.message@ == message,
        },
        r is Ok ==> (rotation matches Some(x) ==> x % 90 == 0) && (darkness matches Some(d)
            ==> 0 <= d && d <= 100),
        (rotation is Some ==> rotation->0 % 90 == 0) && darkness is Some && (darkness->0 < 0
            || darkness->0 > 100) ==> (r matches Err(e) && e.parameter@ == "darkness"@),
        rotation is Some && rotation->0 % 90 != 0 ==> (r matches Err(e) && e.parameter@
            == "rotation"@),
{
    if let Some(rotation) = rotation {
        if rotation % 90 != 0 {
            let mut message = String::new();
            push_str(&mut message, "Rotation must be a multiple of 90 degrees, but was ");
            let number = i64_decimal(rotation);
            push_str(&mut message, number.as_str());
            push_str(&mut message, ".");
            return Err(invalid("rotation", message));
        }
    }
    if let Some(darkness) = darkness {
        if !(0 <= darkness && darkness <= 100) {
            let mut message = String::new();
            push_str(&mut message, "Darkness must be between 0 and 100, but was ");
            let number = i64_decimal(darkness);
            push_str(&mut message, number.as_str());
            push_str(&mut message, ".");
            return Err(invalid("darkness", message));
        }
    }
    if let Some(records) = data {
        let mut index: usize = 0;
        while index < records.len()
            invariant
                index <= records@.len(),
                first_non_object(records@, 0) == first_non_object(records@, index as int),
                data matches Some(d) && d@ == records@,
                rotation is Some ==> rotation->0 % 90 == 0,
                darkness is Some ==> 0 <= darkness->0 <= 100,
            decreases records.len() - index,
        {
            let kind = records[index];
            if kind != JsonKind::Object {
                let mut message = String::new();
                push_str(&mut message, "data[");
                let number = u64_decimal(index as u64);
                push_str(&mut message, number.as_str());
                push_str(&mut message, "] is ");
                push_str(&mut message, describe(kind));
                push_str(
                    &mut message,
                    "; every entry must be an object whose keys are the label's variable field names.",
                );
                return Err(invalid("data", message));
            }
            index = index + 1;
        }
    }
    Ok(())
}

} // verus!
