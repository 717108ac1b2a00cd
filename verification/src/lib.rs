//! A verified client library for the LabelZoom label-conversion API.
//!
//! LabelZoom converts barcode labels between printer languages (ZPL, EPL, TSPL, DPL),
//! LabelZoom's own XML/JSON model, PDF, and raster images, at one endpoint:
//!
//! ```text
//! POST https://api.labelzoom.com/api/v2/convert/{sourceFormat}/to/{targetFormat}
//! ```
//!
//! This crate holds what the client decides: the format tables, the URL and headers of a
//! request, the local checks on the options, what a response becomes, and when to try
//! again. Sending the request and waiting between attempts are the caller's.

pub mod client;
pub mod error;
pub mod formats;
pub mod options;
pub mod percent;
pub mod result;
pub mod text;
pub mod transport;

pub use client::{
    is_retryable, normalize_base_url, read_error, read_result, user_agent, ClientConfig,
    ClientSettings, Decision, Step, API_KEY_ENV_VAR, DEFAULT_BASE_URL, REQUEST_ID_HEADER, VERSION,
};
pub use error::{
    error_for_status, extract_message, message_from, reason_phrase, says_paid_feature, truncate,
    ApiError, ApiErrorKind, ValidationError, MAX_MESSAGE_LENGTH,
};
pub use formats::{SourceFormat, TargetFormat};
pub use options::{
    check_options, describe, ColorMode, JsonKind, PdfConversionMode, PdfOptions, Position,
    ZplImageCompression, ZplOptions,
};
pub use percent::percent_encode;
pub use result::{charset_of, decode, ConversionResult};
pub use transport::{HttpRequest, HttpResponse};
