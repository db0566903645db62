//! Format tags parsed at the external boundary.

use vstd::prelude::*;
use crate::errors::TextError;
use crate::strutil::{lower_of, lowercase, str_equal};

verus! {

/// The scheme that governs key validation, signing, and verification.
#[derive(Debug, Clone, Copy, PartialEq, Eq, Structural)]
pub enum TextSignFormat {
    /// The symmetric Blake3 keyed-hash scheme.
    Blake3,
    /// The asymmetric Ed25519 signature scheme.
    Ed25519,
}

/// What [`parse_sign_format`] yields for each tag string: exactly `"blake3"`
/// and `"ed25519"` are accepted, case-sensitively.
pub open spec fn spec_parse_sign_format(s: Seq<char>) -> Result<TextSignFormat, TextError> {
    if s == "blake3"@ {
        Ok(TextSignFormat::Blake3)
    } else if s == "ed25519"@ {
        Ok(TextSignFormat::Ed25519)
    } else {
        Err(TextError::UnknownFormat)
    }
}

impl TextSignFormat {
    /// The canonical lowercase tag of the scheme, used at the external
    /// boundary.
    pub fn as_str(&self) -> (r: &'static str)
        ensures
            *self is Blake3 ==> r@ == "blake3"@,
            *self is Ed25519 ==> r@ == "ed25519"@,
    {
        match self {
            TextSignFormat::Blake3 => "blake3",
            TextSignFormat::Ed25519 => "ed25519",
        }
    }
}

/// Parses a scheme tag; any string other than `"blake3"` and `"ed25519"`
/// fails with `UnknownFormat` before reaching the engine.
pub fn parse_sign_format(format: &str) -> (r: Result<TextSignFormat, TextError>)
    ensures
        r == spec_parse_sign_format(format@),
{
    if str_equal(format, "blake3") {
        Ok(TextSignFormat::Blake3)
    } else if str_equal(format, "ed25519") {
        Ok(TextSignFormat::Ed25519)
    } else {
        Err(TextError::UnknownFormat)
    }
}

/// The alphabet variant used for base64 transcoding.
#[derive(Debug, Clone, Copy, PartialEq, Eq, Structural)]
pub enum Base64Format {
    /// The standard alphabet, with padding.
    Standard,
    /// The URL-safe alphabet, without padding.
    UrlSafe,
}

/// What [`parse_b64_format`] yields for each tag string.
pub open spec fn spec_parse_b64_format(s: Seq<char>) -> Result<Base64Format, TextError> {
    if s == "standard"@ {
        Ok(Base64Format::Standard)
    } else if s == "urlsafe"@ {
        Ok(Base64Format::UrlSafe)
    } else {
        Err(TextError::UnknownFormat)
    }
}

impl Base64Format {
    /// The canonical tag of the variant.
    pub fn as_str(&self) -> (r: &'static str)
        ensures
            *self is Standard ==> r@ == "standard"@,
            *self is UrlSafe ==> r@ == "urlsafe"@,
    {
        match self {
            Base64Format::Standard => "standard",
            Base64Format::UrlSafe => "urlsafe",
        }
    }
}

/// Parses a base64 alphabet tag, case-sensitively.
pub fn parse_b64_format(format: &str) -> (r: Result<Base64Format, TextError>)
    ensures
        r == spec_parse_b64_format(format@),
{
    if str_equal(format, "standard") {
        Ok(Base64Format::Standard)
    } else if str_equal(format, "urlsafe") {
        Ok(Base64Format::UrlSafe)
    } else {
        Err(TextError::UnknownFormat)
    }
}

/// The output format of the tabular-data conversion.
#[derive(Debug, Clone, Copy, PartialEq, Eq, Structural)]
pub enum OutputFormat {
    /// JSON output.
    Json,
    /// YAML output.
    Yaml,
}

/// What [`OutputFormat::parse`] yields for each tag string.
pub open spec fn spec_parse_output_format(s: Seq<char>) -> Result<OutputFormat, TextError> {
    if s == "json"@ {
        Ok(OutputFormat::Json)
    } else if s == "yaml"@ {
        Ok(OutputFormat::Yaml)
    } else {
        Err(TextError::UnknownFormat)
    }
}

impl OutputFormat {
    /// The canonical tag of the format.
    pub fn as_str(&self) -> (r: &'static str)
        ensures
            *self is Json ==> r@ == "json"@,
            *self is Yaml ==> r@ == "yaml"@,
    {
        match self {
            OutputFormat::Json => "json",
            OutputFormat::Yaml => "yaml",
        }
    }

    /// Parses an output-format tag, case-sensitively.
    pub fn parse(format: &str) -> (r: Result<OutputFormat, TextError>)
        ensures
            r == spec_parse_output_format(format@),
    {
        if str_equal(format, "json") {
            Ok(OutputFormat::Json)
        } else if str_equal(format, "yaml") {
            Ok(OutputFormat::Yaml)
        } else {
            Err(TextError::UnknownFormat)
        }
    }
}

/// Parses an output-format tag after lowercasing it, so that `"JSON"` and
/// `"Yaml"` are accepted too.
pub fn parse_format(format: &str) -> (r: Result<OutputFormat, TextError>)
    ensures
        r == spec_parse_output_format(lower_of(format@)),
{
    let lowered = lowercase(format);
    OutputFormat::parse(lowered.as_str())
}

} // verus!
