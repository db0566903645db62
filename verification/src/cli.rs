//! The command-line data model and its argument checks.
//!
//! These are the plain values behind the argument parser: the parser itself,
//! the filesystem queries, and the command execution live with the caller.
//! The checks here decide from a path string and the caller's answer to the
//! one filesystem question each check needs.

use vstd::prelude::*;
use crate::formats::{Base64Format, OutputFormat, TextSignFormat};
use crate::strutil::str_equal;

verus! {

/// The top-level command line: one subcommand.
#[derive(Debug)]
pub struct Opts {
    /// The selected subcommand.
    pub cmd: SubCommand,
}

/// The subcommands of the tool.
#[derive(Debug)]
pub enum SubCommand {
    /// Show CSV, or convert CSV to other formats.
    Csv(CsvOpts),
    /// Generate a random password.
    Genpass(GenPassOpts),
    /// Base64 encode or decode.
    Base64(Base64Subcommand),
    /// Sign a file, verify a signature, or generate keys.
    Text(TextSubcommand),
    /// Serve a directory over HTTP.
    Http(HttpCommand),
}

/// Options of the CSV conversion.
#[derive(Debug)]
pub struct CsvOpts {
    /// The input file path.
    pub input: String,
    /// The output file path.
    pub output: String,
    /// The field delimiter.
    pub delimiter: String,
    /// The output format.
    pub format: OutputFormat,
    /// Whether the first record is a header.
    pub header: bool,
}

/// Options of the password generator.
#[derive(Debug)]
pub struct GenPassOpts {
    /// The password length.
    pub length: u8,
    /// Include uppercase letters.
    pub upper: bool,
    /// Include lowercase letters.
    pub lower: bool,
    /// Include digits.
    pub number: bool,
    /// Include symbols.
    pub symbol: bool,
}

/// The base64 subcommands.
#[derive(Debug)]
pub enum Base64Subcommand {
    /// Encode a string to base64.
    Encode(EncodeOpts),
    /// Decode a base64 string.
    Decode(DecodeOpts),
}

/// Options of base64 encoding.
#[derive(Debug)]
pub struct EncodeOpts {
    /// The input file path, `"-"` for the standard input.
    pub input: String,
    /// The alphabet variant.
    pub format: Base64Format,
}

/// Options of base64 decoding.
#[derive(Debug)]
pub struct DecodeOpts {
    /// The input file path, `"-"` for the standard input.
    pub input: String,
    /// The alphabet variant.
    pub format: Base64Format,
}

/// The text-signing subcommands.
#[derive(Debug)]
pub enum TextSubcommand {
    /// Sign a text file with a private/session key and return a signature.
    Sign(TextSignOpts),
    /// Verify a signature with a private/session key.
    Verify(TextVerifyOpts),
    /// Generate a random blake3 or ed25519 key.
    Keygen(GenerateKeyOpts),
}

/// Options of the sign operation.
#[derive(Debug)]
pub struct TextSignOpts {
    /// The content source, `"-"` for the standard input.
    pub input: String,
    /// The key file path.
    pub key: String,
    /// The scheme.
    pub format: TextSignFormat,
}

/// Options of the verify operation.
#[derive(Debug)]
pub struct TextVerifyOpts {
    /// The content source, `"-"` for the standard input.
    pub input: String,
    /// The key file path.
    pub key: String,
    /// The signature file path.
    pub signature: String,
    /// The scheme.
    pub format: TextSignFormat,
}

/// Options of key generation.
#[derive(Debug)]
pub struct GenerateKeyOpts {
    /// The scheme.
    pub format: TextSignFormat,
    /// The directory the key files are written into.
    pub output_path: String,
}

/// The HTTP subcommands.
#[derive(Debug)]
pub enum HttpCommand {
    /// Serve a directory over HTTP.
    Serve(HttpOpts),
}

/// Options of the HTTP file server.
#[derive(Debug)]
pub struct HttpOpts {
    /// The directory to serve.
    pub dir: String,
    /// The port to listen on.
    pub port: u16,
}

/// Decides the output-directory check from the caller's answer to the one
/// filesystem question it needs: whether `path` names an existing directory.
/// The query itself is the caller's, at the I/O edge.
pub fn verify_path(path: &str, is_existing_dir: bool) -> (r: Result<String, &'static str>)
    ensures
        is_existing_dir ==> r is Ok && r->Ok_0@ == path@,
        !is_existing_dir ==> r is Err && r->Err_0@
            == "Path does not exist or is not a directory"@,
{
    if is_existing_dir {
        Ok(path.to_owned())
    } else {
        Err("Path does not exist or is not a directory")
    }
}

/// Decides the input-file check: `"-"` (the standard input) is always
/// accepted; any other name is accepted exactly when the caller reports that
/// it names an existing file.
pub fn verify_file(filename: &str, exists: bool) -> (r: Result<String, &'static str>)
    ensures
        filename@ == "-"@ || exists ==> r is Ok && r->Ok_0@ == filename@,
        !(filename@ == "-"@ || exists) ==> r is Err && r->Err_0@
            == "File does not exist or is not a file"@,
{
    if str_equal(filename, "-") || exists {
        Ok(filename.to_owned())
    } else {
        Err("File does not exist or is not a file")
    }
}

/// Decides the strict input-file check of the CSV conversion: the file must
/// exist; the standard input is not accepted here.
pub fn validate_input_file(filename: &str, exists: bool) -> (r: Result<String, &'static str>)
    ensures
        exists ==> r is Ok && r->Ok_0@ == filename@,
        !exists ==> r is Err && r->Err_0@ == "Input file does not exist"@,
{
    if exists {
        Ok(filename.to_owned())
    } else {
        Err("Input file does not exist")
    }
}

} // verus!
