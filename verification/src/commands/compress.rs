//! Compression: the request is checked, the command line is built, and the
//! sizes before and after make the record.

use vstd::prelude::*;
use vstd::string::*;
use crate::commands::utils::{choose_output, chosen_output, pdf_check, validate_pdf,
    CompressionResult, CompressionResultView};
use crate::ghostscript::{compress, compress_args, ghostscript_call};
use crate::locate::Host;
use crate::paths::path_extension;
use crate::process::{agrees, opt_view, result_view, Invocation, InvocationView};
use crate::text::{concat2, concat3, equal};

verus! {

/// Whether `preset` is one of the four quality presets.
pub open spec fn is_preset(preset: Seq<char>) -> bool {
    preset == "screen"@ || preset == "ebook"@ || preset == "printer"@ || preset == "prepress"@
}

/// Tells whether `preset` is one of the four quality presets.
pub fn preset_is_valid(preset: &str) -> (r: bool)
    ensures
        r == is_preset(preset@),
{
    equal(preset, "screen") || equal(preset, "ebook") || equal(preset, "printer") || equal(
        preset,
        "prepress",
    )
}

/// What to report for a preset that is not one of the four.
pub open spec fn invalid_preset(preset: Seq<char>) -> Seq<char> {
    "Invalid preset '"@ + preset
        + "'. Valid options: [\"screen\", \"ebook\", \"printer\", \"prepress\"]"@
}

/// A compression that is ready to run.
#[derive(Debug, Clone, PartialEq, Eq)]
pub struct CompressionJob {
    pub output_path: String,
    pub original_size: u64,
    pub invocation: Invocation,
}

/// The mathematical content of a [`CompressionJob`].
pub struct CompressionJobView {
    pub output_path: Seq<char>,
    pub original_size: u64,
    pub invocation: InvocationView,
}

impl View for CompressionJob {
    type V = CompressionJobView;

    open spec fn view(&self) -> CompressionJobView {
        CompressionJobView {
            output_path: self.output_path@,
            original_size: self.original_size,
            invocation: self.invocation@,
        }
    }
}

/// What a compression request comes to, given what the validation of the
/// input said and where the result is to go. In this order: the input must
/// have passed; the preset must be one of the four; the size of the input
/// must have been read; the interpreter must be there. Then the job writes
/// to `output` with the preset as given.
pub open spec fn compress_decision(
    host: Host,
    input_path: Seq<char>,
    validation: Result<(), Seq<char>>,
    input_size: Result<u64, Seq<char>>,
    output: Seq<char>,
    preset: Seq<char>,
) -> Result<CompressionJobView, Seq<char>> {
    match validation {
        Err(e) => Err(e),
        Ok(_) => if !is_preset(preset) {
            Err(invalid_preset(preset))
        } else {
            match input_size {
                Err(detail) => Err("Failed to read input file: "@ + detail),
                Ok(original_size) => match ghostscript_call(
                    host,
                    compress_args(input_path, output, preset),
                ) {
                    Err(e) => Err(e),
                    Ok(invocation) => Ok(
                        CompressionJobView { output_path: output, original_size, invocation },
                    ),
                },
            }
        },
    }
}

/// Decides on a compression from what the validation of the input said,
/// the size read from the input (or why it could not be read), and the
/// place for the result.
pub fn compress_job(
    host: &Host,
    input_path: &str,
    validation: Result<(), String>,
    input_size: Result<u64, String>,
    output: String,
    preset: &str,
) -> (r: Result<CompressionJob, String>)
    ensures
        agrees(
            r,
            compress_decision(
                *host,
                input_path@,
                result_view(validation),
                result_view(input_size),
                output@,
                preset@,
            ),
        ),
        !is_preset(preset@) ==> r is Err,
{
    match validation {
        Err(e) => {
            return Err(e);
        },
        Ok(_) => {},
    }
    if !preset_is_valid(preset) {
        return Err(
            concat3(
                "Invalid preset '",
                preset,
                "'. Valid options: [\"screen\", \"ebook\", \"printer\", \"prepress\"]",
            ),
        );
    }
    let original_size = match input_size {
        Ok(n) => n,
        Err(detail) => {
            return Err(concat2("Failed to read input file: ", detail.as_str()));
        },
    };
    match compress(host, input_path, output.as_str(), preset) {
        Ok(invocation) => Ok(CompressionJob { output_path: output, original_size, invocation }),
        Err(e) => Err(e),
    }
}

/// What a compression request comes to: the decision taken on the
/// validation of the input path and on the output asked for or, where none
/// is asked for, derived with the suffix `-compressed`.
pub open spec fn compress_request(
    host: Host,
    input_path: Seq<char>,
    input_exists: bool,
    input_size: Result<u64, Seq<char>>,
    output_path: Option<Seq<char>>,
    preset: Seq<char>,
) -> Result<CompressionJobView, Seq<char>> {
    compress_decision(
        host,
        input_path,
        pdf_check(input_path, input_exists, path_extension(input_path)),
        input_size,
        chosen_output(output_path, input_path, "-compressed"@),
        preset,
    )
}

/// Prepares the compression of `input_path`. `input_exists` says whether
/// the file is there and `input_size` is its size in bytes, or the system's
/// description of why the size could not be read. Nothing is to be run
/// unless the result is `Ok`.
pub fn compress_pdf(
    host: &Host,
    input_path: &str,
    input_exists: bool,
    input_size: Result<u64, String>,
    output_path: Option<String>,
    preset: &str,
) -> (r: Result<CompressionJob, String>)
    ensures
        agrees(
            r,
            compress_request(
                *host,
                input_path@,
                input_exists,
                result_view(input_size),
                opt_view(output_path),
                preset@,
            ),
        ),
        !is_preset(preset@) ==> r is Err,
{
    let validation = validate_pdf(input_path, input_exists);
    let output = choose_output(output_path, input_path, "-compressed");
    compress_job(host, input_path, validation, input_size, output, preset)
}

/// The record of a compression that ran, given the size read from the
/// output or the system's description of why it could not be read.
pub open spec fn compression_record(
    output_path: Seq<char>,
    original_size: u64,
    compressed_size: Result<u64, Seq<char>>,
) -> Result<CompressionResultView, Seq<char>> {
    match compressed_size {
        Ok(n) => Ok(CompressionResultView { output_path, original_size, compressed_size: n }),
        Err(detail) => Err("Failed to read output file: "@ + detail),
    }
}

/// Makes the record of a compression that ran.
pub fn compression_result(
    output_path: String,
    original_size: u64,
    compressed_size: Result<u64, String>,
) -> (r: Result<CompressionResult, String>)
    ensures
        agrees(r, compression_record(output_path@, original_size, result_view(compressed_size))),
{
    match compressed_size {
        Ok(n) => Ok(CompressionResult { output_path, original_size, compressed_size: n }),
        Err(detail) => Err(concat2("Failed to read output file: ", detail.as_str())),
    }
}

/// Says where the interpreter is, for display.
pub fn check_ghostscript(host: &Host) -> (r: Result<String, String>)
    ensures
        agrees(
            r,
            match opt_view(host.ghostscript) {
                Some(p) => Ok(p),
                None => Err("Ghostscript not found. Please install Ghostscript."@),
            },
        ),
{
    match &host.ghostscript {
        Some(p) => Ok(p.clone()),
        None => Err(String::from_str("Ghostscript not found. Please install Ghostscript.")),
    }
}

} // verus!
