//! What a compression request reports back: the result record with its
//! human-readable message, the error taxonomy, and the compression-ratio
//! computation.

use vstd::prelude::*;
use vstd::string::*;

use crate::size_format::{format_file_size, spec_format_file_size};
use crate::strutil::{digit_str, spec_digit, spec_u64_string, u64_to_string};

verus! {

/// The outcome of one compression request, produced once and surfaced to the
/// caller verbatim.
#[derive(Debug)]
pub struct CompressionResult {
    pub success: bool,
    pub message: String,
}

/// Everything a compression request can fail with. Each variant is terminal
/// for the request that raised it; nothing is retried.
#[derive(Debug)]
pub enum CompressError {
    /// The input path does not exist (a caller-side input error).
    InputMissing,
    /// The missing ancestors of the output path could not be created.
    CreateDirFailed { detail: String },
    /// The external tool's process could not be spawned.
    ToolSpawnFailed { detail: String },
    /// The external tool exited with a non-zero status; carries its stderr
    /// text verbatim.
    ToolFailed { stderr: String },
    /// The fallback backend could not load the input document.
    PdfLoadFailed { detail: String },
    /// The fallback backend could not save the rewritten document.
    PdfSaveFailed { detail: String },
}

/// The message each error presents to the caller.
pub open spec fn spec_error_message(e: CompressError) -> Seq<char> {
    match e {
        CompressError::InputMissing => "input file does not exist"@,
        CompressError::CreateDirFailed { detail } => "failed to create the output directory: "@
            + detail@,
        CompressError::ToolSpawnFailed { detail } => "failed to run Ghostscript: "@ + detail@,
        CompressError::ToolFailed { stderr } => "Ghostscript compression failed: "@ + stderr@,
        CompressError::PdfLoadFailed { detail } => "failed to load the PDF file: "@ + detail@,
        CompressError::PdfSaveFailed { detail } => "failed to save the compressed PDF: "@
            + detail@,
    }
}

impl CompressError {
    /// Renders the error for the caller.
    pub fn message(&self) -> (r: String)
        ensures
            r@ == spec_error_message(*self),
    {
        match self {
            CompressError::InputMissing => "input file does not exist".to_owned(),
            CompressError::CreateDirFailed { detail } => {
                let mut m = "failed to create the output directory: ".to_owned();
                m.append(detail.as_str());
                m
            },
            CompressError::ToolSpawnFailed { detail } => {
                let mut m = "failed to run Ghostscript: ".to_owned();
                m.append(detail.as_str());
                m
            },
            CompressError::ToolFailed { stderr } => {
                let mut m = "Ghostscript compression failed: ".to_owned();
                m.append(stderr.as_str());
                m
            },
            CompressError::PdfLoadFailed { detail } => {
                let mut m = "failed to load the PDF file: ".to_owned();
                m.append(detail.as_str());
                m
            },
            CompressError::PdfSaveFailed { detail } => {
                let mut m = "failed to save the compressed PDF: ".to_owned();
                m.append(detail.as_str());
                m
            },
        }
    }
}

/// The space saved, in tenths of a percent of the original size:
/// `(original - compressed) * 1000 / original`, truncated.
pub open spec fn spec_ratio_tenths(original: nat, compressed: nat) -> nat
    recommends
        0 < original,
        compressed <= original,
{
    (((original - compressed) * 1000) / (original as int)) as nat
}

/// Computes the compression ratio in tenths of a percent.
pub fn ratio_tenths(original: u64, compressed: u64) -> (r: u64)
    requires
        0 < original,
        compressed <= original,
    ensures
        r == spec_ratio_tenths(original as nat, compressed as nat),
        r <= 1000,
{
    let saved = original - compressed;
    let scaled = (saved as u128) * 1000 / (original as u128);
    assert((saved as int) * 1000 / (original as int) <= 1000) by (nonlinear_arith)
        requires
            0 < original,
            saved <= original,
    ;
    scaled as u64
}

/// A ratio in tenths of a percent rendered with one decimal digit, e.g. 600
/// as `60.0`.
pub open spec fn spec_ratio_string(tenths: nat) -> Seq<char> {
    spec_u64_string(tenths / 10) + "."@ + seq![spec_digit((tenths % 10) as int)]
}

/// Renders a ratio given in tenths of a percent.
pub fn ratio_string(tenths: u64) -> (r: String)
    ensures
        r@ == spec_ratio_string(tenths as nat),
{
    let mut r = u64_to_string(tenths / 10);
    r.append(".");
    r.append(digit_str(tenths % 10));
    r
}

/// Whether a best-effort ratio can be reported: both sizes are known, the
/// original is not empty, and the output did not grow.
pub open spec fn spec_ratio_reportable(original: nat, compressed: Option<nat>) -> bool {
    match compressed {
        Some(c) => 0 < original && c <= original,
        None => false,
    }
}

/// The ratio clause shared by both backends' success messages:
/// `<ratio>% (saved <size>)`.
pub open spec fn spec_ratio_clause(original: nat, compressed: nat) -> Seq<char>
    recommends
        0 < original,
        compressed <= original,
{
    spec_ratio_string(spec_ratio_tenths(original, compressed)) + "% (saved "@
        + spec_format_file_size((original - compressed) as nat) + ")"@
}

/// The message reported after the external tool succeeded. The ratio is
/// best-effort: when a size is unknown (or useless) the message is generic
/// and the request still succeeds.
pub open spec fn spec_external_success_message(original: nat, compressed: Option<nat>) -> Seq<
    char,
> {
    if spec_ratio_reportable(original, compressed) {
        "PDF compressed successfully! Compression ratio: "@ + spec_ratio_clause(
            original,
            compressed->0,
        )
    } else {
        "PDF compressed successfully!"@
    }
}

/// The message reported after the fallback backend succeeded; it must point
/// out that the external tool would compress better.
pub open spec fn spec_fallback_success_message(original: nat, compressed: Option<nat>) -> Seq<
    char,
> {
    if spec_ratio_reportable(original, compressed) {
        "PDF compression finished! Compression ratio: "@ + spec_ratio_clause(
            original,
            compressed->0,
        ) + " - note: install Ghostscript for better compression"@
    } else {
        "PDF compression finished! Install Ghostscript for better compression"@
    }
}

/// Builds the `<ratio>% (saved <size>)` clause.
fn ratio_clause(original: u64, compressed: u64) -> (r: String)
    requires
        0 < original,
        compressed <= original,
    ensures
        r@ == spec_ratio_clause(original as nat, compressed as nat),
{
    let tenths = ratio_tenths(original, compressed);
    let mut r = ratio_string(tenths);
    r.append("% (saved ");
    let size = format_file_size(original - compressed);
    r.append(size.as_str());
    r.append(")");
    r
}

/// Builds the external backend's result for a successful tool run.
pub fn external_success(original: u64, compressed: Option<u64>) -> (r: CompressionResult)
    ensures
        r.success == true,
        r.message@ == spec_external_success_message(
            original as nat,
            match compressed {
                Some(c) => Some(c as nat),
                None => None,
            },
        ),
{
    match compressed {
        Some(c) => {
            if 0 < original && c <= original {
                let mut m = "PDF compressed successfully! Compression ratio: ".to_owned();
                let clause = ratio_clause(original, c);
                m.append(clause.as_str());
                CompressionResult { success: true, message: m }
            } else {
                CompressionResult {
                    success: true,
                    message: "PDF compressed successfully!".to_owned(),
                }
            }
        },
        None => CompressionResult { success: true, message: "PDF compressed successfully!".to_owned() },
    }
}

/// Builds the fallback backend's result for a successful rewrite.
pub fn fallback_success(original: u64, compressed: Option<u64>) -> (r: CompressionResult)
    ensures
        r.success == true,
        r.message@ == spec_fallback_success_message(
            original as nat,
            match compressed {
                Some(c) => Some(c as nat),
                None => None,
            },
        ),
{
    match compressed {
        Some(c) => {
            if 0 < original && c <= original {
                let mut m = "PDF compression finished! Compression ratio: ".to_owned();
                let clause = ratio_clause(original, c);
                m.append(clause.as_str());
                m.append(" - note: install Ghostscript for better compression");
                CompressionResult { success: true, message: m }
            } else {
                CompressionResult {
                    success: true,
                    message: "PDF compression finished! Install Ghostscript for better compression".to_owned(),
                }
            }
        },
        None => CompressionResult {
            success: true,
            message: "PDF compression finished! Install Ghostscript for better compression".to_owned(),
        },
    }
}

/// Turns the external tool's exit into the request's outcome: a zero exit
/// succeeds with a best-effort ratio; a non-zero exit is a hard failure
/// carrying the tool's stderr verbatim.
pub fn external_outcome(
    exit_success: bool,
    stderr: String,
    original: u64,
    compressed: Option<u64>,
) -> (r: Result<CompressionResult, CompressError>)
    ensures
        exit_success ==> (r matches Ok(res) && res.success == true && res.message@
            == spec_external_success_message(
            original as nat,
            match compressed {
                Some(c) => Some(c as nat),
                None => None,
            },
        )),
        !exit_success ==> (r matches Err(e) && e matches CompressError::ToolFailed {
            stderr: s,
        } && s == stderr),
{
    if exit_success {
        Ok(external_success(original, compressed))
    } else {
        Err(CompressError::ToolFailed { stderr })
    }
}

} // verus!
