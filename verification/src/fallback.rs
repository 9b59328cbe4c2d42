//! The in-process fallback backend: when the external tool is absent, the
//! input document is rewritten with the `lopdf` library — its built-in
//! stream-compression pass, then a pruning pass that drops objects
//! unreachable from the document root, then a save. No image recompression
//! or font subsetting happens here, so the success message points the caller
//! at the external tool. Any load or save failure from the library is
//! surfaced as the sole error; there is no retry.

use vstd::prelude::*;

use crate::outcome::{
    fallback_success, spec_fallback_success_message, CompressError, CompressionResult,
};
use crate::params::{optimization_level, CompressionPreset, OptimizationLevel};

verus! {

#[verifier::external_type_specification]
#[verifier::external_body]
pub struct ExDocument(lopdf::Document);

/// Whether `lopdf` parses these bytes as a PDF document: loading is a pure
/// function of the bytes, succeeding exactly on input the library accepts.
pub uninterp spec fn lopdf_parses(data: Seq<u8>) -> bool;

/// Relies on lopdf::Document::load_mem: parses a PDF document from a memory
/// slice; whether it succeeds depends on the bytes alone.
#[verifier::external_body]
fn load_document(data: &[u8]) -> (r: Result<lopdf::Document, String>)
    ensures
        r is Ok <==> lopdf_parses(data@),
{
    lopdf::Document::load_mem(data).map_err(|e| format!("{}", e))
}

/// Relies on lopdf::Document::compress: compresses the document's stream
/// objects in place (streams that fail to compress are left alone).
#[verifier::external_body]
fn compress_document(doc: &mut lopdf::Document) {
    doc.compress();
}

/// Relies on lopdf::Document::prune_objects: removes every object that is
/// unreachable from the document root.
#[verifier::external_body]
fn prune_document(doc: &mut lopdf::Document) {
    let _ = doc.prune_objects();
}

/// Relies on lopdf::Document::save_to: serializes the document into bytes.
#[verifier::external_body]
fn save_document(doc: &mut lopdf::Document) -> (r: Result<Vec<u8>, String>)
{
    let mut out: Vec<u8> = Vec::new();
    match doc.save_to(&mut out) {
        Ok(()) => Ok(out),
        Err(e) => Err(format!("{}", e)),
    }
}

/// The structural optimization pass: compress the document's streams, then
/// prune unreferenced objects. The aggressiveness tag travels with the call
/// for the backend's interface; the structural passes themselves are the
/// same at every level.
pub fn enhanced_pdf_optimization(doc: &mut lopdf::Document, level: OptimizationLevel) {
    compress_document(doc);
    prune_document(doc);
}

/// Rewrites a document with the fallback backend: load from bytes, optimize
/// structurally at the preset's aggressiveness, save to bytes, and report the
/// result with a best-effort ratio against `original_size` (the input file's
/// size on disk). Fails with `PdfLoadFailed` exactly when the library rejects
/// the input bytes, and otherwise only with `PdfSaveFailed`.
pub fn compress_with_enhanced_lopdf(
    data: &Vec<u8>,
    original_size: u64,
    preset: CompressionPreset,
) -> (r: Result<(Vec<u8>, CompressionResult), CompressError>)
    ensures
        !lopdf_parses(data@) <==> (r matches Err(e) && e is PdfLoadFailed),
        r matches Err(e) ==> (e is PdfLoadFailed || e is PdfSaveFailed),
        r matches Ok(out) ==> out.1.success == true && out.1.message@
            == spec_fallback_success_message(original_size as nat, Some(out.0@.len())),
{
    let level = optimization_level(preset);
    match load_document(data.as_slice()) {
        Ok(mut doc) => {
            enhanced_pdf_optimization(&mut doc, level);
            match save_document(&mut doc) {
                Ok(bytes) => {
                    let compressed_size = bytes.len() as u64;
                    let result = fallback_success(original_size, Some(compressed_size));
                    Ok((bytes, result))
                },
                Err(detail) => Err(CompressError::PdfSaveFailed { detail }),
            }
        },
        Err(detail) => Err(CompressError::PdfLoadFailed { detail }),
    }
}

} // verus!
