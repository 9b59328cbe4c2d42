//! Mapping from an abstract compression-quality preset to backend-specific
//! parameters: the Ghostscript `-dPDFSETTINGS` token with its preset-specific
//! flags, the full Ghostscript argument list, and the structural-optimization
//! aggressiveness of the in-process fallback backend.
//!
//! The mapping is a total, deterministic table lookup with no error path; an
//! unrecognized preset token deliberately falls back to the balanced "ebook"
//! entry rather than failing.

use vstd::prelude::*;
use vstd::string::*;

use crate::strutil::str_eq;

verus! {

/// A named quality/size tradeoff level. `Default` is what an unrecognized
/// request token maps to.
#[derive(Clone, Copy, Debug, PartialEq, Eq, Structural)]
pub enum CompressionPreset {
    Screen,
    Ebook,
    Printer,
    Prepress,
    Default,
}

/// The preset a request token selects: the four known tokens name their
/// preset, anything else is `Default`.
pub open spec fn spec_preset_from_token(token: Seq<char>) -> CompressionPreset {
    if token == "/screen"@ {
        CompressionPreset::Screen
    } else if token == "/ebook"@ {
        CompressionPreset::Ebook
    } else if token == "/printer"@ {
        CompressionPreset::Printer
    } else if token == "/prepress"@ {
        CompressionPreset::Prepress
    } else {
        CompressionPreset::Default
    }
}

/// Parses a request's preset token.
pub fn preset_from_token(token: &str) -> (r: CompressionPreset)
    ensures
        r == spec_preset_from_token(token@),
{
    if str_eq(token, "/screen") {
        CompressionPreset::Screen
    } else if str_eq(token, "/ebook") {
        CompressionPreset::Ebook
    } else if str_eq(token, "/printer") {
        CompressionPreset::Printer
    } else if str_eq(token, "/prepress") {
        CompressionPreset::Prepress
    } else {
        CompressionPreset::Default
    }
}

/// How aggressively the fallback backend is asked to optimize.
#[derive(Clone, Copy, Debug, PartialEq, Eq, Structural)]
pub enum OptimizationLevel {
    Aggressive,
    Balanced,
    Quality,
    Maximum,
}

/// The fallback backend's aggressiveness for each preset.
pub open spec fn spec_optimization_level(preset: CompressionPreset) -> OptimizationLevel {
    match preset {
        CompressionPreset::Screen => OptimizationLevel::Aggressive,
        CompressionPreset::Ebook => OptimizationLevel::Balanced,
        CompressionPreset::Printer => OptimizationLevel::Quality,
        CompressionPreset::Prepress => OptimizationLevel::Maximum,
        CompressionPreset::Default => OptimizationLevel::Balanced,
    }
}

/// Maps a preset to the fallback backend's aggressiveness.
pub fn optimization_level(preset: CompressionPreset) -> (r: OptimizationLevel)
    ensures
        r == spec_optimization_level(preset),
{
    match preset {
        CompressionPreset::Screen => OptimizationLevel::Aggressive,
        CompressionPreset::Ebook => OptimizationLevel::Balanced,
        CompressionPreset::Printer => OptimizationLevel::Quality,
        CompressionPreset::Prepress => OptimizationLevel::Maximum,
        CompressionPreset::Default => OptimizationLevel::Balanced,
    }
}

/// The `-dPDFSETTINGS` value for each preset.
pub open spec fn spec_pdf_settings(preset: CompressionPreset) -> Seq<char> {
    match preset {
        CompressionPreset::Screen => "/screen"@,
        CompressionPreset::Ebook => "/ebook"@,
        CompressionPreset::Printer => "/printer"@,
        CompressionPreset::Prepress => "/prepress"@,
        CompressionPreset::Default => "/ebook"@,
    }
}

/// The preset-specific Ghostscript flags: image down-sampling resolutions and
/// the JPEG quality target.
pub open spec fn spec_extra_args(preset: CompressionPreset) -> Seq<Seq<char>> {
    match preset {
        CompressionPreset::Screen => seq![
            "-dColorImageResolution=72"@,
            "-dGrayImageResolution=72"@,
            "-dMonoImageResolution=300"@,
            "-dColorImageDownsampleType=/Bicubic"@,
            "-dGrayImageDownsampleType=/Bicubic"@,
            "-dColorImageDownsampleThreshold=1.5"@,
            "-dGrayImageDownsampleThreshold=1.5"@,
            "-dEncodeColorImages=true"@,
            "-dEncodeGrayImages=true"@,
            "-dColorImageFilter=/DCTEncode"@,
            "-dGrayImageFilter=/DCTEncode"@,
            "-dJPEGQ=30"@,
        ],
        CompressionPreset::Printer => seq![
            "-dColorImageResolution=300"@,
            "-dGrayImageResolution=300"@,
            "-dMonoImageResolution=1200"@,
            "-dJPEGQ=80"@,
        ],
        CompressionPreset::Prepress => seq![
            "-dColorImageResolution=300"@,
            "-dGrayImageResolution=300"@,
            "-dMonoImageResolution=1200"@,
            "-dJPEGQ=90"@,
            "-dPreserveAnnots=true"@,
            "-dPreserveMarkedContent=true"@,
        ],
        _ => seq![
            "-dColorImageResolution=150"@,
            "-dGrayImageResolution=150"@,
            "-dMonoImageResolution=300"@,
            "-dColorImageDownsampleType=/Bicubic"@,
            "-dGrayImageDownsampleType=/Bicubic"@,
            "-dJPEGQ=50"@,
        ],
    }
}

/// The preset mapping is total — every token yields a preset and every
/// preset yields parameters, with no error path — and an unrecognized token
/// maps identically to the `Ebook` entry: the same `-dPDFSETTINGS` value,
/// the same preset-specific flags, and the same fallback aggressiveness.
pub proof fn lemma_unrecognized_token_maps_as_ebook(token: Seq<char>)
    requires
        token != "/screen"@,
        token != "/ebook"@,
        token != "/printer"@,
        token != "/prepress"@,
    ensures
        spec_preset_from_token(token) == CompressionPreset::Default,
        spec_pdf_settings(spec_preset_from_token(token)) == spec_pdf_settings(
            CompressionPreset::Ebook,
        ),
        spec_extra_args(spec_preset_from_token(token)) == spec_extra_args(
            CompressionPreset::Ebook,
        ),
        spec_optimization_level(spec_preset_from_token(token)) == spec_optimization_level(
            CompressionPreset::Ebook,
        ),
{
}

/// The backend-specific parameters a preset maps to.
pub struct BackendParameters {
    pub pdf_settings: String,
    pub extra_args: Vec<String>,
}

/// Maps a preset to its backend parameters. The mapping is total and never
/// fails; `Default` yields exactly the `Ebook` entry.
pub fn map_preset(preset: CompressionPreset) -> (r: BackendParameters)
    ensures
        r.pdf_settings@ == spec_pdf_settings(preset),
        r.extra_args.deep_view() == spec_extra_args(preset),
{
    let pdf_settings = match preset {
        CompressionPreset::Screen => "/screen".to_owned(),
        CompressionPreset::Ebook => "/ebook".to_owned(),
        CompressionPreset::Printer => "/printer".to_owned(),
        CompressionPreset::Prepress => "/prepress".to_owned(),
        CompressionPreset::Default => "/ebook".to_owned(),
    };
    let mut extra_args: Vec<String> = Vec::new();
    match preset {
        CompressionPreset::Screen => {
            extra_args.push("-dColorImageResolution=72".to_owned());
            extra_args.push("-dGrayImageResolution=72".to_owned());
            extra_args.push("-dMonoImageResolution=300".to_owned());
            extra_args.push("-dColorImageDownsampleType=/Bicubic".to_owned());
            extra_args.push("-dGrayImageDownsampleType=/Bicubic".to_owned());
            extra_args.push("-dColorImageDownsampleThreshold=1.5".to_owned());
            extra_args.push("-dGrayImageDownsampleThreshold=1.5".to_owned());
            extra_args.push("-dEncodeColorImages=true".to_owned());
            extra_args.push("-dEncodeGrayImages=true".to_owned());
            extra_args.push("-dColorImageFilter=/DCTEncode".to_owned());
            extra_args.push("-dGrayImageFilter=/DCTEncode".to_owned());
            extra_args.push("-dJPEGQ=30".to_owned());
        },
        CompressionPreset::Printer => {
            extra_args.push("-dColorImageResolution=300".to_owned());
            extra_args.push("-dGrayImageResolution=300".to_owned());
            extra_args.push("-dMonoImageResolution=1200".to_owned());
            extra_args.push("-dJPEGQ=80".to_owned());
        },
        CompressionPreset::Prepress => {
            extra_args.push("-dColorImageResolution=300".to_owned());
            extra_args.push("-dGrayImageResolution=300".to_owned());
            extra_args.push("-dMonoImageResolution=1200".to_owned());
            extra_args.push("-dJPEGQ=90".to_owned());
            extra_args.push("-dPreserveAnnots=true".to_owned());
            extra_args.push("-dPreserveMarkedContent=true".to_owned());
        },
        _ => {
            extra_args.push("-dColorImageResolution=150".to_owned());
            extra_args.push("-dGrayImageResolution=150".to_owned());
            extra_args.push("-dMonoImageResolution=300".to_owned());
            extra_args.push("-dColorImageDownsampleType=/Bicubic".to_owned());
            extra_args.push("-dGrayImageDownsampleType=/Bicubic".to_owned());
            extra_args.push("-dJPEGQ=50".to_owned());
        },
    }
    proof {
        assert(extra_args.deep_view() =~= spec_extra_args(preset));
    }
    BackendParameters { pdf_settings, extra_args }
}

/// The full Ghostscript invocation for one request: fixed baseline flags (the
/// pdfwrite device, compatibility level, batch/quiet/safer operation, font
/// embedding and subsetting, image down-sampling), then the preset-specific
/// flags, then the output and input paths.
pub open spec fn spec_gs_args(
    preset: CompressionPreset,
    input_path: Seq<char>,
    output_path: Seq<char>,
) -> Seq<Seq<char>> {
    seq![
        "-sDEVICE=pdfwrite"@,
        "-dCompatibilityLevel=1.4"@,
        "-dPDFSETTINGS="@ + spec_pdf_settings(preset),
        "-dNOPAUSE"@,
        "-dQUIET"@,
        "-dBATCH"@,
        "-dSAFER"@,
        "-dAutoRotatePages=/None"@,
        "-dColorConversionStrategy=/LeaveColorUnchanged"@,
        "-dDownsampleColorImages=true"@,
        "-dDownsampleGrayImages=true"@,
        "-dDownsampleMonoImages=true"@,
        "-dOptimize=true"@,
        "-dEmbedAllFonts=true"@,
        "-dSubsetFonts=true"@,
        "-dCompressFonts=true"@,
        "-dNOPLATFONTS"@,
    ] + spec_extra_args(preset) + seq!["-sOutputFile="@ + output_path, input_path]
}

/// Builds the argument list handed to the Ghostscript process.
pub fn build_ghostscript_args(preset: CompressionPreset, input_path: &str, output_path: &str) -> (r:
    Vec<String>)
    ensures
        r.deep_view() == spec_gs_args(preset, input_path@, output_path@),
{
    let params = map_preset(preset);
    let mut args: Vec<String> = Vec::new();
    args.push("-sDEVICE=pdfwrite".to_owned());
    args.push("-dCompatibilityLevel=1.4".to_owned());
    let mut settings_arg = "-dPDFSETTINGS=".to_owned();
    settings_arg.append(params.pdf_settings.as_str());
    args.push(settings_arg);
    args.push("-dNOPAUSE".to_owned());
    args.push("-dQUIET".to_owned());
    args.push("-dBATCH".to_owned());
    args.push("-dSAFER".to_owned());
    args.push("-dAutoRotatePages=/None".to_owned());
    args.push("-dColorConversionStrategy=/LeaveColorUnchanged".to_owned());
    args.push("-dDownsampleColorImages=true".to_owned());
    args.push("-dDownsampleGrayImages=true".to_owned());
    args.push("-dDownsampleMonoImages=true".to_owned());
    args.push("-dOptimize=true".to_owned());
    args.push("-dEmbedAllFonts=true".to_owned());
    args.push("-dSubsetFonts=true".to_owned());
    args.push("-dCompressFonts=true".to_owned());
    args.push("-dNOPLATFONTS".to_owned());
    let ghost baseline_len: int = args@.len() as int;
    let mut i: usize = 0;
    while i < params.extra_args.len()
        invariant
            baseline_len == 17,
            args@.len() == baseline_len + i,
            i <= params.extra_args@.len(),
            params.extra_args.deep_view() == spec_extra_args(preset),
            args.deep_view() =~= spec_gs_args(preset, input_path@, output_path@).take(
                baseline_len + i,
            ),
        decreases params.extra_args.len() - i,
    {
        let arg = params.extra_args[i].clone();
        args.push(arg);
        proof {
            assert(args.deep_view() =~= spec_gs_args(preset, input_path@, output_path@).take(
                baseline_len + i + 1,
            ));
        }
        i = i + 1;
    }
    let mut out_arg = "-sOutputFile=".to_owned();
    out_arg.append(output_path);
    args.push(out_arg);
    args.push(input_path.to_owned());
    proof {
        let s = spec_gs_args(preset, input_path@, output_path@);
        assert(s.len() == 19 + spec_extra_args(preset).len());
        assert(args.deep_view().len() == s.len());
        assert(args.deep_view() =~= s.take(s.len() - 2).push(s[s.len() - 2]).push(
            s[s.len() - 1],
        ));
        assert(s =~= s.take(s.len() - 2).push(s[s.len() - 2]).push(s[s.len() - 1]));
    }
    args
}

} // verus!
