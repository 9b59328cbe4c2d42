use pdf_compressor::params::{
    build_ghostscript_args, map_preset, optimization_level, preset_from_token, CompressionPreset,
    OptimizationLevel,
};

#[test]
fn tokens_map_to_presets() {
    assert_eq!(preset_from_token("/screen"), CompressionPreset::Screen);
    assert_eq!(preset_from_token("/ebook"), CompressionPreset::Ebook);
    assert_eq!(preset_from_token("/printer"), CompressionPreset::Printer);
    assert_eq!(preset_from_token("/prepress"), CompressionPreset::Prepress);
    assert_eq!(preset_from_token("/mystery"), CompressionPreset::Default);
    assert_eq!(preset_from_token(""), CompressionPreset::Default);
}

#[test]
fn mapping_is_total_and_default_equals_ebook() {
    let presets = [
        CompressionPreset::Screen,
        CompressionPreset::Ebook,
        CompressionPreset::Printer,
        CompressionPreset::Prepress,
        CompressionPreset::Default,
    ];
    for p in presets {
        let params = map_preset(p);
        assert!(!params.pdf_settings.is_empty());
        assert!(!params.extra_args.is_empty());
    }
    let ebook = map_preset(CompressionPreset::Ebook);
    let unrecognized = map_preset(CompressionPreset::Default);
    assert_eq!(unrecognized.pdf_settings, ebook.pdf_settings);
    assert_eq!(unrecognized.extra_args, ebook.extra_args);
    assert_eq!(
        optimization_level(CompressionPreset::Default),
        optimization_level(CompressionPreset::Ebook)
    );
}

#[test]
fn screen_preset_parameters() {
    let params = map_preset(CompressionPreset::Screen);
    assert_eq!(params.pdf_settings, "/screen");
    assert_eq!(
        params.extra_args,
        vec![
            "-dColorImageResolution=72".to_string(),
            "-dGrayImageResolution=72".to_string(),
            "-dMonoImageResolution=300".to_string(),
            "-dColorImageDownsampleType=/Bicubic".to_string(),
            "-dGrayImageDownsampleType=/Bicubic".to_string(),
            "-dColorImageDownsampleThreshold=1.5".to_string(),
            "-dGrayImageDownsampleThreshold=1.5".to_string(),
            "-dEncodeColorImages=true".to_string(),
            "-dEncodeGrayImages=true".to_string(),
            "-dColorImageFilter=/DCTEncode".to_string(),
            "-dGrayImageFilter=/DCTEncode".to_string(),
            "-dJPEGQ=30".to_string(),
        ]
    );
}

#[test]
fn ebook_preset_parameters() {
    let params = map_preset(CompressionPreset::Ebook);
    assert_eq!(params.pdf_settings, "/ebook");
    assert_eq!(
        params.extra_args,
        vec![
            "-dColorImageResolution=150".to_string(),
            "-dGrayImageResolution=150".to_string(),
            "-dMonoImageResolution=300".to_string(),
            "-dColorImageDownsampleType=/Bicubic".to_string(),
            "-dGrayImageDownsampleType=/Bicubic".to_string(),
            "-dJPEGQ=50".to_string(),
        ]
    );
}

#[test]
fn printer_and_prepress_parameters() {
    let printer = map_preset(CompressionPreset::Printer);
    assert_eq!(printer.pdf_settings, "/printer");
    assert_eq!(printer.extra_args.len(), 4);
    assert_eq!(printer.extra_args[3], "-dJPEGQ=80");
    let prepress = map_preset(CompressionPreset::Prepress);
    assert_eq!(prepress.pdf_settings, "/prepress");
    assert_eq!(prepress.extra_args.len(), 6);
    assert_eq!(prepress.extra_args[4], "-dPreserveAnnots=true");
    assert_eq!(prepress.extra_args[5], "-dPreserveMarkedContent=true");
}

#[test]
fn optimization_levels() {
    assert_eq!(
        optimization_level(CompressionPreset::Screen),
        OptimizationLevel::Aggressive
    );
    assert_eq!(
        optimization_level(CompressionPreset::Ebook),
        OptimizationLevel::Balanced
    );
    assert_eq!(
        optimization_level(CompressionPreset::Printer),
        OptimizationLevel::Quality
    );
    assert_eq!(
        optimization_level(CompressionPreset::Prepress),
        OptimizationLevel::Maximum
    );
}

#[test]
fn ghostscript_argument_list() {
    let args = build_ghostscript_args(CompressionPreset::Printer, "in.pdf", "out/dir/out.pdf");
    let expected: Vec<String> = vec![
        "-sDEVICE=pdfwrite".to_string(),
        "-dCompatibilityLevel=1.4".to_string(),
        "-dPDFSETTINGS=/printer".to_string(),
        "-dNOPAUSE".to_string(),
        "-dQUIET".to_string(),
        "-dBATCH".to_string(),
        "-dSAFER".to_string(),
        "-dAutoRotatePages=/None".to_string(),
        "-dColorConversionStrategy=/LeaveColorUnchanged".to_string(),
        "-dDownsampleColorImages=true".to_string(),
        "-dDownsampleGrayImages=true".to_string(),
        "-dDownsampleMonoImages=true".to_string(),
        "-dOptimize=true".to_string(),
        "-dEmbedAllFonts=true".to_string(),
        "-dSubsetFonts=true".to_string(),
        "-dCompressFonts=true".to_string(),
        "-dNOPLATFONTS".to_string(),
        "-dColorImageResolution=300".to_string(),
        "-dGrayImageResolution=300".to_string(),
        "-dMonoImageResolution=1200".to_string(),
        "-dJPEGQ=80".to_string(),
        "-sOutputFile=out/dir/out.pdf".to_string(),
        "in.pdf".to_string(),
    ];
    assert_eq!(args, expected);
}
