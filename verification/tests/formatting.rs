use pdf_compressor::outcome::{
    external_outcome, external_success, fallback_success, ratio_string, ratio_tenths,
    CompressError,
};
use pdf_compressor::size_format::format_file_size;
use pdf_compressor::strutil::{eq_ignore_ascii_case, lower_char, str_eq, u64_to_string};

#[test]
fn u64_rendering() {
    assert_eq!(u64_to_string(0), "0");
    assert_eq!(u64_to_string(7), "7");
    assert_eq!(u64_to_string(10), "10");
    assert_eq!(u64_to_string(1536), "1536");
    assert_eq!(u64_to_string(18446744073709551615), "18446744073709551615");
}

#[test]
fn size_format_zero_bytes() {
    assert_eq!(format_file_size(0), "0 B");
}

#[test]
fn size_format_kilobytes() {
    assert_eq!(format_file_size(1536), "1.5 KB");
}

#[test]
fn size_format_gigabyte() {
    assert_eq!(format_file_size(1073741824), "1.0 GB");
}

#[test]
fn size_format_edges() {
    assert_eq!(format_file_size(1), "1 B");
    assert_eq!(format_file_size(1023), "1023 B");
    assert_eq!(format_file_size(1024), "1.0 KB");
    // 1048575 bytes is 1023.9990 KB: the tenths round up and carry.
    assert_eq!(format_file_size(1048575), "1024.0 KB");
    assert_eq!(format_file_size(1048576), "1.0 MB");
    assert_eq!(format_file_size(600000), "585.9 KB");
}

#[test]
fn size_format_largest_count() {
    assert_eq!(format_file_size(u64::MAX), "17179869184.0 GB");
}

#[test]
fn ratio_of_sixty_percent() {
    let tenths = ratio_tenths(1_000_000, 400_000);
    assert_eq!(tenths, 600);
    assert_eq!(ratio_string(tenths), "60.0");
}

#[test]
fn ratio_rounds_down() {
    // 123456 of 1000000 saved: 12.3456% reported as 12.3.
    assert_eq!(ratio_string(ratio_tenths(1_000_000, 876_544)), "12.3");
}

#[test]
fn external_success_message_reports_ratio() {
    let r = external_success(1_000_000, Some(400_000));
    assert!(r.success);
    assert_eq!(
        r.message,
        "PDF compressed successfully! Compression ratio: 60.0% (saved 585.9 KB)"
    );
}

#[test]
fn external_success_without_sizes_is_generic() {
    let r = external_success(1_000_000, None);
    assert!(r.success);
    assert_eq!(r.message, "PDF compressed successfully!");
    // A grown output yields no ratio either, but still succeeds.
    let grown = external_success(1000, Some(2000));
    assert!(grown.success);
    assert_eq!(grown.message, "PDF compressed successfully!");
}

#[test]
fn fallback_success_message_mentions_the_tool() {
    let r = fallback_success(1_000_000, Some(400_000));
    assert!(r.success);
    assert_eq!(
        r.message,
        "PDF compression finished! Compression ratio: 60.0% (saved 585.9 KB) - note: install Ghostscript for better compression"
    );
    let generic = fallback_success(0, Some(10));
    assert_eq!(
        generic.message,
        "PDF compression finished! Install Ghostscript for better compression"
    );
}

#[test]
fn external_failure_carries_stderr() {
    let r = external_outcome(false, "boom".to_string(), 10, None);
    match r {
        Err(CompressError::ToolFailed { stderr }) => assert_eq!(stderr, "boom"),
        _ => panic!("expected a tool failure"),
    }
}

#[test]
fn error_messages() {
    assert_eq!(
        CompressError::InputMissing.message(),
        "input file does not exist"
    );
    assert_eq!(
        CompressError::CreateDirFailed { detail: "denied".to_string() }.message(),
        "failed to create the output directory: denied"
    );
    assert_eq!(
        CompressError::ToolSpawnFailed { detail: "no such file".to_string() }.message(),
        "failed to run Ghostscript: no such file"
    );
    assert_eq!(
        CompressError::ToolFailed { stderr: "bad flag".to_string() }.message(),
        "Ghostscript compression failed: bad flag"
    );
    assert_eq!(
        CompressError::PdfLoadFailed { detail: "not a pdf".to_string() }.message(),
        "failed to load the PDF file: not a pdf"
    );
    assert_eq!(
        CompressError::PdfSaveFailed { detail: "io".to_string() }.message(),
        "failed to save the compressed PDF: io"
    );
}

#[test]
fn string_helpers() {
    assert!(str_eq("abc", "abc"));
    assert!(!str_eq("abc", "abd"));
    assert!(!str_eq("abc", "ab"));
    assert_eq!(lower_char('A'), 'a');
    assert_eq!(lower_char('Z'), 'z');
    assert_eq!(lower_char('a'), 'a');
    assert_eq!(lower_char('7'), '7');
    assert!(eq_ignore_ascii_case("GsWiN64c.ExE", "gswin64c.exe"));
    assert!(!eq_ignore_ascii_case("gswin64c.ex", "gswin64c.exe"));
}

#[test]
fn greeting() {
    assert_eq!(
        pdf_compressor::greet("World"),
        "Hello, World! You've been greeted from Rust!"
    );
}
