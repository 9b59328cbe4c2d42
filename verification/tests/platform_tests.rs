use pdf_compressor::locator::{find_ghostscript_command, gs_candidate_commands, is_ghostscript_available};
use pdf_compressor::platform::{
    app_data_dir_for, get_bundled_ghostscript_path, get_ghostscript_download_info,
    get_manual_install_instructions, gs_executable_name, Arch, Platform,
};

#[test]
fn executable_names() {
    assert_eq!(gs_executable_name(Platform::Windows), "gs.exe");
    assert_eq!(gs_executable_name(Platform::Linux), "gs");
    assert_eq!(gs_executable_name(Platform::MacOs), "gs");
}

#[test]
fn bundled_paths() {
    assert_eq!(
        get_bundled_ghostscript_path("/home/me/.local/share/PDF_Compressor", Platform::Linux),
        "/home/me/.local/share/PDF_Compressor/ghostscript/gs"
    );
    assert_eq!(
        get_bundled_ghostscript_path("C:\\Users\\me\\AppData\\Local\\PDF_Compressor", Platform::Windows),
        "C:\\Users\\me\\AppData\\Local\\PDF_Compressor\\ghostscript\\gs.exe"
    );
}

#[test]
fn app_data_directories() {
    assert_eq!(
        app_data_dir_for(Platform::Windows, "C:\\Users\\me\\AppData\\Local"),
        "C:\\Users\\me\\AppData\\Local\\PDF_Compressor"
    );
    assert_eq!(
        app_data_dir_for(Platform::MacOs, "/Users/me"),
        "/Users/me/Library/Application Support/PDF_Compressor"
    );
    assert_eq!(
        app_data_dir_for(Platform::Linux, "/home/me"),
        "/home/me/.local/share/PDF_Compressor"
    );
}

#[test]
fn download_info_by_platform() {
    let (url64, archive64) =
        get_ghostscript_download_info(Platform::Windows, Arch::X86_64).unwrap();
    assert_eq!(
        url64,
        "https://github.com/ArtifexSoftware/ghostpdl-downloads/releases/download/gs10021/gs10021w64.exe"
    );
    assert!(!archive64);
    let (url32, _) = get_ghostscript_download_info(Platform::Windows, Arch::X86).unwrap();
    assert!(url32.ends_with("gs10021w32.exe"));
    let mac = get_ghostscript_download_info(Platform::MacOs, Arch::X86_64);
    assert_eq!(
        mac,
        Err("macOS users: please install Ghostscript with 'brew install ghostscript'".to_string())
    );
    let linux = get_ghostscript_download_info(Platform::Linux, Arch::X86_64);
    assert!(linux.unwrap_err().contains("sudo apt install ghostscript"));
}

#[test]
fn manual_instructions_name_each_channel() {
    assert!(get_manual_install_instructions(Platform::Windows).contains("gsdnld.html"));
    assert!(get_manual_install_instructions(Platform::MacOs).contains("brew install ghostscript"));
    assert!(get_manual_install_instructions(Platform::Linux).contains("sudo apt install ghostscript"));
}

#[test]
fn candidate_probing() {
    let candidates = gs_candidate_commands();
    assert_eq!(
        candidates,
        vec!["gs".to_string(), "gswin64c".to_string(), "gswin32c".to_string()]
    );
    assert!(!is_ghostscript_available(&vec![false, false, false], false));
    assert!(is_ghostscript_available(&vec![false, false, true], false));
    assert!(is_ghostscript_available(&vec![false, false, false], true));
}

#[test]
fn command_resolution_order() {
    let candidates = gs_candidate_commands();
    assert_eq!(
        find_ghostscript_command(&vec![true, true, false], &candidates, false, "/bundled/gs"),
        "gs"
    );
    assert_eq!(
        find_ghostscript_command(&vec![false, false, true], &candidates, true, "/bundled/gs"),
        "gswin32c"
    );
    assert_eq!(
        find_ghostscript_command(&vec![false, false, false], &candidates, true, "/bundled/gs"),
        "/bundled/gs"
    );
    assert_eq!(
        find_ghostscript_command(&vec![false, false, false], &candidates, false, "/bundled/gs"),
        "gs"
    );
}
