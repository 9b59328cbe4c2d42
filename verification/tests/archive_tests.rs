use std::io::Write;

use pdf_compressor::archive::{
    batch_file_name, double_backslashes, extract_archive, extract_tar_gz, installer_batch_script,
    installer_file_name, select_gs_source, standard_gs_subpaths, windows_install_command,
    ExtractionPlan, GsBinarySource,
};
use pdf_compressor::platform::Platform;
use pdf_compressor::search::FsEntry;

fn gzip(data: &[u8]) -> Vec<u8> {
    let mut encoder =
        flate2::write::GzEncoder::new(Vec::new(), flate2::Compression::default());
    encoder.write_all(data).unwrap();
    encoder.finish().unwrap()
}

#[test]
fn gzip_round_trip() {
    let payload = b"a tar stream would live here, repeated: tar tar tar tar tar".to_vec();
    let compressed = gzip(&payload);
    assert_ne!(compressed, payload);
    let decompressed = extract_tar_gz(&compressed).unwrap();
    assert_eq!(decompressed, payload);
}

#[test]
fn invalid_gzip_is_rejected() {
    let garbage = vec![0u8, 1, 2, 3, 4, 5];
    let r = extract_tar_gz(&garbage);
    assert!(r.is_err());
    assert!(r
        .unwrap_err()
        .starts_with("failed to decompress the downloaded archive: "));
}

#[test]
fn windows_payload_goes_through_the_installer() {
    let payload = vec![7u8; 32];
    match extract_archive(Platform::Windows, &payload) {
        Ok(ExtractionPlan::RunWindowsInstaller) => {}
        _ => panic!("a Windows payload must run the silent installer"),
    }
}

#[test]
fn unix_payload_is_decompressed() {
    let payload = b"unpacked by tar later".to_vec();
    let compressed = gzip(&payload);
    match extract_archive(Platform::Linux, &compressed) {
        Ok(ExtractionPlan::UnpackTar { tar_bytes }) => assert_eq!(tar_bytes, payload),
        _ => panic!("a Unix payload must be decompressed"),
    }
    assert!(extract_archive(Platform::MacOs, &vec![1u8, 2, 3]).is_err());
}

#[test]
fn backslash_doubling() {
    assert_eq!(double_backslashes(""), "");
    assert_eq!(double_backslashes("no separators"), "no separators");
    assert_eq!(
        double_backslashes("C:\\Users\\me\\gs"),
        "C:\\\\Users\\\\me\\\\gs"
    );
}

#[test]
fn batch_script_contents() {
    let script = installer_batch_script("C:\\data\\gs_installer.exe", "C:\\data\\gs");
    assert_eq!(
        script,
        "@echo off\r\n\"C:\\data\\gs_installer.exe\" /S /D=\"C:\\\\data\\\\gs\"\r\nexit %errorlevel%"
    );
}

#[test]
fn installer_artifacts_and_command() {
    assert_eq!(installer_file_name(), "gs_installer.exe");
    assert_eq!(batch_file_name(), "install_gs.bat");
    let (cmd, args) = windows_install_command("C:\\data\\install_gs.bat");
    assert_eq!(cmd, "cmd");
    assert_eq!(args, vec!["/C".to_string(), "C:\\data\\install_gs.bat".to_string()]);
}

#[test]
fn conventional_subpaths_come_first() {
    let subpaths = standard_gs_subpaths();
    assert_eq!(subpaths.len(), 6);
    assert_eq!(subpaths[0], vec!["bin".to_string(), "gswin64c.exe".to_string()]);
    assert_eq!(
        subpaths[4],
        vec![
            "gs10021".to_string(),
            "bin".to_string(),
            "gswin64c.exe".to_string()
        ]
    );

    let tree = vec![FsEntry::Dir {
        name: "odd".to_string(),
        entries: vec![FsEntry::File { name: "gs.exe".to_string() }],
    }];

    // A conventional hit wins even when the search would also find a file.
    let hits = vec![false, true, false, false, false, false];
    match select_gs_source(&hits, &tree) {
        GsBinarySource::StandardPath { index } => assert_eq!(index, 1),
        _ => panic!("the conventional path must win"),
    }

    // With no conventional hit the recursive search decides.
    let no_hits = vec![false; 6];
    match select_gs_source(&no_hits, &tree) {
        GsBinarySource::Located { path } => {
            assert_eq!(path, vec!["odd".to_string(), "gs.exe".to_string()])
        }
        _ => panic!("the recursive search must find the file"),
    }

    // With nothing found anywhere, the raw installer is the last resort.
    let empty: Vec<FsEntry> = Vec::new();
    assert!(matches!(
        select_gs_source(&no_hits, &empty),
        GsBinarySource::InstallerItself
    ));
}
