//! Turning a downloaded Ghostscript payload into an installed executable.
//!
//! On Windows the payload is a silent installer: the library plans where to
//! store it, generates the batch script that runs it, and — once the
//! installer has run and the embedding process reports what it left behind —
//! picks which file to copy to the canonical target (a conventional install
//! path first, then a recursive search, then the raw installer itself as the
//! explicitly allowed last resort). Elsewhere the payload is a gzip'd tar
//! archive: the library decompresses it, and the embedding process unpacks
//! the tar stream to disk and hands the resulting tree to the verified
//! search.

use vstd::prelude::*;
use vstd::string::*;

use crate::locator::{lemma_first_true_at, lemma_first_true_none, spec_first_true};
use crate::platform::Platform;
use crate::search::{find_in_entries, spec_find_in_entries, FsEntry, SearchTarget};

verus! {

/// What gzip decompression yields for given input bytes: the decompressed
/// bytes, or nothing when the input is not a valid gzip stream.
pub uninterp spec fn gunzip_of(data: Seq<u8>) -> Option<Seq<u8>>;

/// Relies on flate2::read::GzDecoder (driven by std's `read_to_end`): gzip
/// decompression, a pure function of the input bytes; it fails exactly on
/// input that is not a complete, valid gzip stream.
#[verifier::external_body]
fn gunzip(data: &[u8]) -> (r: Result<Vec<u8>, String>)
    ensures
        r is Ok <==> gunzip_of(data@) is Some,
        r matches Ok(v) ==> Some(v@) == gunzip_of(data@),
{
    let mut decoder = flate2::read::GzDecoder::new(data);
    let mut out: Vec<u8> = Vec::new();
    match std::io::Read::read_to_end(&mut decoder, &mut out) {
        Ok(_) => Ok(out),
        Err(e) => Err(format!("{}", e)),
    }
}

/// Decompresses a gzip'd tar payload. The returned bytes are the tar stream
/// for the embedding process to unpack; the error case carries the decoder's
/// diagnostic.
pub fn extract_tar_gz(data: &Vec<u8>) -> (r: Result<Vec<u8>, String>)
    ensures
        r is Ok <==> gunzip_of(data@) is Some,
        r matches Ok(v) ==> Some(v@) == gunzip_of(data@),
{
    match gunzip(data.as_slice()) {
        Ok(tar_bytes) => Ok(tar_bytes),
        Err(e) => {
            let mut m = "failed to decompress the downloaded archive: ".to_owned();
            m.append(e.as_str());
            Err(m)
        },
    }
}

/// How a downloaded payload is to be installed.
pub enum ExtractionPlan {
    /// The payload is a Windows installer: store it and run it silently.
    RunWindowsInstaller,
    /// The payload was a gzip'd tar archive: unpack this tar stream and
    /// search the result for the executable.
    UnpackTar { tar_bytes: Vec<u8> },
}

/// Decides how a downloaded payload is installed: Windows payloads go through
/// the silent installer, anything else is treated as a gzip'd tar archive and
/// decompressed here.
pub fn extract_archive(platform: Platform, data: &Vec<u8>) -> (r: Result<ExtractionPlan, String>)
    ensures
        platform == Platform::Windows ==> (r matches Ok(plan) && plan is RunWindowsInstaller),
        platform != Platform::Windows ==> ((r is Ok <==> gunzip_of(data@) is Some) && (
        r matches Ok(plan) ==> plan matches ExtractionPlan::UnpackTar { tar_bytes } && Some(
            tar_bytes@,
        ) == gunzip_of(data@))),
{
    if platform == Platform::Windows {
        Ok(ExtractionPlan::RunWindowsInstaller)
    } else {
        match extract_tar_gz(data) {
            Ok(tar_bytes) => Ok(ExtractionPlan::UnpackTar { tar_bytes }),
            Err(e) => Err(e),
        }
    }
}

/// A string with every backslash doubled, for embedding a Windows path in a
/// batch script.
pub open spec fn spec_double_backslashes(s: Seq<char>) -> Seq<char>
    decreases s.len(),
{
    if s.len() == 0 {
        Seq::empty()
    } else {
        spec_double_backslashes(s.drop_last()) + (if s.last() == '\\' {
            seq!['\\', '\\']
        } else {
            seq![s.last()]
        })
    }
}

/// Doubles every backslash in `s`.
pub fn double_backslashes(s: &str) -> (r: String)
    ensures
        r@ == spec_double_backslashes(s@),
{
    let len = s.unicode_len();
    let mut r = String::new();
    let mut i: usize = 0;
    while i < len
        invariant
            i <= len,
            len == s@.len(),
            r@ == spec_double_backslashes(s@.take(i as int)),
        decreases len - i,
    {
        let c = s.get_char(i);
        if c == '\\' {
            r.append("\\\\");
            proof {
                reveal_strlit("\\\\");
            }
        } else {
            let piece = s.substring_char(i, i + 1);
            r.append(piece);
        }
        proof {
            assert(s@.take(i as int + 1).drop_last() =~= s@.take(i as int));
            assert(s@.take(i as int + 1).last() == s@[i as int]);
            assert(r@ =~= spec_double_backslashes(s@.take(i as int + 1)));
        }
        i = i + 1;
    }
    proof {
        assert(s@.take(len as int) =~= s@);
    }
    r
}

/// The file name the downloaded installer is stored under.
pub fn installer_file_name() -> (r: String)
    ensures
        r@ == "gs_installer.exe"@,
{
    "gs_installer.exe".to_owned()
}

/// The file name of the generated installation batch script.
pub fn batch_file_name() -> (r: String)
    ensures
        r@ == "install_gs.bat"@,
{
    "install_gs.bat".to_owned()
}

/// The batch script that runs the stored installer silently into the install
/// directory (written as a script to sidestep quoting trouble in the direct
/// invocation), ending with the installer's own exit code.
pub open spec fn spec_installer_batch_script(
    installer_path: Seq<char>,
    install_dir: Seq<char>,
) -> Seq<char> {
    "@echo off\r\n\""@ + installer_path + "\" /S /D=\""@ + spec_double_backslashes(install_dir)
        + "\"\r\nexit %errorlevel%"@
}

/// Generates the batch script that performs the silent install.
pub fn installer_batch_script(installer_path: &str, install_dir: &str) -> (r: String)
    ensures
        r@ == spec_installer_batch_script(installer_path@, install_dir@),
{
    let mut r = "@echo off\r\n\"".to_owned();
    r.append(installer_path);
    r.append("\" /S /D=\"");
    let doubled = double_backslashes(install_dir);
    r.append(doubled.as_str());
    r.append("\"\r\nexit %errorlevel%");
    r
}

/// The command that executes the batch script.
pub fn windows_install_command(batch_path: &str) -> (r: (String, Vec<String>))
    ensures
        r.0@ == "cmd"@,
        r.1.deep_view() == seq!["/C"@, batch_path@],
{
    let mut args: Vec<String> = Vec::new();
    args.push("/C".to_owned());
    args.push(batch_path.to_owned());
    proof {
        assert(args.deep_view() =~= seq!["/C"@, batch_path@]);
    }
    ("cmd".to_owned(), args)
}

/// The conventional locations, relative to the install directory, where the
/// installer is expected to leave the executable, checked in this order.
pub open spec fn spec_standard_gs_subpaths() -> Seq<Seq<Seq<char>>> {
    seq![
        seq!["bin"@, "gswin64c.exe"@],
        seq!["bin"@, "gswin32c.exe"@],
        seq!["gs"@, "bin"@, "gswin64c.exe"@],
        seq!["gs"@, "bin"@, "gswin32c.exe"@],
        seq!["gs10021"@, "bin"@, "gswin64c.exe"@],
        seq!["gs10021"@, "bin"@, "gswin32c.exe"@],
    ]
}

/// Returns the conventional install-relative paths, as name components.
pub fn standard_gs_subpaths() -> (r: Vec<Vec<String>>)
    ensures
        r.deep_view() == spec_standard_gs_subpaths(),
{
    let mut r: Vec<Vec<String>> = Vec::new();
    let mut bin64: Vec<String> = Vec::new();
    bin64.push("bin".to_owned());
    bin64.push("gswin64c.exe".to_owned());
    r.push(bin64);
    let mut bin32: Vec<String> = Vec::new();
    bin32.push("bin".to_owned());
    bin32.push("gswin32c.exe".to_owned());
    r.push(bin32);
    let mut gsdir64: Vec<String> = Vec::new();
    gsdir64.push("gs".to_owned());
    gsdir64.push("bin".to_owned());
    gsdir64.push("gswin64c.exe".to_owned());
    r.push(gsdir64);
    let mut gsdir32: Vec<String> = Vec::new();
    gsdir32.push("gs".to_owned());
    gsdir32.push("bin".to_owned());
    gsdir32.push("gswin32c.exe".to_owned());
    r.push(gsdir32);
    let mut versioned64: Vec<String> = Vec::new();
    versioned64.push("gs10021".to_owned());
    versioned64.push("bin".to_owned());
    versioned64.push("gswin64c.exe".to_owned());
    r.push(versioned64);
    let mut versioned32: Vec<String> = Vec::new();
    versioned32.push("gs10021".to_owned());
    versioned32.push("bin".to_owned());
    versioned32.push("gswin32c.exe".to_owned());
    r.push(versioned32);
    proof {
        assert(r.deep_view() =~~= spec_standard_gs_subpaths());
    }
    r
}

/// Which file becomes the canonical bundled executable after the installer
/// ran.
pub enum GsBinarySource {
    /// Copy the file at this conventional subpath (an index into
    /// [`standard_gs_subpaths`]).
    StandardPath { index: usize },
    /// Copy the file found by the recursive search, at this path relative to
    /// the install directory.
    Located { path: Vec<String> },
    /// Nothing was found: fall back to the raw installer payload itself (the
    /// explicitly allowed degraded behaviour).
    InstallerItself,
}

/// Picks the executable the installer left behind: the first conventional
/// subpath that exists wins; failing those, the first match of a recursive
/// depth-first search of the install directory; failing that, the raw
/// installer.
pub fn select_gs_source(standard_hits: &Vec<bool>, tree: &Vec<FsEntry>) -> (r: GsBinarySource)
    requires
        standard_hits@.len() == spec_standard_gs_subpaths().len(),
    ensures
        match spec_first_true(standard_hits@) {
            Some(i) => r matches GsBinarySource::StandardPath { index } && index == i,
            None => match spec_find_in_entries(SearchTarget::WindowsInstallerGs, tree@) {
                Some(p) => r matches GsBinarySource::Located { path } && path.deep_view() == p,
                None => r is InstallerItself,
            },
        },
{
    let mut i: usize = 0;
    while i < standard_hits.len()
        invariant
            i <= standard_hits@.len(),
            forall|j: int| 0 <= j < i ==> !standard_hits@[j],
        decreases standard_hits@.len() - i,
    {
        if standard_hits[i] {
            proof {
                lemma_first_true_at(standard_hits@, i as int);
            }
            return GsBinarySource::StandardPath { index: i };
        }
        i = i + 1;
    }
    proof {
        lemma_first_true_none(standard_hits@);
    }
    match find_in_entries(SearchTarget::WindowsInstallerGs, tree) {
        Some(path) => GsBinarySource::Located { path },
        None => GsBinarySource::InstallerItself,
    }
}

} // verus!
