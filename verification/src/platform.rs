//! The host platform, resolved once at startup by the embedding process and
//! threaded through every component that branches on it: executable names,
//! the Ghostscript download source, manual installation instructions, and the
//! bundled install location.

use vstd::prelude::*;
use vstd::string::*;

verus! {

/// The operating-system family the process runs on.
#[derive(Clone, Copy, Debug, PartialEq, Eq, Structural)]
pub enum Platform {
    Windows,
    MacOs,
    Linux,
}

/// The processor word size, which picks the Windows installer flavour.
#[derive(Clone, Copy, Debug, PartialEq, Eq, Structural)]
pub enum Arch {
    X86_64,
    X86,
}

/// The file name of the Ghostscript executable on this platform.
pub open spec fn spec_gs_executable_name(platform: Platform) -> Seq<char> {
    if platform == Platform::Windows {
        "gs.exe"@
    } else {
        "gs"@
    }
}

/// Returns the file name of the Ghostscript executable for `platform`.
pub fn gs_executable_name(platform: Platform) -> (r: String)
    ensures
        r@ == spec_gs_executable_name(platform),
{
    if platform == Platform::Windows {
        "gs.exe".to_owned()
    } else {
        "gs".to_owned()
    }
}

/// The path separator the platform's filesystem uses.
pub open spec fn spec_path_separator(platform: Platform) -> Seq<char> {
    if platform == Platform::Windows {
        "\\"@
    } else {
        "/"@
    }
}

/// The absolute path of the bundled Ghostscript executable: a `ghostscript`
/// directory under the application's private data directory, holding the
/// platform's executable name.
pub open spec fn spec_bundled_ghostscript_path(app_data_dir: Seq<char>, platform: Platform) -> Seq<
    char,
> {
    app_data_dir + spec_path_separator(platform) + "ghostscript"@ + spec_path_separator(platform)
        + spec_gs_executable_name(platform)
}

/// Returns where the bundled Ghostscript executable lives (or would live)
/// under the application data directory.
pub fn get_bundled_ghostscript_path(app_data_dir: &str, platform: Platform) -> (r: String)
    ensures
        r@ == spec_bundled_ghostscript_path(app_data_dir@, platform),
{
    let sep = if platform == Platform::Windows {
        "\\"
    } else {
        "/"
    };
    let mut r = app_data_dir.to_owned();
    r.append(sep);
    r.append("ghostscript");
    r.append(sep);
    if platform == Platform::Windows {
        r.append("gs.exe");
    } else {
        r.append("gs");
    }
    r
}

/// The application's private data directory for each platform, rooted at a
/// base the environment supplies: the local application data directory on
/// Windows, the user's home directory elsewhere.
pub open spec fn spec_app_data_dir(platform: Platform, base: Seq<char>) -> Seq<char> {
    if platform == Platform::Windows {
        base + "\\PDF_Compressor"@
    } else if platform == Platform::MacOs {
        base + "/Library/Application Support/PDF_Compressor"@
    } else {
        base + "/.local/share/PDF_Compressor"@
    }
}

/// Returns the application data directory under `base` (the platform's
/// conventional root: `%LOCALAPPDATA%` on Windows, `$HOME` elsewhere).
pub fn app_data_dir_for(platform: Platform, base: &str) -> (r: String)
    ensures
        r@ == spec_app_data_dir(platform, base@),
{
    let mut r = base.to_owned();
    if platform == Platform::Windows {
        r.append("\\PDF_Compressor");
    } else if platform == Platform::MacOs {
        r.append("/Library/Application Support/PDF_Compressor");
    } else {
        r.append("/.local/share/PDF_Compressor");
    }
    r
}

/// The download URL for the Windows Ghostscript installer of each word size.
pub open spec fn spec_gs_download_url(arch: Arch) -> Seq<char> {
    if arch == Arch::X86_64 {
        "https://github.com/ArtifexSoftware/ghostpdl-downloads/releases/download/gs10021/gs10021w64.exe"@
    } else {
        "https://github.com/ArtifexSoftware/ghostpdl-downloads/releases/download/gs10021/gs10021w32.exe"@
    }
}

/// Error text returned when automatic installation is declined on a platform
/// where a package manager is the expected install channel.
pub open spec fn spec_unsupported_platform_message(platform: Platform) -> Seq<char> {
    if platform == Platform::MacOs {
        "macOS users: please install Ghostscript with 'brew install ghostscript'"@
    } else {
        "Linux users: please install Ghostscript with your package manager, e.g.: sudo apt install ghostscript"@
    }
}

/// Decides where the Ghostscript payload is downloaded from and whether it is
/// a compressed archive (`true`) or a raw installer (`false`). Automatic
/// download is offered on Windows only; elsewhere the result is an error
/// carrying package-manager instructions.
pub fn get_ghostscript_download_info(platform: Platform, arch: Arch) -> (r: Result<
    (String, bool),
    String,
>)
    ensures
        platform == Platform::Windows ==> (r matches Ok(info) && info.0@
            == spec_gs_download_url(arch) && info.1 == false),
        platform != Platform::Windows ==> (r matches Err(m) && m@
            == spec_unsupported_platform_message(platform)),
{
    match platform {
        Platform::Windows => {
            if arch == Arch::X86_64 {
                Ok(
                    (
                        "https://github.com/ArtifexSoftware/ghostpdl-downloads/releases/download/gs10021/gs10021w64.exe".to_owned(),
                        false,
                    ),
                )
            } else {
                Ok(
                    (
                        "https://github.com/ArtifexSoftware/ghostpdl-downloads/releases/download/gs10021/gs10021w32.exe".to_owned(),
                        false,
                    ),
                )
            }
        },
        Platform::MacOs => Err(
            "macOS users: please install Ghostscript with 'brew install ghostscript'".to_owned(),
        ),
        Platform::Linux => Err(
            "Linux users: please install Ghostscript with your package manager, e.g.: sudo apt install ghostscript".to_owned(),
        ),
    }
}

/// The manual installation instructions for each platform.
pub open spec fn spec_manual_install_instructions(platform: Platform) -> Seq<char> {
    if platform == Platform::Windows {
        "Windows installation:\n1. Visit https://www.ghostscript.com/releases/gsdnld.html\n2. Download the build matching your system (64-bit or 32-bit)\n3. Run the installer and follow the prompts\n4. Restart the application to detect the installed Ghostscript"@
    } else if platform == Platform::MacOs {
        "macOS installation:\nOption 1 - Homebrew (recommended):\n1. Open a terminal\n2. Run: brew install ghostscript\n\nOption 2 - manual:\n1. Visit https://www.ghostscript.com/releases/gsdnld.html\n2. Download the macOS build\n3. Follow the installation instructions\n4. Restart the application to detect the installed Ghostscript"@
    } else {
        "Linux installation:\nUbuntu/Debian: sudo apt install ghostscript\nFedora/RHEL: sudo dnf install ghostscript\nArch Linux: sudo pacman -S ghostscript\n\nRestart the application afterwards to detect the installed Ghostscript"@
    }
}

/// Returns instructional text for installing Ghostscript by hand.
pub fn get_manual_install_instructions(platform: Platform) -> (r: String)
    ensures
        r@ == spec_manual_install_instructions(platform),
{
    match platform {
        Platform::Windows => "Windows installation:\n1. Visit https://www.ghostscript.com/releases/gsdnld.html\n2. Download the build matching your system (64-bit or 32-bit)\n3. Run the installer and follow the prompts\n4. Restart the application to detect the installed Ghostscript".to_owned(),
        Platform::MacOs => "macOS installation:\nOption 1 - Homebrew (recommended):\n1. Open a terminal\n2. Run: brew install ghostscript\n\nOption 2 - manual:\n1. Visit https://www.ghostscript.com/releases/gsdnld.html\n2. Download the macOS build\n3. Follow the installation instructions\n4. Restart the application to detect the installed Ghostscript".to_owned(),
        Platform::Linux => "Linux installation:\nUbuntu/Debian: sudo apt install ghostscript\nFedora/RHEL: sudo dnf install ghostscript\nArch Linux: sudo pacman -S ghostscript\n\nRestart the application afterwards to detect the installed Ghostscript".to_owned(),
    }
}

} // verus!
