//! The tool-provisioning state machine: the shared installation record and
//! its verified transitions for install, download progress, uninstall and
//! status queries.
//!
//! The record is constructed once at process start and owned explicitly; the
//! embedding process keeps it behind an exclusive lock, acquires the lock for
//! the duration of each access, and performs the outside work (network
//! transfer, unpacking, deletion) between transitions, feeding each outcome
//! back in as a plain value.

use vstd::prelude::*;
use vstd::string::*;

use crate::platform::{spec_unsupported_platform_message, Platform};

verus! {

/// The process-wide installation record.
#[derive(Debug)]
pub struct ProvisioningState {
    pub is_installed: bool,
    pub is_downloading: bool,
    /// Download progress in whole percent.
    pub download_progress: u32,
    pub executable_path: Option<String>,
}

/// The record's invariant: progress stays within 0..=100.
pub open spec fn spec_state_wf(s: ProvisioningState) -> bool {
    s.download_progress <= 100
}

/// A status snapshot handed to callers of the status query.
#[derive(Clone, Copy, Debug, PartialEq, Eq, Structural)]
pub struct GhostscriptStatus {
    pub is_installed: bool,
    pub is_downloading: bool,
    pub download_progress: u32,
}

/// Builds the initial record: nothing installed, nothing downloading.
pub fn new_provisioning_state() -> (r: ProvisioningState)
    ensures
        r.is_installed == false,
        r.is_downloading == false,
        r.download_progress == 0,
        r.executable_path is None,
        spec_state_wf(r),
{
    ProvisioningState {
        is_installed: false,
        is_downloading: false,
        download_progress: 0,
        executable_path: None,
    }
}

/// The status a query returns: the snapshot merged with a fresh availability
/// check (system-wide availability is outside this process's control, so it
/// is re-probed live on every query).
pub open spec fn spec_status_of(s: ProvisioningState, tool_available: bool) -> GhostscriptStatus {
    GhostscriptStatus {
        is_installed: s.is_installed || tool_available,
        is_downloading: s.is_downloading,
        download_progress: s.download_progress,
    }
}

/// Queries the provisioning status. Takes the record by shared reference and
/// so cannot mutate it.
pub fn check_ghostscript_status(state: &ProvisioningState, tool_available: bool) -> (r:
    GhostscriptStatus)
    ensures
        r == spec_status_of(*state, tool_available),
{
    GhostscriptStatus {
        is_installed: state.is_installed || tool_available,
        is_downloading: state.is_downloading,
        download_progress: state.download_progress,
    }
}

/// The status query is a pure function of the record and the live
/// availability probe: two queries with no intervening transition and the
/// same probe outcome return identical results.
pub proof fn lemma_status_query_repeatable(
    s: ProvisioningState,
    tool_available: bool,
    r1: GhostscriptStatus,
    r2: GhostscriptStatus,
)
    requires
        r1 == spec_status_of(s, tool_available),
        r2 == spec_status_of(s, tool_available),
    ensures
        r1 == r2,
{
}

/// The record after an install begins: downloading, no progress yet.
pub open spec fn spec_begin_download(s: ProvisioningState) -> ProvisioningState {
    ProvisioningState { is_downloading: true, download_progress: 0, ..s }
}

/// Starts provisioning. If the tool is already available this is a no-op
/// reporting an installed status; on platforms where a package manager is the
/// expected channel it declines with instructions and mutates nothing;
/// otherwise it marks the record as downloading, and the caller launches the
/// download/install work and feeds its outcome back through
/// [`set_download_progress`], [`mark_installing`] and [`finish_install`].
/// The returned snapshot has `is_downloading == true` exactly when that work
/// is owed.
pub fn download_ghostscript(
    state: &mut ProvisioningState,
    tool_available: bool,
    platform: Platform,
) -> (r: Result<GhostscriptStatus, String>)
    ensures
        tool_available ==> *final(state) == *old(state) && r == Ok::<GhostscriptStatus, String>(
            GhostscriptStatus { is_installed: true, is_downloading: false, download_progress: 100 },
        ),
        !tool_available && platform != Platform::Windows ==> *final(state) == *old(state) && (
        r matches Err(m) && m@ == spec_unsupported_platform_message(platform)),
        !tool_available && platform == Platform::Windows ==> *final(state) == spec_begin_download(
            *old(state),
        ) && r == Ok::<GhostscriptStatus, String>(
            GhostscriptStatus { is_installed: false, is_downloading: true, download_progress: 0 },
        ),
        spec_state_wf(*old(state)) ==> spec_state_wf(*final(state)),
{
    if tool_available {
        return Ok(
            GhostscriptStatus { is_installed: true, is_downloading: false, download_progress: 100 },
        );
    }
    match platform {
        Platform::Windows => {
            state.is_downloading = true;
            state.download_progress = 0;
            Ok(
                GhostscriptStatus {
                    is_installed: false,
                    is_downloading: true,
                    download_progress: 0,
                },
            )
        },
        Platform::MacOs => Err(
            "macOS users: please install Ghostscript with 'brew install ghostscript'".to_owned(),
        ),
        Platform::Linux => Err(
            "Linux users: please install Ghostscript with your package manager, e.g.: sudo apt install ghostscript".to_owned(),
        ),
    }
}

/// Download progress in whole percent, clamped to 100; a transfer with no
/// known total reports no progress.
pub open spec fn spec_progress_percent(downloaded: nat, total: nat) -> nat
    recommends
        total > 0,
{
    if downloaded * 100 / total > 100 {
        100
    } else {
        downloaded * 100 / total
    }
}

/// Records the progress of a running download. With an unknown total
/// (`total == 0`) the record is left alone.
pub fn set_download_progress(state: &mut ProvisioningState, downloaded: u64, total: u64)
    ensures
        total == 0 ==> *final(state) == *old(state),
        total > 0 ==> *final(state) == (ProvisioningState {
            download_progress: spec_progress_percent(downloaded as nat, total as nat) as u32,
            ..*old(state)
        }),
        spec_state_wf(*old(state)) ==> spec_state_wf(*final(state)),
{
    if total == 0 {
        return ;
    }
    let scaled = (downloaded as u128) * 100 / (total as u128);
    let percent: u32 = if scaled > 100 {
        100
    } else {
        scaled as u32
    };
    state.download_progress = percent;
}

/// The record once the payload is fully downloaded and installation begins:
/// progress pinned at 90 percent.
pub open spec fn spec_mark_installing(s: ProvisioningState) -> ProvisioningState {
    ProvisioningState { download_progress: 90, ..s }
}

/// Marks the transition from downloading to installing.
pub fn mark_installing(state: &mut ProvisioningState)
    ensures
        *final(state) == spec_mark_installing(*old(state)),
        spec_state_wf(*final(state)),
{
    state.download_progress = 90;
}

/// The record after a successful install: installed, progress complete, and
/// the resolved executable path exposed.
pub open spec fn spec_finish_install_success(
    s: ProvisioningState,
    executable_path: String,
) -> ProvisioningState {
    ProvisioningState {
        is_installed: true,
        is_downloading: false,
        download_progress: 100,
        executable_path: Some(executable_path),
    }
}

/// The record after a failed install: no longer downloading, still not
/// installed.
pub open spec fn spec_finish_install_failure(s: ProvisioningState) -> ProvisioningState {
    ProvisioningState { is_installed: false, is_downloading: false, ..s }
}

/// Ends an install attempt. On success `resolved_path` carries the installed
/// executable's path; on failure the record only stops downloading, and the
/// error travels to the caller out of band.
pub fn finish_install(state: &mut ProvisioningState, resolved_path: Option<String>)
    ensures
        resolved_path matches Some(p) ==> *final(state) == spec_finish_install_success(
            *old(state),
            p,
        ),
        resolved_path is None ==> *final(state) == spec_finish_install_failure(*old(state)),
        spec_state_wf(*old(state)) ==> spec_state_wf(*final(state)),
{
    match resolved_path {
        Some(p) => {
            state.is_installed = true;
            state.is_downloading = false;
            state.download_progress = 100;
            state.executable_path = Some(p);
        },
        None => {
            state.is_installed = false;
            state.is_downloading = false;
        },
    }
}

/// What uninstalling has to do before deleting the bundled directory: on
/// Windows, best-effort terminate processes that may hold the executable
/// open (failures ignored); elsewhere nothing.
pub enum UninstallPlan {
    /// The bundled directory does not exist: nothing to remove, no deletion
    /// is performed.
    NothingToRemove,
    /// Delete the bundled directory after terminating these process names.
    Remove { kill_process_names: Vec<String> },
}

/// The process names a Windows uninstall tries to terminate first.
pub open spec fn spec_gs_process_names() -> Seq<Seq<char>> {
    seq!["gswin64c.exe"@, "gswin32c.exe"@, "gs.exe"@]
}

/// Plans an uninstall. A system that never installed the bundled tool (its
/// directory is absent) yields `NothingToRemove` and no deletion.
pub fn uninstall_ghostscript(gs_dir_exists: bool, platform: Platform) -> (r: UninstallPlan)
    ensures
        !gs_dir_exists ==> r is NothingToRemove,
        gs_dir_exists ==> (r matches UninstallPlan::Remove { kill_process_names } && (platform
            == Platform::Windows ==> kill_process_names.deep_view() == spec_gs_process_names()) && (
        platform != Platform::Windows ==> kill_process_names.deep_view() == Seq::<
            Seq<char>,
        >::empty())),
{
    if !gs_dir_exists {
        return UninstallPlan::NothingToRemove;
    }
    let mut kill_process_names: Vec<String> = Vec::new();
    if platform == Platform::Windows {
        kill_process_names.push("gswin64c.exe".to_owned());
        kill_process_names.push("gswin32c.exe".to_owned());
        kill_process_names.push("gs.exe".to_owned());
        proof {
            assert(kill_process_names.deep_view() =~= spec_gs_process_names());
        }
    } else {
        proof {
            assert(kill_process_names.deep_view() =~= Seq::<Seq<char>>::empty());
        }
    }
    UninstallPlan::Remove { kill_process_names }
}

/// How the attempt to delete the bundled directory went.
pub enum UninstallOutcome {
    /// The bundled directory did not exist; no deletion was attempted.
    NoDirectory,
    /// The directory was deleted.
    Removed,
    /// Deleting failed, and the forced OS-level delete was not attempted
    /// (non-Windows platforms).
    FailedNoFallback { error: String },
    /// Deleting failed, and the forced OS-level delete succeeded.
    FallbackSucceeded { error: String },
    /// Deleting failed, and the forced OS-level delete ran and also failed.
    FallbackFailed { error: String },
    /// Deleting failed, and the forced OS-level delete could not be spawned.
    FallbackSpawnFailed { error: String, spawn_error: String },
}

/// The caller-visible result for each uninstall outcome: `Ok(true)` when the
/// bundled install was removed, `Ok(false)` when there was nothing to
/// remove, and otherwise an error naming what failed.
pub open spec fn spec_uninstall_result(outcome: UninstallOutcome) -> Result<bool, Seq<char>> {
    match outcome {
        UninstallOutcome::NoDirectory => Ok(false),
        UninstallOutcome::Removed => Ok(true),
        UninstallOutcome::FallbackSucceeded { error } => Ok(true),
        UninstallOutcome::FailedNoFallback { error } => Err(
            "failed to uninstall Ghostscript: "@ + error@,
        ),
        UninstallOutcome::FallbackFailed { error } => Err(
            "failed to remove the directory with the system command: "@ + error@,
        ),
        UninstallOutcome::FallbackSpawnFailed { error, spawn_error } => Err(
            "failed to uninstall Ghostscript: "@ + error@ + " (system command error: "@
                + spawn_error@ + ")"@,
        ),
    }
}

/// Turns a deletion outcome into the result the uninstall operation reports.
pub fn uninstall_result(outcome: &UninstallOutcome) -> (r: Result<bool, String>)
    ensures
        r is Ok <==> spec_uninstall_result(*outcome) is Ok,
        r matches Ok(b) ==> spec_uninstall_result(*outcome) == Ok::<bool, Seq<char>>(b),
        r matches Err(m) ==> spec_uninstall_result(*outcome) == Err::<bool, Seq<char>>(m@),
{
    match outcome {
        UninstallOutcome::NoDirectory => Ok(false),
        UninstallOutcome::Removed => Ok(true),
        UninstallOutcome::FallbackSucceeded { error: _ } => Ok(true),
        UninstallOutcome::FailedNoFallback { error } => {
            let mut m = "failed to uninstall Ghostscript: ".to_owned();
            m.append(error.as_str());
            Err(m)
        },
        UninstallOutcome::FallbackFailed { error } => {
            let mut m = "failed to remove the directory with the system command: ".to_owned();
            m.append(error.as_str());
            Err(m)
        },
        UninstallOutcome::FallbackSpawnFailed { error, spawn_error } => {
            let mut m = "failed to uninstall Ghostscript: ".to_owned();
            m.append(error.as_str());
            m.append(" (system command error: ");
            m.append(spawn_error.as_str());
            m.append(")");
            Err(m)
        },
    }
}

/// The record after a successful removal of the bundled install.
pub open spec fn spec_apply_uninstall(s: ProvisioningState) -> ProvisioningState {
    ProvisioningState { is_installed: false, executable_path: None, ..s }
}

/// Clears the record once the bundled install was removed.
pub fn apply_uninstall(state: &mut ProvisioningState)
    ensures
        *final(state) == spec_apply_uninstall(*old(state)),
        spec_state_wf(*old(state)) ==> spec_state_wf(*final(state)),
{
    state.is_installed = false;
    state.executable_path = None;
}

/// Install-then-uninstall round trip: after a successful install the record
/// reports installed; a removal that succeeded yields `true` to the caller
/// and clears the record, so a following status query — with no system-wide
/// installation present — reports not installed.
pub proof fn lemma_install_then_uninstall(s0: ProvisioningState, path: String)
    ensures
        spec_status_of(spec_finish_install_success(s0, path), false).is_installed,
        spec_uninstall_result(UninstallOutcome::Removed) == Ok::<bool, Seq<char>>(true),
        !spec_status_of(
            spec_apply_uninstall(spec_finish_install_success(s0, path)),
            false,
        ).is_installed,
{
}

} // verus!
