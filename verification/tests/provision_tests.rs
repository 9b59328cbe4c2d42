use pdf_compressor::platform::Platform;
use pdf_compressor::provision::{
    apply_uninstall, check_ghostscript_status, download_ghostscript, finish_install,
    mark_installing, new_provisioning_state, set_download_progress, uninstall_ghostscript,
    uninstall_result, UninstallOutcome, UninstallPlan,
};

#[test]
fn status_query_does_not_mutate_and_repeats() {
    let state = new_provisioning_state();
    let first = check_ghostscript_status(&state, false);
    let second = check_ghostscript_status(&state, false);
    assert_eq!(first, second);
    assert!(!first.is_installed);
    assert!(!first.is_downloading);
    assert_eq!(first.download_progress, 0);
}

#[test]
fn status_merges_live_availability() {
    let state = new_provisioning_state();
    let merged = check_ghostscript_status(&state, true);
    assert!(merged.is_installed);
}

#[test]
fn uninstall_on_never_installed_system_removes_nothing() {
    let plan = uninstall_ghostscript(false, Platform::Linux);
    assert!(matches!(plan, UninstallPlan::NothingToRemove));
    let plan_win = uninstall_ghostscript(false, Platform::Windows);
    assert!(matches!(plan_win, UninstallPlan::NothingToRemove));
    assert_eq!(uninstall_result(&UninstallOutcome::NoDirectory), Ok(false));
}

#[test]
fn uninstall_kills_processes_only_on_windows() {
    match uninstall_ghostscript(true, Platform::Windows) {
        UninstallPlan::Remove { kill_process_names } => {
            assert_eq!(
                kill_process_names,
                vec![
                    "gswin64c.exe".to_string(),
                    "gswin32c.exe".to_string(),
                    "gs.exe".to_string()
                ]
            );
        }
        _ => panic!("an existing directory must be removed"),
    }
    match uninstall_ghostscript(true, Platform::Linux) {
        UninstallPlan::Remove { kill_process_names } => assert!(kill_process_names.is_empty()),
        _ => panic!("an existing directory must be removed"),
    }
}

#[test]
fn uninstall_outcomes() {
    assert_eq!(uninstall_result(&UninstallOutcome::Removed), Ok(true));
    assert_eq!(
        uninstall_result(&UninstallOutcome::FallbackSucceeded { error: "locked".to_string() }),
        Ok(true)
    );
    assert_eq!(
        uninstall_result(&UninstallOutcome::FailedNoFallback { error: "busy".to_string() }),
        Err("failed to uninstall Ghostscript: busy".to_string())
    );
    assert_eq!(
        uninstall_result(&UninstallOutcome::FallbackFailed { error: "busy".to_string() }),
        Err("failed to remove the directory with the system command: busy".to_string())
    );
    assert_eq!(
        uninstall_result(&UninstallOutcome::FallbackSpawnFailed {
            error: "busy".to_string(),
            spawn_error: "no cmd".to_string()
        }),
        Err("failed to uninstall Ghostscript: busy (system command error: no cmd)".to_string())
    );
}

#[test]
fn install_then_uninstall_round_trip() {
    let mut state = new_provisioning_state();
    // Install is declined when a package manager is the expected channel.
    let declined = download_ghostscript(&mut state, false, Platform::MacOs);
    assert!(declined.is_err());
    assert!(!state.is_downloading);

    // On Windows the download starts and the caller sees a downloading
    // snapshot.
    let snapshot = download_ghostscript(&mut state, false, Platform::Windows).unwrap();
    assert!(!snapshot.is_installed);
    assert!(snapshot.is_downloading);
    assert_eq!(snapshot.download_progress, 0);
    assert!(state.is_downloading);

    set_download_progress(&mut state, 500, 1000);
    assert_eq!(state.download_progress, 50);
    mark_installing(&mut state);
    assert_eq!(state.download_progress, 90);

    // A simulated successful install.
    finish_install(&mut state, Some("/data/PDF_Compressor/ghostscript/gs.exe".to_string()));
    assert!(state.is_installed);
    assert!(!state.is_downloading);
    assert_eq!(state.download_progress, 100);
    assert!(check_ghostscript_status(&state, false).is_installed);

    // Uninstall: the directory exists, its removal succeeds.
    assert!(matches!(
        uninstall_ghostscript(true, Platform::Windows),
        UninstallPlan::Remove { .. }
    ));
    assert_eq!(uninstall_result(&UninstallOutcome::Removed), Ok(true));
    apply_uninstall(&mut state);

    // With no system-wide installation, the status now shows not installed.
    let after = check_ghostscript_status(&state, false);
    assert!(!after.is_installed);
}

#[test]
fn install_is_a_no_op_when_available() {
    let mut state = new_provisioning_state();
    let snapshot = download_ghostscript(&mut state, true, Platform::Linux).unwrap();
    assert!(snapshot.is_installed);
    assert!(!snapshot.is_downloading);
    assert_eq!(snapshot.download_progress, 100);
    assert!(!state.is_downloading);
}

#[test]
fn failed_install_leaves_nothing_installed() {
    let mut state = new_provisioning_state();
    download_ghostscript(&mut state, false, Platform::Windows).unwrap();
    finish_install(&mut state, None);
    assert!(!state.is_installed);
    assert!(!state.is_downloading);
    assert!(!check_ghostscript_status(&state, false).is_installed);
}

#[test]
fn progress_is_clamped_and_ignores_unknown_totals() {
    let mut state = new_provisioning_state();
    set_download_progress(&mut state, 0, 100);
    assert_eq!(state.download_progress, 0);
    set_download_progress(&mut state, 100, 100);
    assert_eq!(state.download_progress, 100);
    // A server that under-reported the total cannot push progress past 100.
    set_download_progress(&mut state, 300, 100);
    assert_eq!(state.download_progress, 100);
    set_download_progress(&mut state, 17, 0);
    assert_eq!(state.download_progress, 100);
}
