use sdkman_mcp_server::error::SdkmanError;
use sdkman_mcp_server::installation::{
    already_installed_result, exit_code_to_text, http_client_error, init_script_path, installed_result,
    installer_download_url, installer_result, status_is_success, verification_paths, verification_result,
    DownloadAction, DownloadEvent, DownloadPhase, DownloadRetry, InstallAction, InstallEvent, InstallFlow,
    InstallPhase, InstallationResult, InstallerEvent, SdkmanInstallation,
};

#[test]
fn test_detect_existing_installation() {
    let dir = "/tmp/sdk".to_string();
    assert_eq!(init_script_path(&dir), "/tmp/sdk/bin/sdkman-init.sh");
    let installation = SdkmanInstallation::from_probe(
        dir,
        true,
        Some("5.18.2\n".to_string()),
        Some(" 0.4.6 ".to_string()),
    );
    assert!(installation.is_installed);
    let versions = installation.versions.clone().unwrap();
    assert_eq!(versions.script_version.as_deref(), Some("5.18.2"));
    assert_eq!(versions.native_version.as_deref(), Some("0.4.6"));
}

#[test]
fn test_detect_no_installation() {
    let installation = SdkmanInstallation::from_probe("/tmp/sdk".to_string(), false, None, None);
    assert!(!installation.is_installed);
    assert!(installation.versions.is_none());
    assert_eq!(installation.dir, "/tmp/sdk");
}

#[test]
fn download_url_carries_rcupdate_flag() {
    assert_eq!(installer_download_url(&None, true), "https://get.sdkman.io?rcupdate=true");
    assert_eq!(installer_download_url(&None, false), "https://get.sdkman.io?rcupdate=false");
    assert_eq!(
        installer_download_url(&Some("http://localhost:8080/install".to_string()), true),
        "http://localhost:8080/install?rcupdate=true"
    );
}

#[test]
fn result_messages() {
    let bare = SdkmanInstallation::from_probe("/h/.sdkman".to_string(), true, None, None);
    let already = already_installed_result(&bare);
    assert!(already.installed);
    assert!(!already.shell_restart_required);
    assert!(!already.rc_files_updated);
    assert_eq!(already.message, "SDKMAN! is already installed at /h/.sdkman");
    let both = SdkmanInstallation::from_probe(
        "/h/.sdkman".to_string(),
        true,
        Some("5.18.2".to_string()),
        Some("0.4.6".to_string()),
    );
    assert_eq!(
        already_installed_result(&both).message,
        "SDKMAN! is already installed at /h/.sdkman (script: 5.18.2, native: 0.4.6)"
    );
    let script_only = SdkmanInstallation::from_probe("/h/.sdkman".to_string(), true, Some("5.18.2".to_string()), None);
    assert_eq!(
        already_installed_result(&script_only).message,
        "SDKMAN! is already installed at /h/.sdkman (script: 5.18.2)"
    );
    let native_only = SdkmanInstallation::from_probe("/h/.sdkman".to_string(), true, None, Some("0.4.6".to_string()));
    assert_eq!(
        already_installed_result(&native_only).message,
        "SDKMAN! is already installed at /h/.sdkman (native: 0.4.6)"
    );
    let with_rc = installed_result("/h/.sdkman", true, false);
    assert!(with_rc.shell_restart_required);
    assert!(with_rc.rc_files_updated);
    assert_eq!(with_rc.message, "SDKMAN! installed successfully at /h/.sdkman. Shell configuration updated. Please restart your terminal or run: source /h/.sdkman/bin/sdkman-init.sh");
    let without_rc = installed_result("/h/.sdkman", false, false);
    assert!(!without_rc.shell_restart_required);
    assert!(!without_rc.rc_files_updated);
    assert_eq!(without_rc.message, "SDKMAN! installed successfully at /h/.sdkman. Shell RC files were not modified. Add this to your shell profile manually: [ -f /h/.sdkman/bin/sdkman-init.sh ] && source /h/.sdkman/bin/sdkman-init.sh");
    assert_eq!(without_rc.sdkman_dir, "/h/.sdkman");
    let readonly = installed_result("/h/.sdkman", true, true);
    assert!(!readonly.shell_restart_required);
    assert!(!readonly.rc_files_updated);
    assert_eq!(readonly.message, "SDKMAN! installed successfully at /h/.sdkman. Shell RC files are read-only and were not modified. Add this to your shell profile manually: [ -f /h/.sdkman/bin/sdkman-init.sh ] && source /h/.sdkman/bin/sdkman-init.sh");
}

fn finish(a: DownloadAction) -> Result<String, SdkmanError> {
    match a {
        DownloadAction::Finish(r) => r,
        other => panic!("expected the download to finish, got {:?}", other),
    }
}

#[test]
fn download_retries_then_gives_up() {
    let (s, a) = DownloadRetry::start();
    assert!(matches!(a, DownloadAction::Send));
    let (s, a) = s.step(DownloadEvent::SendFailed("connection refused".to_string()));
    assert!(matches!(a, DownloadAction::SleepThenSend { millis: 1000 }));
    let (s, a) = s.step(DownloadEvent::Responded { status: 503, reason: Some("Service Unavailable".to_string()) });
    assert!(matches!(a, DownloadAction::SleepThenSend { millis: 2000 }));
    let (s, a) = s.step(DownloadEvent::Responded { status: 599, reason: None });
    assert_eq!(s.phase, DownloadPhase::Finished);
    match finish(a) {
        Err(SdkmanError::NetworkError { details, recovery }) => {
            assert_eq!(details, "Connection failed after 3 attempts: HTTP error: 599 <unknown status code>");
            assert!(recovery.starts_with("Check your internet connection"));
        }
        other => panic!("unexpected {:?}", other),
    }
}

#[test]
fn download_returns_body() {
    let (s, _) = DownloadRetry::start();
    let (s, a) = s.step(DownloadEvent::Responded { status: 200, reason: Some("OK".to_string()) });
    assert!(matches!(a, DownloadAction::ReadBody));
    let (_, a) = s.step(DownloadEvent::BodyRead(Ok("#!/bin/bash".to_string())));
    assert_eq!(finish(a).unwrap(), "#!/bin/bash");
}

#[test]
fn unreadable_body_is_retried() {
    let (s, _) = DownloadRetry::start();
    let (s, _) = s.step(DownloadEvent::Responded { status: 204, reason: None });
    let (s, a) = s.step(DownloadEvent::BodyRead(Err("eof".to_string())));
    assert!(matches!(a, DownloadAction::SleepThenSend { millis: 1000 }));
    assert_eq!(s.attempt, 2);
    let (s, _) = s.step(DownloadEvent::SendFailed("a".to_string()));
    let (s, _) = s.step(DownloadEvent::Responded { status: 200, reason: None });
    let (_, a) = s.step(DownloadEvent::BodyRead(Err("reset".to_string())));
    match finish(a) {
        Err(e) => assert_eq!(e.message(), "Failed to download SDKMAN! installer: Connection failed after 3 attempts: Failed to read response body: reset"),
        Ok(_) => panic!("expected an error"),
    }
}

#[test]
fn status_codes() {
    assert!(status_is_success(200));
    assert!(status_is_success(299));
    assert!(!status_is_success(300));
    assert!(!status_is_success(199));
    match http_client_error("tls") {
        SdkmanError::Internal(m) => assert_eq!(m, "Failed to create HTTP client: tls"),
        other => panic!("unexpected {:?}", other),
    }
}

#[test]
fn installer_outcomes() {
    let ok = InstallerEvent::Exited { success: true, code: Some(0), stdout: String::new(), stderr: String::new() };
    assert!(installer_result(&ok).is_ok());
    let denied = InstallerEvent::Exited {
        success: false,
        code: Some(1),
        stdout: "mkdir: Permission denied".to_string(),
        stderr: String::new(),
    };
    match installer_result(&denied) {
        Err(SdkmanError::PermissionError { details, recovery }) => {
            assert_eq!(details, "Insufficient permissions to install SDKMAN!");
            assert_eq!(recovery, "Ensure you have write permissions to your home directory. Do not use sudo.");
        }
        other => panic!("unexpected {:?}", other),
    }
    let failed = InstallerEvent::Exited {
        success: false,
        code: Some(-2),
        stdout: "out".to_string(),
        stderr: "err".to_string(),
    };
    match installer_result(&failed) {
        Err(SdkmanError::Internal(m)) => assert_eq!(m, "Installer failed with exit code Some(-2)\nStdout: out\nStderr: err"),
        other => panic!("unexpected {:?}", other),
    }
    let killed = InstallerEvent::Exited { success: false, code: None, stdout: String::new(), stderr: String::new() };
    match installer_result(&killed) {
        Err(SdkmanError::Internal(m)) => assert_eq!(m, "Installer failed with exit code None\nStdout: \nStderr: "),
        other => panic!("unexpected {:?}", other),
    }
}

#[test]
fn installer_step_failures() {
    match installer_result(&InstallerEvent::SpawnFailed("no such file".to_string())) {
        Err(SdkmanError::PermissionError { details, .. }) => assert_eq!(details, "Failed to spawn bash process: no such file"),
        other => panic!("unexpected {:?}", other),
    }
    match installer_result(&InstallerEvent::StdinFailed("broken pipe".to_string())) {
        Err(SdkmanError::Internal(m)) => assert_eq!(m, "Failed to write installer script to stdin: broken pipe"),
        other => panic!("unexpected {:?}", other),
    }
    match installer_result(&InstallerEvent::TimedOut) {
        Err(SdkmanError::Internal(m)) => assert_eq!(m, "Installer execution timed out after 60 seconds"),
        other => panic!("unexpected {:?}", other),
    }
    match installer_result(&InstallerEvent::WaitFailed("x".to_string())) {
        Err(SdkmanError::Internal(m)) => assert_eq!(m, "Failed to execute installer: x"),
        other => panic!("unexpected {:?}", other),
    }
    assert_eq!(exit_code_to_text(Some(i32::MIN)), "Some(-2147483648)");
    assert_eq!(exit_code_to_text(Some(127)), "Some(127)");
}

#[test]
fn verification_reports_first_missing_file() {
    let (init, candidates, version) = verification_paths("/h/.sdkman");
    assert_eq!(init, "/h/.sdkman/bin/sdkman-init.sh");
    assert_eq!(candidates, "/h/.sdkman/candidates");
    assert_eq!(version, "/h/.sdkman/var/version");
    assert!(verification_result(true, true, true).is_ok());
    let msg = |r: Result<(), SdkmanError>| match r {
        Err(SdkmanError::Internal(m)) => m,
        other => panic!("unexpected {:?}", other),
    };
    assert_eq!(msg(verification_result(false, false, false)), "Installation verification failed: sdkman-init.sh not found");
    assert_eq!(msg(verification_result(true, false, false)), "Installation verification failed: candidates directory not found");
    assert_eq!(msg(verification_result(true, true, false)), "Installation verification failed: version file not found");
}

fn finished(a: InstallAction) -> Result<InstallationResult, SdkmanError> {
    match a {
        InstallAction::Finish(r) => r,
        other => panic!("expected the installation to finish, got {:?}", other),
    }
}

#[test]
fn install_flow_fresh_installation() {
    let (f, a) = InstallFlow::start(false, None);
    assert!(matches!(a, InstallAction::CheckPlatform));
    let (f, a) = f.step(InstallEvent::PlatformChecked(Ok(())));
    assert!(matches!(a, InstallAction::CheckBash));
    let (f, a) = f.step(InstallEvent::BashChecked(Ok(())));
    assert!(matches!(a, InstallAction::Detect));
    let inst = SdkmanInstallation::from_probe("/h/.sdkman".to_string(), false, None, None);
    let (f, a) = f.step(InstallEvent::Detected(Ok(inst)));
    assert!(matches!(a, InstallAction::CheckRcFiles));
    let (f, a) = f.step(InstallEvent::RcFilesChecked(false));
    match &a {
        InstallAction::Download { url } => assert_eq!(url, "https://get.sdkman.io?rcupdate=false"),
        other => panic!("unexpected {:?}", other),
    }
    let (f, a) = f.step(InstallEvent::Downloaded(Ok("echo hi".to_string())));
    match &a {
        InstallAction::Execute { script, update_rc_files } => {
            assert_eq!(script, "echo hi");
            assert!(!update_rc_files);
        }
        other => panic!("unexpected {:?}", other),
    }
    let (f, a) = f.step(InstallEvent::Executed(Ok(())));
    match &a {
        InstallAction::Verify { dir } => assert_eq!(dir, "/h/.sdkman"),
        other => panic!("unexpected {:?}", other),
    }
    let (f, a) = f.step(InstallEvent::Verified(Ok(())));
    assert_eq!(f.phase, InstallPhase::Finished);
    let r = finished(a).unwrap();
    assert!(r.installed);
    assert_eq!(r.sdkman_dir, "/h/.sdkman");
    assert!(!r.shell_restart_required);
}

#[test]
fn install_flow_skips_existing_installation() {
    let (f, _) = InstallFlow::start(true, None);
    let (f, _) = f.step(InstallEvent::PlatformChecked(Ok(())));
    let (f, _) = f.step(InstallEvent::BashChecked(Ok(())));
    let inst = SdkmanInstallation::from_probe(
        "/h/.sdkman".to_string(),
        true,
        Some("5.18.2".to_string()),
        Some("0.4.6".to_string()),
    );
    let (_, a) = f.step(InstallEvent::Detected(Ok(inst)));
    let r = finished(a).unwrap();
    assert!(r.installed);
    assert!(!r.shell_restart_required);
    assert!(r.message.contains("5.18.2"));
    assert!(r.message.contains("0.4.6"));
    assert_eq!(r.message, "SDKMAN! is already installed at /h/.sdkman (script: 5.18.2, native: 0.4.6)");
}

#[test]
fn install_flow_stops_at_first_failure() {
    let (f, _) = InstallFlow::start(true, None);
    let err = SdkmanError::UnsupportedPlatform { details: "d".to_string(), recovery: "r".to_string() };
    let (f, a) = f.step(InstallEvent::PlatformChecked(Err(err)));
    assert_eq!(f.phase, InstallPhase::Finished);
    assert!(matches!(finished(a), Err(SdkmanError::UnsupportedPlatform { .. })));

    let (f, _) = InstallFlow::start(true, Some("http://mirror".to_string()));
    let (f, _) = f.step(InstallEvent::PlatformChecked(Ok(())));
    let (f, _) = f.step(InstallEvent::BashChecked(Ok(())));
    let (f, _) = f.step(InstallEvent::Detected(Ok(SdkmanInstallation::from_probe("/d".to_string(), false, None, None))));
    let (f, a) = f.step(InstallEvent::RcFilesChecked(false));
    match &a {
        InstallAction::Download { url } => assert_eq!(url, "http://mirror?rcupdate=true"),
        other => panic!("unexpected {:?}", other),
    }
    let net = SdkmanError::NetworkError { details: "x".to_string(), recovery: "y".to_string() };
    let (_, a) = f.step(InstallEvent::Downloaded(Err(net)));
    assert!(matches!(finished(a), Err(SdkmanError::NetworkError { .. })));
}

#[test]
fn install_flow_with_readonly_rc_files() {
    let (f, _) = InstallFlow::start(true, None);
    let (f, _) = f.step(InstallEvent::PlatformChecked(Ok(())));
    let (f, _) = f.step(InstallEvent::BashChecked(Ok(())));
    let inst = SdkmanInstallation::from_probe("/h/.sdkman".to_string(), false, None, None);
    let (f, a) = f.step(InstallEvent::Detected(Ok(inst)));
    assert!(matches!(a, InstallAction::CheckRcFiles));
    assert_eq!(f.phase, InstallPhase::RcFiles);
    let (f, a) = f.step(InstallEvent::RcFilesChecked(true));
    match &a {
        InstallAction::Download { url } => assert_eq!(url, "https://get.sdkman.io?rcupdate=false"),
        other => panic!("unexpected {:?}", other),
    }
    let (f, a) = f.step(InstallEvent::Downloaded(Ok("echo hi".to_string())));
    match &a {
        InstallAction::Execute { update_rc_files, .. } => assert!(!update_rc_files),
        other => panic!("unexpected {:?}", other),
    }
    let (f, _) = f.step(InstallEvent::Executed(Ok(())));
    let (_, a) = f.step(InstallEvent::Verified(Ok(())));
    let r = finished(a).unwrap();
    assert!(r.installed);
    assert!(!r.shell_restart_required);
    assert!(!r.rc_files_updated);
    assert!(r.message.contains("read-only"));
    assert!(r.message.contains("source /h/.sdkman/bin/sdkman-init.sh"));
}

#[test]
fn install_flow_writable_rc_files_updates_them() {
    let (f, _) = InstallFlow::start(true, None);
    let (f, _) = f.step(InstallEvent::PlatformChecked(Ok(())));
    let (f, _) = f.step(InstallEvent::BashChecked(Ok(())));
    let inst = SdkmanInstallation::from_probe("/h/.sdkman".to_string(), false, None, None);
    let (f, _) = f.step(InstallEvent::Detected(Ok(inst)));
    let (f, a) = f.step(InstallEvent::RcFilesChecked(false));
    match &a {
        InstallAction::Download { url } => assert_eq!(url, "https://get.sdkman.io?rcupdate=true"),
        other => panic!("unexpected {:?}", other),
    }
    let (f, _) = f.step(InstallEvent::Downloaded(Ok("s".to_string())));
    let (f, _) = f.step(InstallEvent::Executed(Ok(())));
    let (_, a) = f.step(InstallEvent::Verified(Ok(())));
    let r = finished(a).unwrap();
    assert!(r.shell_restart_required);
    assert!(r.rc_files_updated);
}

#[test]
fn second_install_after_success_reports_existing() {
    let (f, _) = InstallFlow::start(true, None);
    let (f, _) = f.step(InstallEvent::PlatformChecked(Ok(())));
    let (f, _) = f.step(InstallEvent::BashChecked(Ok(())));
    let (f, _) = f.step(InstallEvent::Detected(Ok(SdkmanInstallation::from_probe("/h/.sdkman".to_string(), false, None, None))));
    let (f, _) = f.step(InstallEvent::RcFilesChecked(false));
    let (f, _) = f.step(InstallEvent::Downloaded(Ok("s".to_string())));
    let (f, _) = f.step(InstallEvent::Executed(Ok(())));
    let (_, a) = f.step(InstallEvent::Verified(verification_result(true, true, true)));
    assert!(finished(a).unwrap().installed);

    let (f, _) = InstallFlow::start(false, Some("http://elsewhere".to_string()));
    let (f, _) = f.step(InstallEvent::PlatformChecked(Ok(())));
    let (f, _) = f.step(InstallEvent::BashChecked(Ok(())));
    let again = SdkmanInstallation::from_probe("/h/.sdkman".to_string(), true, Some("5.18.2".to_string()), None);
    let (f, a) = f.step(InstallEvent::Detected(Ok(again)));
    assert_eq!(f.phase, InstallPhase::Finished);
    let r = finished(a).unwrap();
    assert!(r.installed);
    assert!(!r.shell_restart_required);
    assert_eq!(r.sdkman_dir, "/h/.sdkman");
    assert_eq!(r.message, "SDKMAN! is already installed at /h/.sdkman (script: 5.18.2)");
}
