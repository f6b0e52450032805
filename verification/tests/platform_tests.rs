use sdkman_mcp_server::error::SdkmanError;
use sdkman_mcp_server::platform;
use sdkman_mcp_server::utils::fs_helpers::{get_sdkman_dir, select_sdkman_dir};
use sdkman_mcp_server::server::install_tool_error;
use sdkman_mcp_server::utils::platform::{
    check_bash_available, check_install_platform, check_platform_compatibility, get_platform_triple, PlatformInfo,
};

#[test]
fn test_check_platform_compatibility() {
    assert!(platform::check_platform_compatibility(false, false).is_ok());
    assert!(platform::check_platform_compatibility(true, true).is_ok());
    match platform::check_platform_compatibility(true, false) {
        Err(SdkmanError::UnsupportedPlatform { details, recovery }) => {
            assert_eq!(details, "SDKMAN! requires bash shell to be available");
            assert!(recovery.starts_with("Please ensure bash is installed and available in your PATH.\n\nSupported environments:\n"));
            assert!(recovery.ends_with("  \u{2022} Git Bash for Windows"));
        }
        other => panic!("unexpected {:?}", other),
    }
}

#[test]
fn platform_triples() {
    assert_eq!(get_platform_triple("linux", "x86_64").as_deref(), Some("x86_64-unknown-linux-gnu"));
    assert_eq!(get_platform_triple("linux", "aarch64").as_deref(), Some("aarch64-unknown-linux-gnu"));
    assert_eq!(get_platform_triple("linux", "x86").as_deref(), Some("i686-unknown-linux-gnu"));
    assert_eq!(get_platform_triple("macos", "aarch64").as_deref(), Some("aarch64-apple-darwin"));
    assert_eq!(get_platform_triple("macos", "x86_64").as_deref(), Some("x86_64-apple-darwin"));
    assert_eq!(get_platform_triple("windows", "x86_64").as_deref(), Some("x86_64-pc-windows-msvc"));
    assert_eq!(get_platform_triple("windows", "aarch64"), None);
    assert_eq!(get_platform_triple("freebsd", "x86_64"), None);
}

#[test]
fn supported_platform_passes_check() {
    let p = PlatformInfo::new("linux", "x86_64");
    assert_eq!(p.os, "linux");
    assert_eq!(p.arch, "x86_64");
    assert!(check_platform_compatibility(&p).is_ok());
}

#[test]
fn unsupported_platform_is_refused() {
    let p = PlatformInfo::new("freebsd", "riscv64");
    match check_platform_compatibility(&p) {
        Err(SdkmanError::UnsupportedPlatform { details, recovery }) => {
            assert_eq!(details, "Platform 'freebsd/riscv64' is not supported by SDKMAN!");
            assert_eq!(recovery.lines().count(), 7);
            assert!(recovery.starts_with("SDKMAN! is only supported on the following platforms:"));
        }
        other => panic!("unexpected {:?}", other),
    }
}

#[test]
fn bash_missing_is_refused() {
    assert!(check_bash_available(true).is_ok());
    match check_bash_available(false) {
        Err(e) => {
            assert!(matches!(e, SdkmanError::BashNotAvailable { .. }));
            assert_eq!(e.message(), "Bash not available: SDKMAN! requires bash shell to be available");
        }
        Ok(()) => panic!("expected an error"),
    }
}

#[test]
fn test_get_sdkman_dir_default() {
    let dir = get_sdkman_dir(None, Some("/home/u".to_string()));
    assert_eq!(dir.as_deref(), Some("/home/u/.sdkman"));
    assert!(dir.unwrap().ends_with(".sdkman"));
}

#[test]
fn test_get_sdkman_dir_from_env() {
    let dir = get_sdkman_dir(Some("/tmp/test-sdkman".to_string()), Some("/home/u".to_string()));
    assert_eq!(dir.as_deref(), Some("/tmp/test-sdkman"));
}

#[test]
fn test_get_sdkman_dir_rejects_traversal() {
    let dir = get_sdkman_dir(Some("/tmp/../etc/passwd".to_string()), Some("/home/u".to_string()));
    assert_eq!(dir.as_deref(), Some("/home/u/.sdkman"));
}

#[test]
fn relative_sdkman_dir_is_rejected() {
    let dir = get_sdkman_dir(Some("relative/sdkman".to_string()), Some("/home/u".to_string()));
    assert_eq!(dir.as_deref(), Some("/home/u/.sdkman"));
    assert_eq!(get_sdkman_dir(Some("sdk".to_string()), None), None);
    assert_eq!(select_sdkman_dir(Some("/ok".to_string()), true, None).as_deref(), Some("/ok"));
    assert_eq!(select_sdkman_dir(Some("/ok".to_string()), false, Some("/h/".to_string())).as_deref(), Some("/h/.sdkman"));
}

#[test]
fn native_windows_without_bash_cannot_install() {
    let win = PlatformInfo::new("windows", "x86_64");
    assert!(check_install_platform(&win, true).is_ok());
    let err = check_install_platform(&win, false).unwrap_err();
    match &err {
        SdkmanError::UnsupportedPlatform { details, .. } => {
            assert_eq!(details, "SDKMAN! requires bash shell to be available")
        }
        other => panic!("unexpected {:?}", other),
    }
    let t = install_tool_error(err);
    assert_eq!(t.code, -1000);
    assert_eq!(t.message, "SDKMAN! installation not supported on native Windows");
    let linux = PlatformInfo::new("linux", "x86_64");
    assert!(check_install_platform(&linux, false).is_ok());
    match check_install_platform(&PlatformInfo::new("windows", "aarch64"), true) {
        Err(SdkmanError::UnsupportedPlatform { details, .. }) => {
            assert_eq!(details, "Platform 'windows/aarch64' is not supported by SDKMAN!")
        }
        other => panic!("unexpected {:?}", other),
    }
}
