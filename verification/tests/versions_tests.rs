use sdkman_mcp_server::sdkman_version;
use sdkman_mcp_server::versions::{self, SdkmanVersion};
use sdkman_mcp_server::error::SdkmanError;

#[test]
fn sdkman_version_test_version_format() {
    let version = sdkman_version::SdkmanVersion {
        script_version: "5.18.2".to_string(),
        native_version: "0.4.6".to_string(),
    };

    assert_eq!(
        version.format(),
        "SDKMAN! Versions: Script: 5.18.2; Native: 0.4.6"
    );
}

#[test]
fn versions_test_version_format() {
    let version = SdkmanVersion {
        script_version: "5.18.2".to_string(),
        native_version: "0.4.6".to_string(),
    };

    assert_eq!(
        version.format(),
        "SDKMAN! Versions: Script: 5.18.2; Native: 0.4.6"
    );
}

#[test]
fn test_version_reading_with_temp_files() {
    let v = SdkmanVersion::from_file_contents("5.18.2\n", "0.4.6\n");
    assert_eq!(v.script_version, "5.18.2");
    assert_eq!(v.native_version, "0.4.6");
}

#[test]
fn test_malformed_version_files() {
    let v = SdkmanVersion::from_file_contents("  5.18.2  \n\n", "\n0.4.6\n");
    assert_eq!(v.script_version, "5.18.2");
    assert_eq!(v.native_version, "0.4.6");
    let w = sdkman_version::SdkmanVersion::from_file_contents("  5.18.2  \n\n", "\n0.4.6\n");
    assert_eq!(w.script_version, "5.18.2");
    assert_eq!(w.native_version, "0.4.6");
}

#[test]
fn trimming_removes_unicode_white_space_only() {
    let v = SdkmanVersion::from_file_contents("\u{a0}\t5.18.2\u{3000}", "x y");
    assert_eq!(v.script_version, "5.18.2");
    assert_eq!(v.native_version, "x y");
    let e = SdkmanVersion::from_file_contents(" \n ", "");
    assert_eq!(e.script_version, "");
    assert_eq!(e.native_version, "");
}

#[test]
fn test_get_sdkman_dir_with_env_var() {
    let result = versions::get_sdkman_dir(Some("/custom/sdkman/path".to_string()), Ok("/home/u".to_string()));
    assert!(result.is_ok());
    assert_eq!(result.unwrap(), "/custom/sdkman/path");
}

#[test]
fn test_get_sdkman_dir_default_fallback() {
    let result = versions::get_sdkman_dir(None, Ok("/home/u".to_string()));
    assert!(result.is_ok());
    let path = result.unwrap();
    assert!(path.ends_with(".sdkman"));
    assert_eq!(path, "/home/u/.sdkman");
}

#[test]
fn versions_dir_without_home_is_internal_error() {
    match versions::get_sdkman_dir(None, Err("environment variable not found".to_string())) {
        Err(SdkmanError::Internal(m)) => {
            assert_eq!(m, "Failed to get HOME directory: environment variable not found")
        }
        other => panic!("unexpected {:?}", other),
    }
}

#[test]
fn test_path_validation() {
    let (script, native) = versions::version_file_paths("/home/u/.sdkman");
    assert_eq!(script, "/home/u/.sdkman/var/version");
    assert_eq!(native, "/home/u/.sdkman/var/version_native");
    assert!(versions::check_paths_within("/home/u/.sdkman", &script, &native).is_ok());
    let (s2, n2) = sdkman_version::version_file_paths("/home/u/");
    assert_eq!(s2, "/home/u/.sdkman/var/version");
    assert_eq!(n2, "/home/u/.sdkman/var/version_native");
    match versions::check_paths_within("/home/u", "/etc/passwd", &n2) {
        Err(SdkmanError::Internal(m)) => assert_eq!(m, "Invalid path detected"),
        other => panic!("unexpected {:?}", other),
    }
    assert!(versions::check_paths_within("/home/u", "/home/user/x", &n2).is_err());
}

#[test]
fn test_missing_version_files() {
    let r = versions::check_version_files_present(
        "/h/.sdkman/var/version".to_string(),
        "/h/.sdkman/var/version_native".to_string(),
        false,
        true,
    );
    match r {
        Err(SdkmanError::NotInstalled { checked_paths }) => assert_eq!(
            checked_paths,
            vec!["/h/.sdkman/var/version".to_string(), "/h/.sdkman/var/version_native".to_string()]
        ),
        other => panic!("unexpected {:?}", other),
    }
    assert!(versions::check_version_files_present("a".to_string(), "b".to_string(), true, true).is_ok());
}

#[test]
fn home_dir_errors_carry_the_reason() {
    assert_eq!(sdkman_version::home_dir(Ok("/root".to_string())).unwrap(), "/root");
    match sdkman_version::home_dir(Err("not set".to_string())) {
        Err(e) => assert_eq!(e.message(), "Internal error: Failed to get HOME directory: not set"),
        Ok(_) => panic!("expected an error"),
    }
}

#[test]
fn versions_dir_rejects_traversal_only() {
    let r = versions::get_sdkman_dir(Some("/tmp/../etc".to_string()), Ok("/home/u".to_string()));
    assert_eq!(r.unwrap(), "/home/u/.sdkman");
    let r = versions::get_sdkman_dir(Some("relative/sdk".to_string()), Ok("/home/u".to_string()));
    assert_eq!(r.unwrap(), "relative/sdk");
    let r = versions::get_sdkman_dir(Some("/opt/sdk".to_string()), Err("x".to_string()));
    assert_eq!(r.unwrap(), "/opt/sdk");
    match versions::get_sdkman_dir(Some("/opt/../sdk".to_string()), Err("unset".to_string())) {
        Err(SdkmanError::Internal(m)) => assert_eq!(m, "Failed to get HOME directory: unset"),
        other => panic!("unexpected {:?}", other),
    }
}

#[test]
fn version_reading_checks_in_order() {
    let base = "/h/.sdkman";
    let (script, native) = versions::version_file_paths(base);
    match SdkmanVersion::from_observations(base, "/etc/version", &native, false, false, None, None) {
        Err(SdkmanError::Internal(m)) => assert_eq!(m, "Invalid path detected"),
        other => panic!("unexpected {:?}", other),
    }
    match SdkmanVersion::from_observations(base, &script, &native, true, false, None, None) {
        Err(SdkmanError::NotInstalled { checked_paths }) => assert_eq!(checked_paths, vec![script.clone(), native.clone()]),
        other => panic!("unexpected {:?}", other),
    }
    match SdkmanVersion::from_observations(base, &script, &native, true, true, Some(Err("denied".to_string())), None) {
        Err(SdkmanError::Io(m)) => assert_eq!(m, "denied"),
        other => panic!("unexpected {:?}", other),
    }
    match SdkmanVersion::from_observations(
        base,
        &script,
        &native,
        true,
        true,
        Some(Ok("5.18.2".to_string())),
        Some(Err("gone".to_string())),
    ) {
        Err(e) => assert_eq!(e.message(), "IO error: gone"),
        Ok(_) => panic!("expected an error"),
    }
    let v = SdkmanVersion::from_observations(
        base,
        &script,
        &native,
        true,
        true,
        Some(Ok("5.18.2\n".to_string())),
        Some(Ok(" 0.4.6".to_string())),
    )
    .unwrap();
    assert_eq!(v.format(), "SDKMAN! Versions: Script: 5.18.2; Native: 0.4.6");
    let (s2, n2) = sdkman_version::version_file_paths("/home/u");
    let w = sdkman_version::SdkmanVersion::from_observations(
        "/home/u/.sdkman",
        &s2,
        &n2,
        true,
        true,
        Some(Ok("1".to_string())),
        Some(Ok("2".to_string())),
    )
    .unwrap();
    assert_eq!(w.script_version, "1");
    assert_eq!(w.native_version, "2");
}
