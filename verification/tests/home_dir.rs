use codex_hooks_core::home_dir::{
    canonicalize_failure, check_home_dir_probe, default_codex_home, default_home_dirname,
    executable_name, is_dccodex_executable, is_dccodex_home_dir, project_config_dir_name,
    project_config_dir_name_for, resolve_home_env_override, HomeDirErrorKind, HomeDirProbe,
    HomeEnvOverride,
};

#[test]
fn find_codex_home_env_missing_path_is_fatal() {
    let missing = "/tmp/codex-home-test/missing-codex-home";
    let err = check_home_dir_probe(Some("CODEX_HOME"), missing, HomeDirProbe::Missing)
        .expect_err("missing CODEX_HOME");
    assert_eq!(err.kind, HomeDirErrorKind::NotFound);
    assert!(err.message.contains("CODEX_HOME"), "unexpected error: {}", err.message);
}

#[test]
fn find_codex_home_env_file_path_is_fatal() {
    let file_path = "/tmp/codex-home-test/codex-home.txt";
    let err = check_home_dir_probe(Some("CODEX_HOME"), file_path, HomeDirProbe::NotADirectory)
        .expect_err("file CODEX_HOME");
    assert_eq!(err.kind, HomeDirErrorKind::InvalidInput);
    assert!(err.message.contains("not a directory"), "unexpected error: {}", err.message);
}

#[test]
fn find_codex_home_env_valid_directory_canonicalizes() {
    let dir = "/tmp";
    let resolved = check_home_dir_probe(Some("CODEX_HOME"), dir, HomeDirProbe::Directory);
    assert_eq!(resolved, Ok(()));
}

#[test]
fn find_codex_home_without_env_uses_default_home_dir() {
    let home = dirs::home_dir().expect("home dir");
    let home = home.to_str().expect("home dir is utf-8");
    let resolved = default_codex_home(Some(home), None).expect("default CODEX_HOME");
    let mut expected = std::path::PathBuf::from(home);
    expected.push(".codex");
    assert_eq!(std::path::PathBuf::from(resolved), expected);
}

#[test]
fn find_codex_home_without_env_uses_dccodex_home_dir_for_dccodex_binary() {
    let home = dirs::home_dir().expect("home dir");
    let home = home.to_str().expect("home dir is utf-8");
    let resolved = default_codex_home(Some(home), Some("dccodex")).expect("default DCCODEX_HOME");
    let mut expected = std::path::PathBuf::from(home);
    expected.push(".dccodex");
    assert_eq!(std::path::PathBuf::from(resolved), expected);
}

#[test]
fn resolve_home_env_override_prefers_codex_home_over_dccodex_home() {
    let resolved = resolve_home_env_override(
        Some("/tmp/codex-home"),
        Some("/tmp/dccodex-home"),
        Some("dccodex"),
    );
    assert_eq!(
        resolved,
        Some(HomeEnvOverride {
            env_var_name: "CODEX_HOME",
            value: "/tmp/codex-home".to_string(),
        })
    );
}

#[test]
fn resolve_home_env_override_uses_dccodex_home_for_dccodex_binary() {
    let resolved = resolve_home_env_override(None, Some("/tmp/dccodex-home"), Some("dccodex"));
    assert_eq!(
        resolved,
        Some(HomeEnvOverride {
            env_var_name: "DCCODEX_HOME",
            value: "/tmp/dccodex-home".to_string(),
        })
    );
}

#[test]
fn resolve_home_env_override_ignores_dccodex_home_for_codex_binary() {
    let resolved = resolve_home_env_override(None, Some("/tmp/dccodex-home"), Some("codex"));
    assert_eq!(resolved, None);
}

#[test]
fn default_home_dirname_is_dccodex_for_dccodex_executable() {
    assert_eq!(default_home_dirname(Some("dccodex")), ".dccodex");
    assert_eq!(default_home_dirname(Some("dccodex-test")), ".dccodex");
    assert_eq!(default_home_dirname(Some("codex")), ".codex");
}

#[test]
fn project_config_dir_name_uses_dccodex_for_dccodex_executable() {
    let resolved = project_config_dir_name_for(Some("dccodex"), "/tmp/x");
    assert_eq!(resolved, ".dccodex");
}

#[test]
fn project_config_dir_name_uses_dccodex_when_home_basename_is_dccodex() {
    let resolved = project_config_dir_name_for(Some("codex"), "/home/alice/.dccodex");
    assert_eq!(resolved, ".dccodex");
}

#[test]
fn project_config_dir_name_defaults_to_codex() {
    let resolved = project_config_dir_name_for(Some("codex"), "/home/alice/custom");
    assert_eq!(resolved, ".codex");
}

#[test]
fn codex_home_blank_value_falls_through_to_dccodex_home() {
    let resolved = resolve_home_env_override(Some("   "), Some("  /tmp/dc  "), Some("dccodex"));
    assert_eq!(
        resolved,
        Some(HomeEnvOverride { env_var_name: "DCCODEX_HOME", value: "/tmp/dc".to_string() })
    );
    assert_eq!(resolve_home_env_override(Some("\t"), Some(" "), Some("dccodex")), None);
}

#[test]
fn codex_home_value_is_trimmed() {
    let resolved = resolve_home_env_override(Some("  /srv/codex \n"), None, None);
    assert_eq!(
        resolved,
        Some(HomeEnvOverride { env_var_name: "CODEX_HOME", value: "/srv/codex".to_string() })
    );
}

#[test]
fn dccodex_executable_detection_normalizes_case_and_space() {
    assert!(is_dccodex_executable(Some("  DCCodex ")));
    assert!(is_dccodex_executable(Some("dccodex-nightly")));
    assert!(is_dccodex_executable(Some("dccodex.exe")));
    assert!(is_dccodex_executable(Some("dccodex2")));
    assert!(!is_dccodex_executable(Some("dccode")));
    assert!(!is_dccodex_executable(Some("my-dccodex")));
    assert!(!is_dccodex_executable(Some("codex")));
    assert!(!is_dccodex_executable(None));
}

#[test]
fn windows_style_dccodex_binary_selects_dccodex_home() {
    assert_eq!(default_home_dirname(Some("dccodex.exe")), ".dccodex");
    assert_eq!(default_home_dirname(Some("codex.exe")), ".codex");
    assert_eq!(project_config_dir_name_for(Some("dccodex.exe"), "/tmp/x"), ".dccodex");
    assert_eq!(project_config_dir_name_for(Some("codex.exe"), "/tmp/x"), ".codex");
    assert_eq!(
        resolve_home_env_override(None, Some("/tmp/dc"), Some("dccodex.exe")),
        Some(HomeEnvOverride { env_var_name: "DCCODEX_HOME", value: "/tmp/dc".to_string() })
    );
    assert_eq!(resolve_home_env_override(None, Some("/tmp/dc"), Some("codex.exe")), None);
}

#[test]
fn dccodex_home_dir_matches_last_component_in_any_case() {
    assert!(is_dccodex_home_dir("/home/alice/.DCCodex"));
    assert!(is_dccodex_home_dir("/home/alice/.dccodex/"));
    assert!(is_dccodex_home_dir(".dccodex"));
    assert!(!is_dccodex_home_dir("/home/alice/.dccodex/.."));
    assert!(!is_dccodex_home_dir("/home/alice/.codex"));
    assert!(!is_dccodex_home_dir("/"));
}

#[test]
fn executable_name_is_last_component_of_first_argument() {
    assert_eq!(executable_name(Some("/usr/local/bin/dccodex")), Some("dccodex".to_string()));
    assert_eq!(executable_name(Some("codex")), Some("codex".to_string()));
    assert_eq!(executable_name(Some("/")), None);
    assert_eq!(executable_name(None), None);
    assert_eq!(project_config_dir_name(Some("/opt/bin/dccodex-dev"), "/home/a/x"), ".dccodex");
    assert_eq!(project_config_dir_name(Some("/opt/bin/codex"), "/home/a/x"), ".codex");
}

#[test]
fn home_dir_messages_name_the_variable_and_quote_the_value() {
    let err = check_home_dir_probe(None, "/x", HomeDirProbe::Missing).unwrap_err();
    assert_eq!(err.message, "CODEX_HOME points to \"/x\", but that path does not exist");
    let err = check_home_dir_probe(
        Some("DCCODEX_HOME"),
        "/y",
        HomeDirProbe::Unreadable { detail: "permission denied".to_string() },
    )
    .unwrap_err();
    assert_eq!(err.kind, HomeDirErrorKind::Other);
    assert_eq!(err.message, "failed to read DCCODEX_HOME \"/y\": permission denied");
    let err = canonicalize_failure(Some("CODEX_HOME"), "/z", "loop");
    assert_eq!(err.message, "failed to canonicalize CODEX_HOME \"/z\": loop");
    let err = default_codex_home(None, None).unwrap_err();
    assert_eq!(err.kind, HomeDirErrorKind::NotFound);
    assert_eq!(err.message, "Could not find home directory");
    assert_eq!(default_codex_home(Some("/home/bob/"), None).unwrap(), "/home/bob/.codex");
}
