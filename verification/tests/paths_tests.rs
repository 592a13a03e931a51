use config_file_handler::error::Error;
use config_file_handler::paths::{
    exe_file_stem, file_name_of, file_stem_of, join_exe_file_stem, join_path, not_found_error,
    parent_dir,
};

#[test]
fn join_inserts_separator() {
    assert_eq!(join_path("/etc/app", "cfg.json"), "/etc/app/cfg.json");
}

#[test]
fn join_keeps_existing_separator() {
    assert_eq!(join_path("/etc/app/", "cfg.json"), "/etc/app/cfg.json");
}

#[test]
fn join_onto_empty_dir_is_the_name() {
    assert_eq!(join_path("", "cfg.json"), "cfg.json");
}

#[test]
fn parent_of_nested_path() {
    assert_eq!(parent_dir("/usr/bin/app"), Some("/usr/bin".to_string()));
}

#[test]
fn parent_of_file_under_root() {
    assert_eq!(parent_dir("/app"), Some("/".to_string()));
}

#[test]
fn parent_of_bare_name_is_empty() {
    assert_eq!(parent_dir("app"), Some("".to_string()));
}

#[test]
fn root_and_empty_have_no_parent() {
    assert_eq!(parent_dir("/"), None);
    assert_eq!(parent_dir(""), None);
}

#[test]
fn file_name_is_the_last_component() {
    assert_eq!(file_name_of("/usr/bin/app.exe"), "app.exe");
    assert_eq!(file_name_of("app.exe"), "app.exe");
    assert_eq!(file_name_of("/usr/bin/"), "");
}

#[test]
fn stem_strips_the_extension() {
    assert_eq!(file_stem_of("/usr/bin/app.exe"), Some("app".to_string()));
    assert_eq!(file_stem_of("app"), Some("app".to_string()));
}

#[test]
fn stem_keeps_hidden_file_whole() {
    assert_eq!(file_stem_of(".bashrc"), Some(".bashrc".to_string()));
}

#[test]
fn stem_strips_only_the_last_extension() {
    assert_eq!(
        file_stem_of("/tmp/archive.tar.gz"),
        Some("archive.tar".to_string())
    );
}

#[test]
fn stem_of_empty_final_component_is_none() {
    assert_eq!(file_stem_of("/usr/bin/"), None);
    assert_eq!(file_stem_of(""), None);
}

#[test]
fn exe_stem_of_resolved_path() {
    let exe: Result<String, Error> = Ok("/usr/local/bin/vault.exe".to_string());
    let stem = exe_file_stem(&exe).expect("stem expected");
    assert_eq!(stem, "vault");
}

#[test]
fn exe_stem_falls_back_to_default() {
    let exe: Result<String, Error> = Err(Error::Io("lookup failed".to_string()));
    let stem = exe_file_stem(&exe).expect("fallback expected");
    assert_eq!(stem, "default");
}

#[test]
fn exe_stem_of_stemless_path_is_not_found() {
    let exe: Result<String, Error> = Ok("/usr/bin/".to_string());
    let err = exe_file_stem(&exe).expect_err("error expected");
    assert!(err.is_not_found());
    assert_eq!(err.message(), "No file name component: /usr/bin/");
}

#[test]
fn join_exe_stem_extends_the_directory() {
    let exe: Result<String, Error> = Ok("/usr/bin/vault".to_string());
    let joined = join_exe_file_stem("/var/cache", &exe).expect("join expected");
    assert_eq!(joined, "/var/cache/vault");
}

#[test]
fn join_exe_stem_uses_the_fallback_stem() {
    let exe: Result<String, Error> = Err(Error::Io("lookup failed".to_string()));
    let joined = join_exe_file_stem("/var/cache", &exe).expect("join expected");
    assert_eq!(joined, "/var/cache/default");
}

#[test]
fn not_found_error_names_the_path() {
    let err = not_found_error("/odd/");
    assert!(err.is_not_found());
    assert_eq!(err.message(), "No file name component: /odd/");
}
