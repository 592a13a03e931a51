use config_file_handler::error::Error;
use config_file_handler::search::{cleanup_paths, OpenSearch};

fn io(msg: &str) -> Error {
    Error::Io(msg.to_string())
}

fn full_search(writable: bool) -> OpenSearch {
    OpenSearch::new(
        "cfg.json",
        writable,
        &Some("/extra".to_string()),
        &Some("/opt/app".to_string()),
        &None,
        &Some("/home/u/.config/vault".to_string()),
        &Ok("/var/cache/vault".to_string()),
    )
}

#[test]
fn candidates_come_in_priority_order() {
    let mut s = full_search(false);
    let mut seen = Vec::new();
    while let Some(p) = s.current() {
        seen.push(p);
        s.fail(io("refused"));
    }
    assert_eq!(
        seen,
        vec![
            "/extra/cfg.json".to_string(),
            "/opt/app/cfg.json".to_string(),
            "/home/u/.config/vault/cfg.json".to_string(),
            "/var/cache/vault/cfg.json".to_string(),
        ]
    );
}

#[test]
fn unresolved_directories_are_skipped() {
    let mut s = OpenSearch::new(
        "cfg.json",
        false,
        &None,
        &None,
        &None,
        &Some("/home/u/.config/vault".to_string()),
        &Ok("/var/cache/vault".to_string()),
    );
    let first = s.current().expect("candidate expected");
    assert_eq!(first, "/home/u/.config/vault/cfg.json");
    s.fail(io("refused"));
    let second = s.current().expect("candidate expected");
    assert_eq!(second, "/var/cache/vault/cfg.json");
}

#[test]
fn fallback_settles_on_the_first_success() {
    // The first two candidates are made to fail; the search must settle on
    // the third, and the handle's path must reflect that directory.
    let mut s = full_search(true);
    s.fail(io("read-only"));
    s.fail(io("read-only"));
    let h = s.succeed();
    assert_eq!(h.path(), "/home/u/.config/vault/cfg.json");
}

#[test]
fn exhaustion_surfaces_the_final_probe_error() {
    let mut s = full_search(true);
    s.fail(io("e1"));
    s.fail(io("e2"));
    s.fail(io("e3"));
    s.fail(io("cache denied"));
    assert!(s.current().is_none());
    let err = s.into_error();
    assert!(err.is_io());
    assert_eq!(err.message(), "cache denied");
}

#[test]
fn unresolved_final_location_wins_on_exhaustion() {
    let cache: Result<String, Error> = Err(Error::NotFound(
        "Global system cache directory not found.".to_string(),
    ));
    let mut s = OpenSearch::new(
        "cfg.json",
        false,
        &Some("/extra".to_string()),
        &None,
        &None,
        &None,
        &cache,
    );
    s.fail(io("refused"));
    let err = s.into_error();
    assert!(err.is_not_found());
    assert_eq!(err.message(), "Global system cache directory not found.");
}

#[test]
fn nothing_to_probe_at_all() {
    let cache: Result<String, Error> = Err(Error::EnvironmentLookup(
        "environment variable not found".to_string(),
    ));
    let s = OpenSearch::new("cfg.json", false, &None, &None, &None, &None, &cache);
    assert!(s.current().is_none());
    let err = s.into_error();
    assert!(err.is_environment_lookup());
}

#[test]
fn the_requested_access_mode_is_kept() {
    assert!(full_search(true).writable());
    assert!(!full_search(false).writable());
}

#[test]
fn cleanup_visits_every_resolved_location() {
    let paths = cleanup_paths(
        "cfg.json",
        &Some("/opt/app".to_string()),
        &None,
        &Some("/var/cache/vault".to_string()),
    );
    assert_eq!(
        paths,
        vec![
            "/opt/app/cfg.json".to_string(),
            "/var/cache/vault/cfg.json".to_string(),
        ]
    );
}

#[test]
fn open_after_cleanup_finds_nothing() {
    // A tiny in-memory store stands in for the filesystem: the shell's
    // existence probe fails wherever cleanup removed the file, so the
    // search is exhausted.
    let mut store: Vec<(String, Vec<u8>)> = vec![
        ("/opt/app/cfg.json".to_string(), b"x".to_vec()),
        ("/var/cache/vault/cfg.json".to_string(), b"y".to_vec()),
    ];
    let bin = Some("/opt/app".to_string());
    let user = Some("/home/u/.config/vault".to_string());
    let cache = "/var/cache/vault".to_string();
    for p in cleanup_paths("cfg.json", &bin, &user, &Some(cache.clone())) {
        store.retain(|(k, _)| *k != p);
    }
    let mut s = OpenSearch::new(
        "cfg.json",
        false,
        &None,
        &bin,
        &None,
        &user,
        &Ok(cache),
    );
    while let Some(p) = s.current() {
        assert!(!store.iter().any(|(k, _)| *k == p));
        s.fail(Error::NotFound("no such file".to_string()));
    }
    let err = s.into_error();
    assert!(err.is_not_found());
}
