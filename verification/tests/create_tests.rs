use config_file_handler::create::{CreateDecision, CreateEvent, CreateSearch};
use config_file_handler::error::Error;

fn io(msg: &str) -> Error {
    Error::Io(msg.to_string())
}

fn full_search() -> CreateSearch {
    CreateSearch::new(
        "cfg.json",
        &Some("/extra".to_string()),
        &Some("/opt/app".to_string()),
        &Some("/home/u/.config/vault".to_string()),
        &Ok("/var/cache/vault".to_string()),
    )
}

#[test]
fn creation_candidates_skip_the_bundle_and_mark_directories() {
    let mut s = full_search();
    let mut seen = Vec::new();
    loop {
        let c = match s.current() {
            Some(c) => c,
            None => break,
        };
        seen.push((c.dir.clone(), c.path.clone(), c.ensure_dir));
        match s.step(CreateEvent::OpenFailed(io("refused"))) {
            CreateDecision::Continue => {}
            _ => break,
        }
    }
    assert_eq!(
        seen,
        vec![
            ("/extra".to_string(), "/extra/cfg.json".to_string(), false),
            ("/opt/app".to_string(), "/opt/app/cfg.json".to_string(), false),
            (
                "/home/u/.config/vault".to_string(),
                "/home/u/.config/vault/cfg.json".to_string(),
                true
            ),
            (
                "/var/cache/vault".to_string(),
                "/var/cache/vault/cfg.json".to_string(),
                true
            ),
        ]
    );
}

#[test]
fn a_written_file_ends_the_search_with_its_path() {
    let mut s = full_search();
    match s.step(CreateEvent::OpenFailed(io("read-only"))) {
        CreateDecision::Continue => {}
        _ => panic!("expected the search to continue"),
    }
    match s.step(CreateEvent::Written) {
        CreateDecision::Done(h) => assert_eq!(h.path(), "/opt/app/cfg.json"),
        _ => panic!("expected the search to finish"),
    }
}

#[test]
fn a_write_failure_is_fatal_everywhere() {
    let mut s = full_search();
    match s.step(CreateEvent::WriteFailed(io("disk full"))) {
        CreateDecision::Fail(e) => {
            assert!(e.is_io());
            assert_eq!(e.message(), "disk full");
        }
        _ => panic!("expected the search to fail"),
    }
}

#[test]
fn a_directory_failure_before_the_last_candidate_moves_on() {
    let mut s = full_search();
    s.step(CreateEvent::OpenFailed(io("read-only")));
    s.step(CreateEvent::OpenFailed(io("read-only")));
    let user = s.current().expect("candidate expected");
    assert!(user.ensure_dir);
    match s.step(CreateEvent::DirFailed(io("mkdir refused"))) {
        CreateDecision::Continue => {}
        _ => panic!("expected the search to continue"),
    }
    let cache = s.current().expect("candidate expected");
    assert_eq!(cache.path, "/var/cache/vault/cfg.json");
}

#[test]
fn a_failure_at_the_resolved_final_location_is_surfaced() {
    let mut s = full_search();
    s.step(CreateEvent::OpenFailed(io("e1")));
    s.step(CreateEvent::OpenFailed(io("e2")));
    s.step(CreateEvent::OpenFailed(io("e3")));
    match s.step(CreateEvent::DirFailed(io("mkdir denied"))) {
        CreateDecision::Fail(e) => assert_eq!(e.message(), "mkdir denied"),
        _ => panic!("expected the search to fail"),
    }
}

#[test]
fn exhaustion_surfaces_the_final_resolution_error() {
    let cache: Result<String, Error> = Err(Error::NotFound(
        "Global system cache directory not found.".to_string(),
    ));
    let mut s = CreateSearch::new(
        "cfg.json",
        &None,
        &Some("/opt/app".to_string()),
        &None,
        &cache,
    );
    match s.step(CreateEvent::OpenFailed(io("read-only"))) {
        CreateDecision::Continue => {}
        _ => panic!("expected the search to continue"),
    }
    assert!(s.current().is_none());
    let err = s.into_error();
    assert!(err.is_not_found());
    assert_eq!(err.message(), "Global system cache directory not found.");
}
