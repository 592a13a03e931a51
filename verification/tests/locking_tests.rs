use config_file_handler::error::Error;
use config_file_handler::file_handler::FileHandler;
use config_file_handler::locking::finish_locked;
use config_file_handler::probe::probe_verdict;

fn io(msg: &str) -> Error {
    Error::Io(msg.to_string())
}

#[test]
fn a_clean_unlock_passes_the_outcome_through() {
    let r = finish_locked(Ok(7u64), Ok(()));
    assert_eq!(r.expect("value expected"), 7);

    let r: Result<u64, Error> = finish_locked(Err(io("op failed")), Ok(()));
    assert_eq!(r.expect_err("error expected").message(), "op failed");
}

#[test]
fn an_unlock_failure_wins_even_over_success() {
    let r = finish_locked(Ok(7u64), Err(io("unlock failed")));
    assert_eq!(r.expect_err("error expected").message(), "unlock failed");

    let r: Result<u64, Error> = finish_locked(Err(io("op failed")), Err(io("unlock failed")));
    assert_eq!(r.expect_err("error expected").message(), "unlock failed");
}

#[test]
fn a_probe_succeeds_only_when_create_and_delete_do() {
    assert!(probe_verdict(&Ok(()), &Ok(())));
    assert!(!probe_verdict(&Err(io("create refused")), &Ok(())));
    assert!(!probe_verdict(&Ok(()), &Err(io("delete refused"))));
    assert!(!probe_verdict(&Err(io("create refused")), &Err(io("delete refused"))));
}

#[test]
fn a_handle_keeps_its_resolved_path() {
    let h = FileHandler::at_path("/var/cache/vault/cfg.json".to_string());
    assert_eq!(h.path(), "/var/cache/vault/cfg.json");
    let c = h.clone();
    assert_eq!(c.path(), h.path());
}

#[test]
fn error_kinds_are_distinguished() {
    let e = Error::EnvironmentLookup("m1".to_string());
    assert!(e.is_environment_lookup() && !e.is_io() && !e.is_serialization() && !e.is_not_found());
    assert_eq!(e.message(), "m1");

    let e = Error::Io("m2".to_string());
    assert!(e.is_io());

    let e = Error::Serialization("m3".to_string());
    assert!(e.is_serialization());

    let e = Error::NotFound("m4".to_string());
    assert!(e.is_not_found());

    let c = e.clone();
    assert!(c.is_not_found());
    assert_eq!(c.message(), "m4");
}
