use breeze::ports::PersistenceError;
use breeze::windows::{first_run, web_address};

#[test]
fn a_secure_web_address_is_accepted() {
    assert!(web_address("https://github.com/nascent-tech/breeze/issues").is_some());
}

#[test]
fn every_other_scheme_is_refused() {
    assert!(web_address("http://github.com").is_none());
    assert!(web_address("file:///etc/passwd").is_none());
    assert!(web_address("javascript:alert(1)").is_none());
    assert!(web_address("not a url").is_none());
}

#[test]
fn the_address_opened_is_the_parsed_one() {
    assert_eq!(
        web_address("HTTPS://GitHub.com/a b").as_deref(),
        Some("https://github.com/a%20b")
    );
}

#[test]
fn onboarding_starts_the_first_cycle_only_the_first_time() {
    assert!(first_run(Ok(false)));
    assert!(!first_run(Ok(true)));
    assert!(!first_run(Err(PersistenceError("locked".to_owned()))));
}
