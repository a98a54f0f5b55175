use videopos::license::License;
use videopos::validity::{
    validity_accepts_event, validity_start, validity_step, ValidityAction, ValidityEvent, ValidityState,
};

fn license(hwid: Option<&str>) -> License {
    License {
        value: "KEY".to_string(),
        expire: Some("2999-01-01T00:00:00.000000".to_string()),
        username: "user".to_string(),
        hwid: hwid.map(|s| s.to_string()),
    }
}

/// Drives the check with the given answers, in order, and returns the actions.
fn run(events: Vec<ValidityEvent>) -> (ValidityState, Vec<ValidityAction>) {
    let mut state = validity_start();
    let mut actions = Vec::new();
    for event in events {
        assert!(validity_accepts_event(&state, &event));
        let (next, action) = validity_step(state, event);
        state = next;
        actions.push(action);
    }
    (state, actions)
}

fn outcome(actions: &[ValidityAction]) -> Option<Result<bool, String>> {
    match actions.last() {
        Some(ValidityAction::Report(r)) => Some(r.clone()),
        _ => None,
    }
}

#[test]
fn missing_file_is_invalid() {
    let (state, actions) = run(vec![ValidityEvent::Begin, ValidityEvent::LicenseFileChecked(false)]);
    assert!(matches!(actions[0], ValidityAction::CheckLicenseFile));
    assert_eq!(outcome(&actions), Some(Ok(false)));
    assert!(matches!(state, ValidityState::Finished(Ok(false))));
}

#[test]
fn unreadable_file_is_error() {
    let (_, actions) = run(vec![
        ValidityEvent::Begin,
        ValidityEvent::LicenseFileChecked(true),
        ValidityEvent::LicenseLoaded(Err("expected value at line 1 column 1".to_string())),
    ]);
    assert!(matches!(actions[1], ValidityAction::LoadLicense));
    assert_eq!(outcome(&actions), Some(Err("expected value at line 1 column 1".to_string())));
}

#[test]
fn foreign_machine_is_invalid() {
    let (_, actions) = run(vec![
        ValidityEvent::Begin,
        ValidityEvent::LicenseFileChecked(true),
        ValidityEvent::LicenseLoaded(Ok(license(Some("other-machine")))),
        ValidityEvent::SystemIdComputed("this-machine".to_string()),
    ]);
    assert!(matches!(actions[2], ValidityAction::ComputeSystemId));
    assert_eq!(outcome(&actions), Some(Ok(false)));
}

#[test]
fn unbound_license_matches_only_empty_id() {
    let (_, actions) = run(vec![
        ValidityEvent::Begin,
        ValidityEvent::LicenseFileChecked(true),
        ValidityEvent::LicenseLoaded(Ok(license(None))),
        ValidityEvent::SystemIdComputed("this-machine".to_string()),
    ]);
    assert_eq!(outcome(&actions), Some(Ok(false)));
    let (_, actions) = run(vec![
        ValidityEvent::Begin,
        ValidityEvent::LicenseFileChecked(true),
        ValidityEvent::LicenseLoaded(Ok(license(None))),
        ValidityEvent::SystemIdComputed(String::new()),
    ]);
    assert!(matches!(actions[3], ValidityAction::CheckExpiry(_)));
}

#[test]
fn expired_license_is_invalid() {
    let (_, actions) = run(vec![
        ValidityEvent::Begin,
        ValidityEvent::LicenseFileChecked(true),
        ValidityEvent::LicenseLoaded(Ok(license(Some("m")))),
        ValidityEvent::SystemIdComputed("m".to_string()),
        ValidityEvent::ExpiryChecked(true),
    ]);
    assert_eq!(outcome(&actions), Some(Ok(false)));
}

#[test]
fn expiry_is_asked_of_loaded_license() {
    let (_, actions) = run(vec![
        ValidityEvent::Begin,
        ValidityEvent::LicenseFileChecked(true),
        ValidityEvent::LicenseLoaded(Ok(license(Some("m")))),
        ValidityEvent::SystemIdComputed("m".to_string()),
    ]);
    match &actions[3] {
        ValidityAction::CheckExpiry(l) => {
            assert_eq!(l.value, "KEY");
            assert_eq!(l.hwid.as_deref(), Some("m"));
        }
        other => panic!("unexpected action {:?}", other),
    }
}

#[test]
fn offline_keeps_valid() {
    let (_, actions) = run(vec![
        ValidityEvent::Begin,
        ValidityEvent::LicenseFileChecked(true),
        ValidityEvent::LicenseLoaded(Ok(license(Some("m")))),
        ValidityEvent::SystemIdComputed("m".to_string()),
        ValidityEvent::ExpiryChecked(false),
        ValidityEvent::ConnectivityChecked(false),
    ]);
    assert!(matches!(actions[4], ValidityAction::CheckConnectivity));
    assert_eq!(outcome(&actions), Some(Ok(true)));
}

#[test]
fn unreachable_server_keeps_valid() {
    let (_, actions) = run(vec![
        ValidityEvent::Begin,
        ValidityEvent::LicenseFileChecked(true),
        ValidityEvent::LicenseLoaded(Ok(license(Some("m")))),
        ValidityEvent::SystemIdComputed("m".to_string()),
        ValidityEvent::ExpiryChecked(false),
        ValidityEvent::ConnectivityChecked(true),
        ValidityEvent::Refreshed(false),
    ]);
    assert!(matches!(actions[5], ValidityAction::RefreshLicense));
    assert_eq!(outcome(&actions), Some(Ok(true)));
}

#[test]
fn refreshed_license_decides() {
    let prefix = || {
        vec![
            ValidityEvent::Begin,
            ValidityEvent::LicenseFileChecked(true),
            ValidityEvent::LicenseLoaded(Ok(license(Some("m")))),
            ValidityEvent::SystemIdComputed("m".to_string()),
            ValidityEvent::ExpiryChecked(false),
            ValidityEvent::ConnectivityChecked(true),
            ValidityEvent::Refreshed(true),
            ValidityEvent::LicenseFileChecked(true),
        ]
    };
    let mut valid = prefix();
    valid.push(ValidityEvent::LicenseLoaded(Ok(license(Some("m")))));
    valid.push(ValidityEvent::SystemIdComputed("m".to_string()));
    valid.push(ValidityEvent::ExpiryChecked(false));
    let (_, actions) = run(valid);
    assert_eq!(actions.len(), 11);
    assert!(matches!(actions[6], ValidityAction::CheckLicenseFile));
    assert_eq!(outcome(&actions), Some(Ok(true)));

    let mut revoked = prefix();
    revoked.push(ValidityEvent::LicenseLoaded(Ok(license(None))));
    revoked.push(ValidityEvent::SystemIdComputed("m".to_string()));
    let (_, actions) = run(revoked);
    assert_eq!(outcome(&actions), Some(Ok(false)));

    let mut expired = prefix();
    expired.push(ValidityEvent::LicenseLoaded(Ok(license(Some("m")))));
    expired.push(ValidityEvent::SystemIdComputed("m".to_string()));
    expired.push(ValidityEvent::ExpiryChecked(true));
    let (_, actions) = run(expired);
    assert_eq!(outcome(&actions), Some(Ok(false)));
}

#[test]
fn refreshed_file_gone_is_invalid() {
    let (_, actions) = run(vec![
        ValidityEvent::Begin,
        ValidityEvent::LicenseFileChecked(true),
        ValidityEvent::LicenseLoaded(Ok(license(Some("m")))),
        ValidityEvent::SystemIdComputed("m".to_string()),
        ValidityEvent::ExpiryChecked(false),
        ValidityEvent::ConnectivityChecked(true),
        ValidityEvent::Refreshed(true),
        ValidityEvent::LicenseFileChecked(false),
    ]);
    assert_eq!(outcome(&actions), Some(Ok(false)));
}

#[test]
fn mismatched_event_is_refused() {
    let state = validity_start();
    assert!(!validity_accepts_event(&state, &ValidityEvent::ExpiryChecked(false)));
    assert!(validity_accepts_event(&state, &ValidityEvent::Begin));
    let finished = ValidityState::Finished(Ok(true));
    assert!(!validity_accepts_event(&finished, &ValidityEvent::Begin));
}

#[test]
fn invalid_verdict_stays_without_network() {
    for _ in 0..2 {
        let (_, actions) = run(vec![
            ValidityEvent::Begin,
            ValidityEvent::LicenseFileChecked(true),
            ValidityEvent::LicenseLoaded(Ok(license(Some("other-machine")))),
            ValidityEvent::SystemIdComputed("this-machine".to_string()),
        ]);
        assert_eq!(outcome(&actions), Some(Ok(false)));
        assert!(!actions.iter().any(|a| matches!(a, ValidityAction::CheckConnectivity | ValidityAction::RefreshLicense)));
    }
}
