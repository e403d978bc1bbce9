use wifi_scan::bring_up::{connect_failure, Action, ConnectionManager, Outcome, Phase};
use wifi_scan::credentials::{AuthMethod, RadioCredentials};
use wifi_scan::error::ConnError;
use wifi_scan::scan::{render_ssids, scan_plan, RadioOp};

fn creds(ssid: &str, password: &str) -> RadioCredentials {
    RadioCredentials::new(ssid, password, AuthMethod::WPA2Personal).unwrap()
}

fn run(manager: &mut ConnectionManager, outcomes: &[Outcome]) -> Vec<Action> {
    let mut actions = Vec::new();
    for o in outcomes {
        actions.push(manager.next_action());
        manager.advance(*o);
    }
    actions
}

#[test]
fn credentials_keep_their_text() {
    let c = creds("home-net", "correct-pass");
    assert_eq!(c.ssid.as_str(), "home-net");
    assert_eq!(c.password.as_str(), "correct-pass");
    assert_eq!(c.auth_method, AuthMethod::WPA2Personal);
}

#[test]
fn credentials_at_capacity_are_accepted() {
    let ssid = "s".repeat(32);
    let password = "p".repeat(64);
    let c = creds(&ssid, &password);
    assert_eq!(c.ssid.as_str(), ssid);
    assert_eq!(c.password.as_str(), password);
}

#[test]
fn empty_credentials_are_accepted() {
    let c = creds("", "");
    assert_eq!(c.ssid.as_str(), "");
}

#[test]
fn oversized_ssid_is_a_config_error() {
    let ssid = "s".repeat(33);
    let r = RadioCredentials::new(&ssid, "pw", AuthMethod::WPA2Personal);
    assert_eq!(r.err(), Some(ConnError::ConfigError));
    let ssid40 = "x".repeat(40);
    let r = RadioCredentials::new(&ssid40, "pw", AuthMethod::WPA2Personal);
    assert_eq!(r.err(), Some(ConnError::ConfigError));
}

#[test]
fn oversized_password_is_a_config_error() {
    let password = "p".repeat(65);
    let r = RadioCredentials::new("home-net", &password, AuthMethod::WPA2Personal);
    assert_eq!(r.err(), Some(ConnError::ConfigError));
}

#[test]
fn forty_byte_password_fits_its_bound() {
    let password = "p".repeat(40);
    let r = RadioCredentials::new("home-net", &password, AuthMethod::WPA2Personal);
    assert!(r.is_ok());
}

#[test]
fn ssid_bound_counts_bytes_not_chars() {
    // 16 two-byte characters fill the 32 bytes; one more does not fit.
    let fits = "é".repeat(16);
    assert!(RadioCredentials::new(&fits, "", AuthMethod::Open).is_ok());
    let over = "é".repeat(17);
    assert_eq!(
        RadioCredentials::new(&over, "", AuthMethod::Open).err(),
        Some(ConnError::ConfigError)
    );
}

#[test]
fn bring_up_reaches_netif_ready() {
    let mut m = ConnectionManager::new(creds("home-net", "correct-pass"));
    assert_eq!(m.phase(), Phase::Uninitialized);
    assert_eq!(m.result(), None);
    let actions = run(&mut m, &[Outcome::Success; 4]);
    assert_eq!(
        actions,
        vec![Action::ApplyConfig, Action::Start, Action::Connect, Action::WaitNetif]
    );
    assert_eq!(m.phase(), Phase::NetifReady);
    assert_eq!(m.next_action(), Action::Finished);
    assert_eq!(m.result(), Some(Ok(())));
}

#[test]
fn home_net_scenario_scans_and_renders() {
    let mut m = ConnectionManager::new(creds("home-net", "correct-pass"));
    run(&mut m, &[Outcome::Success; 4]);
    assert_eq!(m.result(), Some(Ok(())));
    assert_eq!(m.credentials().ssid.as_str(), "home-net");
    assert_eq!(scan_plan(true), vec![RadioOp::Scan]);
    let found = vec!["home-net".to_string(), "neighbor-ap".to_string()];
    assert_eq!(render_ssids(&found), "home-net<br>neighbor-ap<br>");
}

#[test]
fn rejected_password_is_an_auth_error() {
    let mut m = ConnectionManager::new(creds("home-net", "wrong-pass"));
    let actions = run(&mut m, &[Outcome::Success, Outcome::Success, Outcome::AuthRejected]);
    assert_eq!(actions, vec![Action::ApplyConfig, Action::Start, Action::Connect]);
    assert_eq!(m.phase(), Phase::Failed(ConnError::AuthError));
    assert_eq!(m.next_action(), Action::Finished);
    assert_eq!(m.result(), Some(Err(ConnError::AuthError)));
}

#[test]
fn each_step_fails_with_its_own_error() {
    let cases = [
        (vec![Outcome::Fault], ConnError::ConfigError),
        (vec![Outcome::Success, Outcome::Fault], ConnError::StartError),
        (vec![Outcome::Success, Outcome::Success, Outcome::NoApFound], ConnError::AssocError),
        (vec![Outcome::Success, Outcome::Success, Outcome::Fault], ConnError::AssocError),
        (vec![Outcome::Success; 3].into_iter().chain([Outcome::Fault]).collect(), ConnError::NetifError),
    ];
    for (outcomes, err) in cases {
        let mut m = ConnectionManager::new(creds("home-net", "correct-pass"));
        run(&mut m, &outcomes);
        assert_eq!(m.result(), Some(Err(err)));
    }
}

#[test]
fn terminal_phase_ignores_later_outcomes() {
    let mut m = ConnectionManager::new(creds("a", "b"));
    run(&mut m, &[Outcome::Fault, Outcome::Success, Outcome::Success, Outcome::Success]);
    assert_eq!(m.phase(), Phase::Failed(ConnError::ConfigError));
    let mut ok = ConnectionManager::new(creds("a", "b"));
    run(&mut ok, &[Outcome::Success; 4]);
    ok.advance(Outcome::Fault);
    assert_eq!(ok.phase(), Phase::NetifReady);
}

#[test]
fn started_radio_is_not_started_again() {
    assert_eq!(scan_plan(true), vec![RadioOp::Scan]);
    assert_eq!(scan_plan(false), vec![RadioOp::Start, RadioOp::Scan]);
}

#[test]
fn serial_calls_keep_their_operations_together() {
    let mut log = Vec::new();
    for started in [false, true, true] {
        log.push(RadioOp::CheckStarted);
        log.extend(scan_plan(started));
    }
    assert_eq!(
        log,
        vec![
            RadioOp::CheckStarted,
            RadioOp::Start,
            RadioOp::Scan,
            RadioOp::CheckStarted,
            RadioOp::Scan,
            RadioOp::CheckStarted,
            RadioOp::Scan,
        ]
    );
}

#[test]
fn consecutive_scans_render_their_own_lists() {
    let first = vec!["home-net".to_string()];
    let second = vec!["cafe".to_string(), "home-net".to_string()];
    assert_eq!(render_ssids(&first), "home-net<br>");
    assert_eq!(render_ssids(&second), "cafe<br>home-net<br>");
    assert_eq!(render_ssids(&first), "home-net<br>");
}

#[test]
fn empty_scan_renders_nothing() {
    assert_eq!(render_ssids(&Vec::new()), "");
}

#[test]
fn disconnect_reasons_are_classified() {
    assert_eq!(connect_failure(Some(202)), Outcome::AuthRejected);
    assert_eq!(connect_failure(Some(15)), Outcome::AuthRejected);
    assert_eq!(connect_failure(Some(204)), Outcome::AuthRejected);
    assert_eq!(connect_failure(Some(201)), Outcome::NoApFound);
    assert_eq!(connect_failure(Some(8)), Outcome::Fault);
    assert_eq!(connect_failure(None), Outcome::Fault);
}
