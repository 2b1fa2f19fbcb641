use pinger::monitor::{Alert, Monitor, Tick};
use pinger::outcome::ProbeOutcome::{BadStatus, Success, TransportFailure};
use pinger::outcome::ProbeOutcome;

fn states(ticks: &[Tick]) -> Vec<bool> {
    ticks.iter().map(|t| t.up).collect()
}

fn messages(ticks: &[Tick]) -> Vec<Option<&'static str>> {
    ticks.iter().map(|t| t.alert.map(|a| a.message())).collect()
}

#[test]
fn starts_up() {
    let m = Monitor::new();
    assert!(m.last_ping_successful());
}

#[test]
fn scenario_steady_up() {
    let mut m = Monitor::new();
    let ticks = m.run(&vec![Success, Success]);
    assert_eq!(states(&ticks), vec![true, true]);
    assert_eq!(messages(&ticks), vec![None, None]);
}

#[test]
fn scenario_bad_status() {
    let mut m = Monitor::new();
    let ticks = m.run(&vec![BadStatus]);
    assert_eq!(states(&ticks), vec![false]);
    assert_eq!(messages(&ticks), vec![Some("Non-200 status code returned!")]);
    assert!(!m.last_ping_successful());
}

#[test]
fn scenario_outage_and_recovery() {
    let mut m = Monitor::new();
    let ticks = m.run(&vec![BadStatus, BadStatus, Success]);
    assert_eq!(states(&ticks), vec![false, false, true]);
    assert_eq!(
        messages(&ticks),
        vec![
            Some("Non-200 status code returned!"),
            Some("Non-200 status code returned!"),
            Some("200 status returned! The site is back :)"),
        ]
    );
    assert!(m.last_ping_successful());
}

#[test]
fn scenario_transport_failure() {
    let mut m = Monitor::new();
    let ticks = m.run(&vec![TransportFailure]);
    assert_eq!(states(&ticks), vec![false]);
    assert_eq!(messages(&ticks), vec![Some("Not able to ping!")]);
}

#[test]
fn observe_matches_run() {
    let mut a = Monitor::new();
    let mut b = Monitor::new();
    let outcomes = vec![Success, TransportFailure, BadStatus, Success, Success];
    let ticks = a.run(&outcomes);
    for (i, o) in outcomes.iter().enumerate() {
        assert_eq!(b.observe(*o), ticks[i]);
    }
    assert_eq!(a.last_ping_successful(), b.last_ping_successful());
}

#[test]
fn state_follows_last_outcome() {
    let cases: Vec<Vec<ProbeOutcome>> = vec![
        vec![Success],
        vec![BadStatus],
        vec![TransportFailure, Success],
        vec![Success, TransportFailure],
        vec![BadStatus, Success, BadStatus, Success],
    ];
    for outcomes in cases {
        let mut m = Monitor::new();
        m.run(&outcomes);
        assert_eq!(m.last_ping_successful(), *outcomes.last().unwrap() == Success);
    }
}

#[test]
fn every_failure_alerts() {
    let mut m = Monitor::new();
    let outcomes = vec![BadStatus, TransportFailure, TransportFailure, Success, BadStatus];
    let ticks = m.run(&outcomes);
    for (o, t) in outcomes.iter().zip(ticks.iter()) {
        if *o != Success {
            assert!(t.alert.is_some());
        }
    }
}

#[test]
fn success_alerts_only_after_down() {
    let mut m = Monitor::new();
    let t = m.observe(Success);
    assert_eq!(t, Tick { up: true, alert: None });
    m.observe(TransportFailure);
    let t = m.observe(Success);
    assert_eq!(t, Tick { up: true, alert: Some(Alert::Recovered) });
    let t = m.observe(Success);
    assert_eq!(t, Tick { up: true, alert: None });
}

#[test]
fn repeated_failure_from_down_alerts_twice() {
    let mut m = Monitor::new();
    m.observe(TransportFailure);
    assert!(!m.last_ping_successful());
    let ticks = m.run(&vec![BadStatus, BadStatus]);
    let t = Tick { up: false, alert: Some(Alert::BadStatus) };
    assert_eq!(ticks, vec![t, t]);
}

#[test]
fn empty_run_keeps_state() {
    let mut m = Monitor::new();
    let ticks = m.run(&vec![]);
    assert!(ticks.is_empty());
    assert!(m.last_ping_successful());
}

#[test]
fn alert_messages() {
    assert_eq!(Alert::Recovered.message(), "200 status returned! The site is back :)");
    assert_eq!(Alert::BadStatus.message(), "Non-200 status code returned!");
    assert_eq!(Alert::Unreachable.message(), "Not able to ping!");
}
