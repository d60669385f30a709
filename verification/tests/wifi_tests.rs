use http_app::wifi::{
    find_channel, link_ready, AccessPoint, ConnectAction, ConnectError, ConnectEvent,
    ConnectStage, Connector, WAIT_TIMEOUT_SECS,
};

fn ap(ssid: &str, channel: u8) -> AccessPoint {
    AccessPoint { ssid: ssid.to_string(), channel }
}

#[test]
fn channel_of_first_matching_ap() {
    let aps = vec![ap("other", 1), ap("home", 6), ap("home", 11)];
    assert_eq!(find_channel(&aps, "home"), Some(6));
    assert_eq!(find_channel(&aps, "other"), Some(1));
}

#[test]
fn no_channel_when_not_found() {
    let aps = vec![ap("other", 1), ap("Home", 6)];
    assert_eq!(find_channel(&aps, "home"), None);
    assert_eq!(find_channel(&Vec::new(), "home"), None);
}

#[test]
fn link_needs_connection_and_address() {
    assert!(link_ready(true, [192, 168, 0, 5]));
    assert!(!link_ready(true, [0, 0, 0, 0]));
    assert!(!link_ready(false, [192, 168, 0, 5]));
    assert!(link_ready(true, [0, 0, 0, 1]));
}

#[test]
fn error_messages() {
    assert_eq!(ConnectError::NotStarted.message(), "Wifi did not start");
    assert_eq!(
        ConnectError::NoLease.message(),
        "Wifi did not connect or did not receive a DHCP lease"
    );
}

#[test]
fn connect_success_sequence() {
    let mut c = Connector::new("home", "secret");
    assert_eq!(c.current_stage(), ConnectStage::Creating);
    assert!(matches!(Connector::first_action(), ConnectAction::CreateStack));
    assert!(matches!(c.step(ConnectEvent::Completed), ConnectAction::Scan));
    assert_eq!(c.current_stage(), ConnectStage::Scanning);
    match c.step(ConnectEvent::Scanned(vec![ap("x", 3), ap("home", 9)])) {
        ConnectAction::Configure { ssid, password, channel } => {
            assert_eq!(ssid, "home");
            assert_eq!(password, "secret");
            assert_eq!(channel, Some(9));
        }
        other => panic!("unexpected {:?}", other),
    }
    assert!(matches!(c.step(ConnectEvent::Completed), ConnectAction::Start));
    assert!(matches!(
        c.step(ConnectEvent::Completed),
        ConnectAction::WaitStarted { timeout_secs: 20 }
    ));
    assert!(matches!(c.step(ConnectEvent::Waited(true)), ConnectAction::Connect));
    match c.step(ConnectEvent::Completed) {
        ConnectAction::WaitLink { timeout_secs } => assert_eq!(timeout_secs, WAIT_TIMEOUT_SECS),
        other => panic!("unexpected {:?}", other),
    }
    assert!(matches!(c.step(ConnectEvent::Waited(true)), ConnectAction::Finish));
    assert_eq!(c.current_stage(), ConnectStage::Connected);
}

#[test]
fn connect_without_matching_ap_leaves_channel_open() {
    let mut c = Connector::new("home", "");
    c.step(ConnectEvent::Completed);
    match c.step(ConnectEvent::Scanned(vec![ap("x", 3)])) {
        ConnectAction::Configure { channel, .. } => assert_eq!(channel, None),
        other => panic!("unexpected {:?}", other),
    }
}

#[test]
fn connect_fails_when_not_started() {
    let mut c = Connector::new("home", "pw");
    c.step(ConnectEvent::Completed);
    c.step(ConnectEvent::Scanned(Vec::new()));
    c.step(ConnectEvent::Completed);
    c.step(ConnectEvent::Completed);
    assert!(matches!(
        c.step(ConnectEvent::Waited(false)),
        ConnectAction::Fail(ConnectError::NotStarted)
    ));
    assert_eq!(c.current_stage(), ConnectStage::Failed(ConnectError::NotStarted));
}

#[test]
fn connect_fails_without_lease() {
    let mut c = Connector::new("home", "pw");
    c.step(ConnectEvent::Completed);
    c.step(ConnectEvent::Scanned(Vec::new()));
    c.step(ConnectEvent::Completed);
    c.step(ConnectEvent::Completed);
    c.step(ConnectEvent::Waited(true));
    c.step(ConnectEvent::Completed);
    assert!(matches!(
        c.step(ConnectEvent::Waited(false)),
        ConnectAction::Fail(ConnectError::NoLease)
    ));
    assert_eq!(c.current_stage(), ConnectStage::Failed(ConnectError::NoLease));
}

#[test]
fn stack_error_is_passed_on() {
    let mut c = Connector::new("home", "pw");
    assert!(matches!(c.step(ConnectEvent::StackFailed), ConnectAction::PassOn));
    assert_eq!(c.current_stage(), ConnectStage::Aborted);

    let mut c = Connector::new("home", "pw");
    c.step(ConnectEvent::Completed);
    c.step(ConnectEvent::Scanned(vec![ap("home", 1)]));
    c.step(ConnectEvent::Completed);
    assert!(matches!(c.step(ConnectEvent::StackFailed), ConnectAction::PassOn));
    assert_eq!(c.current_stage(), ConnectStage::Aborted);

    let mut c = Connector::new("home", "pw");
    c.step(ConnectEvent::Completed);
    c.step(ConnectEvent::Scanned(Vec::new()));
    c.step(ConnectEvent::Completed);
    c.step(ConnectEvent::Completed);
    assert!(matches!(c.step(ConnectEvent::StackFailed), ConnectAction::PassOn));
}
