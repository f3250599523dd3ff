use ssh_forwarder::config::Config;
use ssh_forwarder::controller::ConnectError;
use ssh_forwarder::controller::DriverAction;
use ssh_forwarder::controller::StartupError;
use ssh_forwarder::controller::TunnelController;
use ssh_forwarder::controller::TunnelError;
use ssh_forwarder::controller::TunnelState;
use ssh_forwarder::controller::MAX_HEALTH_CHECK_FAILURES;

fn sample_config() -> Config {
    Config {
        ssh_host: String::from("h"),
        ssh_port: 2222,
        ssh_username: String::from("user"),
        ssh_private_key_path: String::from("/tmp/key"),
        ssh_passphrase: None,
        local_host: String::from("127.0.0.1"),
        local_port: 8080,
        remote_host: String::from("0.0.0.0"),
        remote_port: 9000,
        health_check_interval: 30,
        reconnect_delay: 5,
        log_level: String::from("info"),
        web_interface: String::from("127.0.0.1"),
        web_port: 3000,
    }
}

/// Drives a fresh controller to the steady health-checking state.
fn checking_controller(now: u64) -> TunnelController {
    let mut c = TunnelController::new(sample_config());
    assert_eq!(c.connect(now, Ok(())), Ok(()));
    assert_eq!(c.establish_tunnel(now, true), Ok(()));
    assert_eq!(c.state, TunnelState::HealthChecking);
    c
}

#[test]
fn new_controller_is_idle() {
    let c = TunnelController::new(sample_config());
    assert_eq!(c.state, TunnelState::Idle);
    assert_eq!(c.failures, 0);
    assert!(!c.is_connected());
    assert!(c.may_attempt(0));
}

#[test]
fn successful_connect_holds_session() {
    let mut c = TunnelController::new(sample_config());
    assert_eq!(c.connect(0, Ok(())), Ok(()));
    assert_eq!(c.state, TunnelState::TunnelEstablished);
    assert!(c.is_connected());
    assert_eq!(c.failures, 0);
}

#[test]
fn each_connect_failure_returns_to_idle() {
    for e in [
        ConnectError::TransportConnectFailed,
        ConnectError::HandshakeFailed,
        ConnectError::AuthFailed,
    ] {
        let mut c = TunnelController::new(sample_config());
        assert_eq!(c.connect(100, Err(e)), Err(e));
        assert_eq!(c.state, TunnelState::Idle);
        assert!(!c.is_connected());
    }
}

#[test]
fn reconnect_delay_is_honored_after_failed_connect() {
    let mut c = TunnelController::new(sample_config());
    assert_eq!(
        c.connect(100, Err(ConnectError::TransportConnectFailed)),
        Err(ConnectError::TransportConnectFailed)
    );
    // reconnect_delay is 5: ticks 100..=104 are refused, 105 is allowed.
    assert!(!c.may_attempt(100));
    assert!(!c.may_attempt(104));
    assert_eq!(c.next_action(104, false), DriverAction::Wait);
    assert!(c.may_attempt(105));
    assert_eq!(c.next_action(105, false), DriverAction::AttemptConnect);
}

#[test]
fn establish_failure_drops_session_and_returns_to_idle() {
    let mut c = TunnelController::new(sample_config());
    assert_eq!(c.connect(0, Ok(())), Ok(()));
    assert_eq!(
        c.establish_tunnel(7, false),
        Err(TunnelError::TunnelEstablishFailed)
    );
    assert_eq!(c.state, TunnelState::Idle);
    assert!(!c.is_connected());
    assert!(!c.may_attempt(11));
    assert!(c.may_attempt(12));
}

#[test]
fn establish_success_starts_health_checking() {
    let c = checking_controller(0);
    assert!(c.is_connected());
    assert_eq!(c.failures, 0);
}

#[test]
fn probe_failure_increments_counter_and_success_resets_it() {
    let mut c = checking_controller(0);
    assert!(!c.health_check(30, false));
    assert_eq!(c.failures, 1);
    assert!(!c.health_check(60, false));
    assert_eq!(c.failures, 2);
    assert_eq!(c.state, TunnelState::HealthChecking);
    assert!(c.health_check(90, true));
    assert_eq!(c.failures, 0);
    assert_eq!(c.state, TunnelState::HealthChecking);
}

#[test]
fn three_consecutive_probe_failures_force_reconnect() {
    let mut c = checking_controller(0);
    assert!(!c.health_check(30, false));
    assert!(!c.health_check(60, false));
    assert_eq!(c.state, TunnelState::HealthChecking);
    assert!(!c.health_check(90, false));
    assert_eq!(c.failures, MAX_HEALTH_CHECK_FAILURES);
    assert_eq!(c.state, TunnelState::Reconnecting);
    // The driver must now tear the session down...
    assert_eq!(c.next_action(90, false), DriverAction::Teardown);
    c.disconnect();
    assert_eq!(c.state, TunnelState::Idle);
    assert!(!c.is_connected());
    // ...and no probe or connect attempt happens before the delay is out.
    assert_eq!(c.next_action(94, false), DriverAction::Wait);
    assert_eq!(c.next_action(95, false), DriverAction::AttemptConnect);
}

#[test]
fn disconnect_is_idempotent() {
    let mut c = TunnelController::new(sample_config());
    c.disconnect();
    assert_eq!(c.state, TunnelState::Idle);
    assert_eq!(c.failures, 0);
    let retry_before = c.retry_at;
    c.disconnect();
    assert_eq!(c.state, TunnelState::Idle);
    assert_eq!(c.failures, 0);
    assert_eq!(c.retry_at, retry_before);
    assert!(!c.is_connected());
}

#[test]
fn disconnect_from_connected_state_returns_to_idle() {
    let mut c = checking_controller(0);
    c.disconnect();
    assert_eq!(c.state, TunnelState::Idle);
    assert!(!c.is_connected());
}

#[test]
fn missing_key_file_is_fatal_and_never_connects() {
    let mut c = TunnelController::new(sample_config());
    assert_eq!(c.startup(false), Err(StartupError::ConfigInvalid));
    assert_eq!(c.state, TunnelState::Failed);
    assert!(!c.is_connected());
    // The driver stops: no connection attempt is ever scheduled.
    assert_eq!(c.next_action(0, false), DriverAction::Stop);
    assert_eq!(c.next_action(1000, false), DriverAction::Stop);
}

#[test]
fn present_key_file_passes_startup() {
    let mut c = TunnelController::new(sample_config());
    assert_eq!(c.startup(true), Ok(()));
    assert_eq!(c.state, TunnelState::Idle);
    assert_eq!(c.next_action(0, false), DriverAction::AttemptConnect);
}

#[test]
fn driver_actions_follow_the_state() {
    let mut c = TunnelController::new(sample_config());
    assert_eq!(c.next_action(0, false), DriverAction::AttemptConnect);
    assert_eq!(c.connect(0, Ok(())), Ok(()));
    assert_eq!(c.next_action(0, false), DriverAction::EstablishTunnel);
    assert_eq!(c.establish_tunnel(0, true), Ok(()));
    // The next probe is due one interval (30) later.
    assert_eq!(c.next_action(29, false), DriverAction::Wait);
    assert_eq!(c.next_action(30, false), DriverAction::Probe);
    // Shutdown is observed at loop boundaries, whatever the state.
    assert_eq!(c.next_action(30, true), DriverAction::Stop);
}

#[test]
fn probe_timer_spaces_health_checks() {
    let mut c = checking_controller(0);
    assert_eq!(c.probe_at, 30);
    assert!(c.health_check(30, true));
    assert_eq!(c.probe_at, 60);
    assert_eq!(c.next_action(59, false), DriverAction::Wait);
    assert_eq!(c.next_action(60, false), DriverAction::Probe);
}
