use ssh_forwarder::config::Config;
use ssh_forwarder::relay::TunnelRelay;
use ssh_forwarder::status::AppState;

fn sample_config() -> Config {
    Config {
        ssh_host: String::from("h"),
        ssh_port: 2222,
        ssh_username: String::from("user"),
        ssh_private_key_path: String::from("/tmp/key"),
        ssh_passphrase: None,
        local_host: String::from("127.0.0.1"),
        local_port: 8080,
        remote_host: String::from("0.0.0.0"),
        remote_port: 9000,
        health_check_interval: 30,
        reconnect_delay: 5,
        log_level: String::from("info"),
        web_interface: String::from("127.0.0.1"),
        web_port: 3000,
    }
}

#[test]
fn each_accepted_connection_gets_its_own_pair() {
    let mut r = TunnelRelay::new();
    let a = r.accept();
    let b = r.accept();
    let c = r.accept();
    assert_ne!(a, b);
    assert_ne!(a, c);
    assert_ne!(b, c);
    assert_eq!(r.active_count(), 3);
}

#[test]
fn finishing_one_pair_leaves_the_others_alone() {
    let mut r = TunnelRelay::new();
    let a = r.accept();
    let b = r.accept();
    let c = r.accept();
    r.finish(b);
    assert_eq!(r.active_count(), 2);
    assert_eq!(r.active, vec![a, c]);
    // Finishing an unknown pair is ignored.
    r.finish(b);
    assert_eq!(r.active, vec![a, c]);
}

#[test]
fn teardown_cancels_every_pair() {
    let mut r = TunnelRelay::new();
    r.accept();
    r.accept();
    r.teardown();
    assert_eq!(r.active_count(), 0);
    // Identifiers are never reused after a teardown.
    let d = r.accept();
    assert_eq!(d, 2);
}

#[test]
fn status_label_follows_connectivity() {
    let up = AppState::new(sample_config(), true);
    assert_eq!(up.status_label(), "connected");
    let down = AppState::new(sample_config(), false);
    assert_eq!(down.status_label(), "disconnected");
}

#[test]
fn status_exposes_the_three_endpoint_pairs() {
    let s = AppState::new(sample_config(), true);
    assert_eq!(s.ssh_bind(), "h:2222");
    assert_eq!(s.local_bind(), "127.0.0.1:8080");
    assert_eq!(s.remote_bind(), "0.0.0.0:9000");
}
