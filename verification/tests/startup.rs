use liveness_probe::bootstrap::{MigrationAction, MigrationState, INITIAL_RETRY_DELAY_MS};
use liveness_probe::node::Node;
use liveness_probe::resolver::{local_ip, resolve_ip, DISCOVERY_TIMEOUT_MS, METADATA_URL};

fn is_ipv4_shaped(text: &str) -> bool {
    let parts: Vec<&str> = text.split('.').collect();
    parts.len() == 4
        && parts.iter().all(|p| {
            !p.is_empty()
                && p.len() <= 3
                && p.chars().all(|c| c.is_ascii_digit())
                && (p.len() == 1 || !p.starts_with('0'))
                && p.parse::<u32>().map(|n| n <= 255).unwrap_or(false)
        })
}

#[test]
fn migration_starts_pending() {
    assert_eq!(MigrationState::new(), MigrationState::Pending);
    assert!(!MigrationState::new().is_ready());
    assert_eq!(INITIAL_RETRY_DELAY_MS, 100);
}

#[test]
fn first_success_makes_ready() {
    let (state, action) = MigrationState::new().on_attempt(true);
    assert_eq!(state, MigrationState::Ready);
    assert_eq!(action, MigrationAction::Proceed);
    assert!(state.is_ready());
}

#[test]
fn migration_that_fails_twice_then_succeeds_waits_100_then_200() {
    let mut state = MigrationState::new();
    let mut delays = Vec::new();
    for succeeded in [false, false, true] {
        assert!(succeeded || state.can_fail());
        let (next, action) = state.on_attempt(succeeded);
        state = next;
        match action {
            MigrationAction::RetryAfter { delay_ms } => delays.push(delay_ms),
            MigrationAction::Proceed => break,
        }
    }
    assert_eq!(delays, vec![100, 200]);
    assert!(state.is_ready());
}

#[test]
fn failures_double_the_delay_without_a_cap() {
    let mut state = MigrationState::new();
    let mut expected: u64 = 100;
    for _ in 0..40 {
        let (next, action) = state.on_attempt(false);
        assert_eq!(next, MigrationState::Retrying { delay_ms: expected });
        assert_eq!(action, MigrationAction::RetryAfter { delay_ms: expected });
        assert!(!next.is_ready());
        state = next;
        expected *= 2;
    }
    assert_eq!(state, MigrationState::Retrying { delay_ms: 100 * (1u64 << 39) });
    assert_eq!(state.on_attempt(true), (MigrationState::Ready, MigrationAction::Proceed));
}

#[test]
fn ready_stays_ready() {
    assert_eq!(MigrationState::Ready.on_attempt(false), (MigrationState::Ready, MigrationAction::Proceed));
    assert_eq!(MigrationState::Ready.on_attempt(true), (MigrationState::Ready, MigrationAction::Proceed));
    assert!(MigrationState::Ready.can_fail());
}

#[test]
fn state_knows_when_the_delay_no_longer_fits() {
    assert!(MigrationState::Pending.can_fail());
    assert!(MigrationState::Retrying { delay_ms: u64::MAX / 2 }.can_fail());
    assert!(!MigrationState::Retrying { delay_ms: u64::MAX / 2 + 1 }.can_fail());
    assert_eq!(
        MigrationState::Retrying { delay_ms: u64::MAX / 2 }.on_attempt(false),
        (
            MigrationState::Retrying { delay_ms: u64::MAX - 1 },
            MigrationAction::RetryAfter { delay_ms: u64::MAX - 1 }
        )
    );
}

#[test]
fn discovery_settings() {
    assert_eq!(METADATA_URL, "http://169.254.169.254/latest/meta-data/local-ipv4");
    assert_eq!(DISCOVERY_TIMEOUT_MS, 1000);
}

#[test]
fn discovered_address_is_used_verbatim() {
    assert_eq!(local_ip(Some("172.31.4.20".to_string())), "172.31.4.20");
    assert_eq!(local_ip(Some("not an address\n".to_string())), "not an address\n");
    assert_eq!(local_ip(Some(String::new())), "");
}

#[test]
fn failed_discovery_falls_back_to_an_ipv4_shaped_address() {
    for _ in 0..200 {
        let ip = local_ip(None);
        assert!(is_ipv4_shaped(&ip), "{} is not shaped like an IPv4 address", ip);
    }
}

#[test]
fn resolve_prefers_the_discovered_address() {
    assert_eq!(resolve_ip(Some("10.0.0.1".to_string()), "1.2.3.4".to_string()), "10.0.0.1");
    assert_eq!(resolve_ip(None, "1.2.3.4".to_string()), "1.2.3.4");
}

#[test]
fn node_goes_by_the_resolved_address() {
    assert_eq!(Node::new(Some("172.31.4.20".to_string())).ip, "172.31.4.20");
    assert!(is_ipv4_shaped(&Node::new(None).ip));
}
