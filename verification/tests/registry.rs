use renet_diagnostics::identity::{derived_identifier, MetricKind};
use renet_diagnostics::registry::{MetricsRegistry, HISTORY_CAPACITY};

#[test]
fn new_registry_knows_no_client() {
    let registry = MetricsRegistry::new();
    assert!(!registry.is_registered(0));
    assert!(!registry.is_registered(7));
}

#[test]
fn first_registration_yields_four_series() {
    let mut registry = MetricsRegistry::new();
    let registrations = registry.ensure_registered(7);
    assert_eq!(registrations.len(), 4);
    assert_eq!(registrations[0].identifier, derived_identifier(MetricKind::Rtt, 7));
    assert_eq!(registrations[1].identifier, derived_identifier(MetricKind::SentKbps, 7));
    assert_eq!(
        registrations[2].identifier,
        derived_identifier(MetricKind::ReceivedKbps, 7)
    );
    assert_eq!(
        registrations[3].identifier,
        derived_identifier(MetricKind::PacketLoss, 7)
    );
    assert_eq!(registrations[0].name, "network_rtt_7");
    assert_eq!(registrations[1].name, "network_sent_kbps_7");
    assert_eq!(registrations[2].name, "network_received_kbps_7");
    assert_eq!(registrations[3].name, "network_packet_loss_7");
    for registration in &registrations {
        assert_eq!(registration.history_capacity, HISTORY_CAPACITY);
        assert_eq!(registration.history_capacity, 20);
    }
    assert!(registry.is_registered(7));
}

#[test]
fn repeat_registration_is_a_no_op() {
    let mut registry = MetricsRegistry::new();
    let first = registry.ensure_registered(7);
    assert_eq!(first.len(), 4);
    let second = registry.ensure_registered(7);
    assert_eq!(second.len(), 0);
    assert!(registry.is_registered(7));
    let third = registry.ensure_registered(7);
    assert_eq!(third.len(), 0);
}

#[test]
fn registration_tracks_each_client_separately() {
    let mut registry = MetricsRegistry::new();
    assert_eq!(registry.ensure_registered(7).len(), 4);
    assert!(!registry.is_registered(9));
    assert_eq!(registry.ensure_registered(9).len(), 4);
    assert!(registry.is_registered(7));
    assert!(registry.is_registered(9));
    assert_eq!(registry.ensure_registered(7).len(), 0);
}
