use renet_diagnostics::identity::{
    base_identifier, base_name_str, derived_identifier, display_name, MetricKind, BASE_PACKET_LOSS_ID,
    BASE_RECEIVED_KBPS_ID, BASE_RTT_ID, BASE_SENT_KBPS_ID,
};

const ALL_KINDS: [MetricKind; 4] = [
    MetricKind::Rtt,
    MetricKind::SentKbps,
    MetricKind::ReceivedKbps,
    MetricKind::PacketLoss,
];

#[test]
fn base_identifiers_are_the_fixed_constants() {
    assert_eq!(base_identifier(MetricKind::Rtt), BASE_RTT_ID);
    assert_eq!(base_identifier(MetricKind::SentKbps), BASE_SENT_KBPS_ID);
    assert_eq!(base_identifier(MetricKind::ReceivedKbps), BASE_RECEIVED_KBPS_ID);
    assert_eq!(base_identifier(MetricKind::PacketLoss), BASE_PACKET_LOSS_ID);
}

#[test]
fn derived_identifier_offsets_base_by_client_id() {
    assert_eq!(derived_identifier(MetricKind::Rtt, 7), BASE_RTT_ID + 7);
    assert_eq!(derived_identifier(MetricKind::SentKbps, 7), BASE_SENT_KBPS_ID + 7);
    assert_eq!(derived_identifier(MetricKind::ReceivedKbps, 9), BASE_RECEIVED_KBPS_ID + 9);
    assert_eq!(derived_identifier(MetricKind::PacketLoss, 0), BASE_PACKET_LOSS_ID);
    assert_eq!(
        derived_identifier(MetricKind::Rtt, u64::MAX),
        BASE_RTT_ID + u128::from(u64::MAX)
    );
}

#[test]
fn distinct_clients_get_distinct_identifiers() {
    for kind in ALL_KINDS {
        assert_ne!(derived_identifier(kind, 1), derived_identifier(kind, 2));
        assert_ne!(derived_identifier(kind, 0), derived_identifier(kind, u64::MAX));
    }
}

#[test]
fn distinct_kinds_get_distinct_identifiers() {
    for client_id in [0u64, 5, 42, u64::MAX] {
        for (i, k1) in ALL_KINDS.iter().enumerate() {
            for (j, k2) in ALL_KINDS.iter().enumerate() {
                if i != j {
                    assert_ne!(
                        derived_identifier(*k1, client_id),
                        derived_identifier(*k2, client_id)
                    );
                }
            }
        }
    }
}

#[test]
fn derived_identifiers_never_shadow_base_identifiers() {
    let bases = [
        BASE_RTT_ID,
        BASE_SENT_KBPS_ID,
        BASE_RECEIVED_KBPS_ID,
        BASE_PACKET_LOSS_ID,
    ];
    for kind in ALL_KINDS {
        for base in bases {
            assert_ne!(derived_identifier(kind, 5), base);
        }
    }
}

#[test]
fn base_names_are_the_fixed_labels() {
    assert_eq!(base_name_str(MetricKind::Rtt), "network_rtt");
    assert_eq!(base_name_str(MetricKind::SentKbps), "network_sent_kbps");
    assert_eq!(base_name_str(MetricKind::ReceivedKbps), "network_received_kbps");
    assert_eq!(base_name_str(MetricKind::PacketLoss), "network_packet_loss");
}

#[test]
fn display_name_joins_base_name_and_client_id() {
    assert_eq!(display_name(MetricKind::Rtt, 42), "network_rtt_42");
    assert_eq!(display_name(MetricKind::SentKbps, 0), "network_sent_kbps_0");
    assert_eq!(display_name(MetricKind::ReceivedKbps, 7), "network_received_kbps_7");
    assert_eq!(display_name(MetricKind::PacketLoss, 109), "network_packet_loss_109");
    assert_eq!(
        display_name(MetricKind::Rtt, u64::MAX),
        "network_rtt_18446744073709551615"
    );
}
