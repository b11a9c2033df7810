// Transport behaviour: accounting, fragmentation, loss and retries, and
// the idempotence of reset.

use frost_threshold_signature::simulated_lora::{
    LoRaConfig, SimulatedLoRaTransport, TransportEvent,
};
use frost_threshold_signature::transport::{
    MessageMetadata, MessageType, StdoutTransport, Transport, TransportStats,
};

fn metadata(from: &str, to: &str, message_type: MessageType) -> MessageMetadata {
    MessageMetadata {
        from: from.to_string(),
        to: to.to_string(),
        message_type,
        timestamp_ms: None,
    }
}

#[test]
fn test_stdout_transport_basic() {
    let mut transport = StdoutTransport::new();

    transport.send(
        MessageMetadata {
            from: "signer_1".to_string(),
            to: "coordinator".to_string(),
            message_type: MessageType::Round1Commitment,
            timestamp_ms: Some(chrono::Utc::now().timestamp_millis()),
        },
        "deadbeef".as_bytes(),
    );

    let stats = transport.get_stats().unwrap();
    assert_eq!(stats.total_messages, 1);
    assert_eq!(stats.by_type.count_for(MessageType::Round1Commitment), 1);
}

#[test]
fn test_lora_transport_fragmentation() {
    let mut transport = SimulatedLoRaTransport::new();

    // a small message needs no fragmentation
    transport.send(metadata("test", "dest", MessageType::Other), "small".as_bytes());

    // a large message is split into fragments
    let large_payload = "x".repeat(200);
    transport.send(metadata("test", "dest", MessageType::Other), large_payload.as_bytes());

    let stats = transport.get_stats().unwrap();
    assert_eq!(stats.total_messages, 2);
}

#[test]
fn lossless_link_emits_the_exact_trace() {
    // 200 bytes over 64-byte fragments on a lossless link: exactly one
    // start event, four delivered fragments, one completion, no retries
    let config = LoRaConfig {
        latency_ms: 1,
        packet_loss_ppm: 0,
        fragment_size: 64,
        max_retries: 3,
    };
    let mut transport = SimulatedLoRaTransport::new_with_config(config);
    let payload = vec![7u8; 200];
    transport.send(metadata("signer_1", "coordinator", MessageType::Round1Commitment), &payload);

    let state = transport.get_state();
    let mut starts = 0;
    let mut fragments = 0;
    let mut completes = 0;
    for event in state.recent_events.iter() {
        match event {
            TransportEvent::TransmitStart { total_bytes, fragments: n, .. } => {
                starts += 1;
                assert_eq!(*total_bytes, 200);
                assert_eq!(*n, 4);
            }
            TransportEvent::TransmitFragment { total_fragments, .. } => {
                fragments += 1;
                assert_eq!(*total_fragments, 4);
            }
            TransportEvent::TransmitComplete { retries, .. } => {
                completes += 1;
                assert_eq!(*retries, 0);
            }
            other => panic!("unexpected event on a lossless link: {:?}", other),
        }
    }
    assert_eq!(starts, 1);
    assert_eq!(fragments, 4);
    assert_eq!(completes, 1);
    assert_eq!(state.total_retries, 0);
    assert_eq!(state.progress_ppm, 1_000_000);
    assert_eq!(state.total_messages, 1);
    assert_eq!(state.total_bytes, 200);
    assert_eq!(state.by_type.count_for(MessageType::Round1Commitment), 1);
    assert_eq!(state.current_phase, "Round1Commitment");
}

#[test]
fn fragment_sizes_cover_the_payload() {
    // 130 bytes over 64-byte fragments: 64 + 64 + 2
    let config = LoRaConfig {
        latency_ms: 1,
        packet_loss_ppm: 0,
        fragment_size: 64,
        max_retries: 0,
    };
    let mut transport = SimulatedLoRaTransport::new_with_config(config);
    let payload = vec![1u8; 130];
    transport.send(metadata("a", "b", MessageType::Other), &payload);

    let state = transport.get_state();
    let sizes: Vec<usize> = state
        .recent_events
        .iter()
        .filter_map(|e| match e {
            TransportEvent::TransmitFragment { bytes, .. } => Some(*bytes),
            _ => None,
        })
        .collect();
    assert_eq!(sizes, vec![64, 64, 2]);
}

#[test]
fn lossy_link_abandons_after_max_retries() {
    // a link that loses everything gives each fragment max_retries retries
    // and then moves on
    let config = LoRaConfig {
        latency_ms: 1,
        packet_loss_ppm: 1_000_000,
        fragment_size: 64,
        max_retries: 3,
    };
    let mut transport = SimulatedLoRaTransport::new_with_config(config);
    transport.send(metadata("a", "b", MessageType::Other), "small".as_bytes());

    let state = transport.get_state();
    assert_eq!(state.total_retries, 3);
    let delivered = state
        .recent_events
        .iter()
        .filter(|e| matches!(e, TransportEvent::TransmitFragment { .. }))
        .count();
    assert_eq!(delivered, 0);
    let lost = state
        .recent_events
        .iter()
        .filter(|e| matches!(e, TransportEvent::PacketLost { .. }))
        .count();
    assert_eq!(lost, 3);
    // signal strength dropped, within its floor
    assert!(state.rssi < -80 && state.rssi >= -120);
}

#[test]
fn transport_reset_is_idempotent_for_statistics() {
    // reset followed by zero sends leaves total_messages at 0 and every
    // per-type counter empty, on both transports
    let mut stdout_transport = StdoutTransport::new();
    stdout_transport.send(metadata("a", "b", MessageType::FinalSignature), b"sig");
    stdout_transport.reset();
    let stats = stdout_transport.get_stats().unwrap();
    assert_eq!(stats.total_messages, 0);
    assert_eq!(stats.total_bytes, 0);
    for t in [
        MessageType::Round1Commitment,
        MessageType::SigningPackage,
        MessageType::Round2SignatureShare,
        MessageType::FinalSignature,
        MessageType::Other,
    ] {
        assert_eq!(stats.by_type.count_for(t), 0);
    }

    let config = LoRaConfig {
        latency_ms: 1,
        packet_loss_ppm: 0,
        fragment_size: 64,
        max_retries: 0,
    };
    let mut lora = SimulatedLoRaTransport::new_with_config(config);
    lora.send(metadata("a", "b", MessageType::Other), b"payload");
    lora.reset();
    let stats = lora.get_stats().unwrap();
    assert_eq!(stats.total_messages, 0);
    for t in [
        MessageType::Round1Commitment,
        MessageType::SigningPackage,
        MessageType::Round2SignatureShare,
        MessageType::FinalSignature,
        MessageType::Other,
    ] {
        assert_eq!(stats.by_type.count_for(t), 0);
    }
    let state = lora.get_state();
    assert_eq!(state.total_messages, 0);
    assert_eq!(state.total_retries, 0);
    assert!(state.recent_events.is_empty());
    assert_eq!(state.current_phase, "Idle");
}

#[test]
fn cli_log_keeps_the_newest_lines() {
    let mut transport = SimulatedLoRaTransport::new();
    for i in 0..510 {
        transport.log_cli_output(format!("line {}", i));
    }
    let state = transport.get_state();
    assert_eq!(state.cli_output.len(), 500);
    assert_eq!(state.cli_output[0], "line 10");
    assert_eq!(state.cli_output[499], "line 509");
}

#[test]
fn stats_default_is_zeroed() {
    let stats = TransportStats::default();
    assert_eq!(stats.total_messages, 0);
    assert_eq!(stats.total_bytes, 0);
    assert_eq!(stats.by_type.count_for(MessageType::Other), 0);
}
