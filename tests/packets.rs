use penumbra_ibc_core::channel::{
    MsgChannelCloseConfirm, MsgChannelCloseInit, MsgChannelOpenAck, MsgChannelOpenConfirm, MsgChannelOpenInit,
    MsgChannelOpenTry,
};
use penumbra_ibc_core::error::IbcError;
use penumbra_ibc_core::event::{self, EventKind, IbcEvent};
use penumbra_ibc_core::ident::{ChannelId, ClientId, ConnectionId, PortId};
use penumbra_ibc_core::transfer::EscrowAction;
use penumbra_ibc_core::packet::{MsgAcknowledgement, MsgRecvPacket, MsgTimeout, Packet};
use penumbra_ibc_core::state::{
    ChannelCounterparty, ChannelEnd, ChannelState, ClientRecord, ConnectionCounterparty, ConnectionEnd,
    ConnectionState, ConsensusEntry, ConsensusState, IbcState, Order, PacketKey, PacketOutcome,
};

fn channel(ordering: Order, state: ChannelState) -> ChannelEnd {
    ChannelEnd {
        state,
        ordering,
        port_id: PortId::transfer(),
        counterparty: ChannelCounterparty { port_id: PortId::transfer(), channel_id: Some(ChannelId { index: 0 }) },
        connection_id: ConnectionId { index: 0 },
        next_sequence_recv: 1,
    }
}

/// A chain at height 100 and time 5000, with one client that trusts the
/// counterparty at height 10 (time 1000), one open connection, an open
/// unordered channel 0 and an open ordered channel 1, both facing the
/// counterparty's channel 0.
fn open_chain() -> IbcState {
    let mut s = IbcState::new(100, 5_000);
    s.clients.push(ClientRecord { latest_height: 10 });
    s.consensus_states.push(ConsensusEntry {
        client_id: ClientId { index: 0 },
        height: 10,
        state: ConsensusState { root: [1; 32], timestamp: 1_000 },
    });
    s.connections.push(ConnectionEnd {
        state: ConnectionState::Open,
        client_id: ClientId { index: 0 },
        counterparty: ConnectionCounterparty { client_id: ClientId { index: 0 }, connection_id: Some(ConnectionId { index: 0 }) },
    });
    s.channels.push(channel(Order::Unordered, ChannelState::Open));
    s.channels.push(channel(Order::Ordered, ChannelState::Open));
    s
}

fn packet(sequence: u64, chan_on_a: u64, chan_on_b: u64) -> Packet {
    Packet {
        sequence,
        port_on_a: PortId::transfer(),
        chan_on_a: ChannelId { index: chan_on_a },
        port_on_b: PortId::transfer(),
        chan_on_b: ChannelId { index: chan_on_b },
        data: vec![0x0a, 0xff],
        timeout_height_on_b: 50,
        timeout_timestamp_on_b: 0,
    }
}

fn recv(sequence: u64, chan: u64) -> MsgRecvPacket {
    let mut p = packet(sequence, 0, chan);
    p.timeout_height_on_b = 200;
    MsgRecvPacket { packet: p, proof_height: 10 }
}

fn timeout(sequence: u64, chan: u64) -> MsgTimeout {
    let mut p = packet(sequence, chan, 0);
    p.timeout_height_on_b = 8;
    MsgTimeout { packet: p, next_sequence_recv_on_b: 1, proof_height: 10 }
}

fn ack(sequence: u64) -> MsgAcknowledgement {
    MsgAcknowledgement { packet: packet(sequence, 0, 0), acknowledgement: vec![1], proof_height: 10 }
}

#[test]
fn timeout_after_receipt_is_rejected() {
    // Chain A sends packet 7 over its channel 0 to channel 0 of chain B.
    let mut a = open_chain();
    let mut b = open_chain();
    b.height = 20;
    let key_a = PacketKey { channel_id: ChannelId { index: 0 }, sequence: 7 };
    a.put_commitment(key_a);
    let mut p = packet(7, 0, 0);
    p.timeout_height_on_b = 50;
    let sent = a.find_commitment(key_a).is_some();
    let msg = MsgRecvPacket { packet: p, proof_height: 10 };
    assert_eq!(b.execute_recv_packet(&msg), Ok(()));
    assert!(b.find_receipt(PacketKey { channel_id: ChannelId { index: 0 }, sequence: 7 }));
    assert!(sent);

    // A later trusts B at height 60, past the packet's timeout height.
    a.clients[0].latest_height = 60;
    a.consensus_states.push(ConsensusEntry {
        client_id: ClientId { index: 0 },
        height: 60,
        state: ConsensusState { root: [2; 32], timestamp: 2_000 },
    });
    let mut tp = packet(7, 0, 0);
    tp.timeout_height_on_b = 50;
    let timeout = MsgTimeout { packet: tp, next_sequence_recv_on_b: 1, proof_height: 60 };
    // The proof of non-receipt cannot verify: B holds a receipt.
    let verified = !b.find_receipt(PacketKey { channel_id: ChannelId { index: 0 }, sequence: 7 });
    assert_eq!(a.check_timeout(&timeout, verified), Err(IbcError::ProofVerificationFailed));
    assert_eq!(a.commitments.len(), 1);
    assert!(a.closed.is_empty());
}

#[test]
fn inbound_and_outbound_sequences_are_independent() {
    let mut s = open_chain();
    let key = PacketKey { channel_id: ChannelId { index: 0 }, sequence: 3 };
    assert_eq!(s.execute_recv_packet(&recv(3, 0)), Ok(()));
    s.put_commitment(key);
    assert_eq!(s.check_acknowledgement(&ack(3), true), Ok(()));
    assert_eq!(s.execute_acknowledgement(&ack(3)), Ok(EscrowAction::Finalize));
    assert!(s.find_closed(key));
    assert_eq!(s.check_recv_packet(&recv(4, 0), true), Ok(()));
    assert_eq!(s.check_recv_packet(&recv(3, 0), true), Err(IbcError::PacketAlreadyProcessed));
    assert_eq!(s.check_acknowledgement(&ack(3), true), Err(IbcError::PacketAlreadyProcessed));
}

#[test]
fn second_receive_is_rejected() {
    let mut s = open_chain();
    assert_eq!(s.check_recv_packet(&recv(3, 0), true), Ok(()));
    assert_eq!(s.execute_recv_packet(&recv(3, 0)), Ok(()));
    assert_eq!(s.receipts.len(), 1);
    assert_eq!(s.receipts[0], PacketKey { channel_id: ChannelId { index: 0 }, sequence: 3 });
    assert_eq!(s.acks.len(), 1);
    assert_eq!(s.acks[0].ack, vec![1u8]);
    assert_eq!(s.check_recv_packet(&recv(3, 0), true), Err(IbcError::PacketAlreadyProcessed));
    assert_eq!(s.execute_recv_packet(&recv(3, 0)), Err(IbcError::PacketAlreadyProcessed));
    assert_eq!(s.receipts.len(), 1);
    // Another sequence on the same channel is still accepted.
    assert_eq!(s.execute_recv_packet(&recv(4, 0)), Ok(()));
}

#[test]
fn acknowledged_packet_takes_no_second_ack_or_timeout() {
    let mut s = open_chain();
    let key = PacketKey { channel_id: ChannelId { index: 0 }, sequence: 5 };
    assert_eq!(s.check_acknowledgement(&ack(5), true), Err(IbcError::PacketCommitmentNotFound));
    s.put_commitment(key);
    s.put_commitment(key);
    assert_eq!(s.commitments.len(), 1);
    assert_eq!(s.check_acknowledgement(&ack(5), false), Err(IbcError::ProofVerificationFailed));
    assert_eq!(s.execute_acknowledgement(&ack(5)), Ok(EscrowAction::Finalize));
    assert!(s.commitments.is_empty());
    assert_eq!(s.closed[0].outcome, PacketOutcome::Acknowledged);
    s.put_commitment(key);
    assert_eq!(s.check_acknowledgement(&ack(5), true), Err(IbcError::PacketAlreadyProcessed));
    assert_eq!(s.check_timeout(&timeout(5, 0), true), Err(IbcError::PacketAlreadyProcessed));
}

#[test]
fn timeout_closes_round_trip() {
    let mut s = open_chain();
    let key = PacketKey { channel_id: ChannelId { index: 0 }, sequence: 2 };
    s.put_commitment(key);
    let mut early = timeout(2, 0);
    early.packet.timeout_height_on_b = 11;
    assert_eq!(s.check_timeout(&early, true), Err(IbcError::TimeoutNotReached));
    let mut unknown_height = timeout(2, 0);
    unknown_height.proof_height = 9;
    assert_eq!(s.check_timeout(&unknown_height, true), Err(IbcError::ClientStateNotFound));
    let mut by_time = timeout(2, 0);
    by_time.packet.timeout_height_on_b = 0;
    by_time.packet.timeout_timestamp_on_b = 1_000;
    assert_eq!(s.check_timeout(&by_time, true), Ok(()));
    assert_eq!(s.execute_timeout(&timeout(2, 0)), Ok(EscrowAction::Refund));
    assert!(s.commitments.is_empty());
    assert_eq!(s.closed[0].outcome, PacketOutcome::TimedOut);
    assert_eq!(s.channels[0].state, ChannelState::Open);
    assert_eq!(s.check_timeout(&timeout(2, 0), true), Err(IbcError::PacketAlreadyProcessed));
    // The inbound packet 2 of the same channel is another packet.
    assert_eq!(s.check_recv_packet(&recv(2, 0), true), Ok(()));
}

#[test]
fn ordered_timeout_closes_channel() {
    let mut s = open_chain();
    s.put_commitment(PacketKey { channel_id: ChannelId { index: 1 }, sequence: 4 });
    let mut passed = timeout(4, 1);
    passed.next_sequence_recv_on_b = 5;
    assert_eq!(s.check_timeout(&passed, true), Err(IbcError::InvalidSequence));
    let msg = timeout(4, 1);
    assert_eq!(s.execute_timeout(&msg), Ok(EscrowAction::Refund));
    assert_eq!(s.channels[1].state, ChannelState::Closed);
}

#[test]
fn ordered_channel_takes_next_sequence_only() {
    let mut s = open_chain();
    assert_eq!(s.check_recv_packet(&recv(2, 1), true), Err(IbcError::InvalidSequence));
    assert_eq!(s.execute_recv_packet(&recv(1, 1)), Ok(()));
    assert_eq!(s.channels[1].next_sequence_recv, 2);
    assert_eq!(s.check_recv_packet(&recv(1, 1), true), Err(IbcError::PacketAlreadyProcessed));
    assert_eq!(s.execute_recv_packet(&recv(2, 1)), Ok(()));
    assert_eq!(s.channels[1].next_sequence_recv, 3);
}

#[test]
fn receive_checks_report_each_error() {
    let mut s = open_chain();
    let mut late = recv(1, 0);
    late.packet.timeout_height_on_b = 100;
    assert_eq!(s.check_recv_packet(&late, true), Err(IbcError::PacketTimedOut));
    late.packet.timeout_height_on_b = 0;
    late.packet.timeout_timestamp_on_b = 4_000;
    assert_eq!(s.check_recv_packet(&late, true), Err(IbcError::PacketTimedOut));

    let mut bad_port = recv(1, 0);
    bad_port.packet.port_on_b = PortId::new("oracle".to_string());
    assert_eq!(s.check_recv_packet(&bad_port, true), Err(IbcError::InvalidPort));

    assert_eq!(s.check_recv_packet(&recv(1, 9), true), Err(IbcError::ChannelNotFound));

    let mut wrong_source = recv(1, 0);
    wrong_source.packet.chan_on_a = ChannelId { index: 3 };
    assert_eq!(s.check_recv_packet(&wrong_source, true), Err(IbcError::CounterpartyMismatch));

    let mut unverified = recv(1, 0);
    unverified.proof_height = 10;
    assert_eq!(s.check_recv_packet(&unverified, false), Err(IbcError::ProofVerificationFailed));

    s.channels[0].state = ChannelState::Closed;
    assert_eq!(s.check_recv_packet(&recv(1, 0), true), Err(IbcError::InvalidChannelState));
    s.channels[0].state = ChannelState::Open;
    s.connections[0].state = ConnectionState::TryOpen;
    assert_eq!(s.check_recv_packet(&recv(1, 0), true), Err(IbcError::InvalidConnectionState));
}

#[test]
fn channel_handshake_opens_both_ends() {
    let mut a = open_chain();
    let mut b = open_chain();
    a.channels.clear();
    b.channels.clear();
    let init = MsgChannelOpenInit {
        port_id_on_a: PortId::transfer(),
        ordering: Order::Unordered,
        connection_hops_on_a: vec![ConnectionId { index: 0 }],
        port_id_on_b: PortId::transfer(),
    };
    let ca = a.execute_channel_open_init(&init).unwrap();
    assert_eq!(a.channels[0].state, ChannelState::Init);

    let try_msg = MsgChannelOpenTry {
        port_id_on_b: PortId::transfer(),
        ordering: Order::Unordered,
        connection_hops_on_b: vec![ConnectionId { index: 0 }],
        port_id_on_a: PortId::transfer(),
        chan_id_on_a: ca,
        proof_height: 10,
    };
    let claim = b.channel_open_try_claim(&try_msg).unwrap();
    assert_eq!(claim.state, a.channels[0].state);
    assert_eq!(claim.counterparty_channel_id, a.channels[0].counterparty.channel_id);
    let cb = b.execute_channel_open_try(&try_msg).unwrap();
    assert_eq!(b.channels[0].state, ChannelState::TryOpen);
    assert_eq!(b.channels[0].counterparty.channel_id, Some(ca));

    let ack = MsgChannelOpenAck { port_id_on_a: PortId::transfer(), chan_id_on_a: ca, chan_id_on_b: cb, proof_height: 10 };
    let claim = a.channel_step_claim(ca, ChannelState::TryOpen).unwrap();
    assert_eq!(claim.counterparty_channel_id, b.channels[0].counterparty.channel_id);
    assert_eq!(a.execute_channel_open_ack(&ack), Ok(()));
    assert_eq!(a.channels[0].state, ChannelState::Open);
    assert_eq!(a.channels[0].counterparty.channel_id, Some(cb));

    let confirm = MsgChannelOpenConfirm { port_id_on_b: PortId::transfer(), chan_id_on_b: cb, proof_height: 10 };
    assert_eq!(b.check_channel_open_confirm(&confirm, false), Err(IbcError::ProofVerificationFailed));
    assert_eq!(b.execute_channel_open_confirm(&confirm), Ok(()));
    assert_eq!(b.channels[0].state, ChannelState::Open);
    assert_eq!(a.execute_channel_open_ack(&ack), Err(IbcError::InvalidChannelState));
}

#[test]
fn channel_checks_report_each_error() {
    let s = open_chain();
    let mut init = MsgChannelOpenInit {
        port_id_on_a: PortId::new("oracle".to_string()),
        ordering: Order::Unordered,
        connection_hops_on_a: vec![ConnectionId { index: 0 }],
        port_id_on_b: PortId::transfer(),
    };
    assert_eq!(s.check_channel_open_init(&init), Err(IbcError::InvalidPort));
    init.port_id_on_a = PortId::transfer();
    init.ordering = Order::Ordered;
    assert_eq!(s.check_channel_open_init(&init), Err(IbcError::ApplicationRejected));
    init.connection_hops_on_a = vec![ConnectionId { index: 2 }];
    assert_eq!(s.check_channel_open_init(&init), Err(IbcError::ConnectionNotFound));

    let ack = MsgChannelOpenAck {
        port_id_on_a: PortId::transfer(),
        chan_id_on_a: ChannelId { index: 5 },
        chan_id_on_b: ChannelId { index: 0 },
        proof_height: 10,
    };
    assert_eq!(s.check_channel_open_ack(&ack, true), Err(IbcError::ChannelNotFound));
}

#[test]
fn packet_event_carries_hex_data() {
    let s = open_chain();
    let p = packet(7, 0, 0);
    let e = event::receive_packet(&p, &s.channels[0]);
    match e {
        IbcEvent::Packet(pe) => {
            assert_eq!(pe.kind, EventKind::RecvPacket);
            assert_eq!(pe.data_hex, "0aff");
            assert_eq!(pe.sequence, 7);
            assert_eq!(pe.timeout_height, 50);
            assert_eq!(pe.ordering, Order::Unordered);
            assert_eq!(pe.connection_id, ConnectionId { index: 0 });
        },
        _ => panic!("not a packet event"),
    }
    let e = event::channel_open_init(&PortId::transfer(), &ChannelId { index: 1 }, &s.channels[1]);
    match e {
        IbcEvent::Channel(ce) => {
            assert_eq!(ce.kind, EventKind::ChannelOpenInit);
            assert_eq!(ce.channel_id, ChannelId { index: 1 });
            assert_eq!(ce.counterparty_channel_id, Some(ChannelId { index: 0 }));
        },
        _ => panic!("not a channel event"),
    }
}

#[test]
fn channel_close_is_terminal() {
    let mut s = open_chain();
    let init = MsgChannelCloseInit { port_id_on_a: PortId::transfer(), chan_id_on_a: ChannelId { index: 0 } };
    assert_eq!(s.check_channel_close_init(&init), Err(IbcError::ApplicationRejected));
    assert_eq!(s.execute_channel_close_init(&init), Err(IbcError::ApplicationRejected));
    assert_eq!(s.channels[0].state, ChannelState::Open);

    let confirm = MsgChannelCloseConfirm { port_id_on_b: PortId::transfer(), chan_id_on_b: ChannelId { index: 0 }, proof_height: 10 };
    let claim = s.channel_step_claim(ChannelId { index: 0 }, ChannelState::Closed).unwrap();
    assert_eq!(claim.state, ChannelState::Closed);
    assert_eq!(s.check_channel_close_confirm(&confirm, false), Err(IbcError::ProofVerificationFailed));
    assert_eq!(s.execute_channel_close_confirm(&confirm), Ok(()));
    assert_eq!(s.channels[0].state, ChannelState::Closed);
    assert_eq!(s.check_channel_close_confirm(&confirm, true), Err(IbcError::InvalidChannelState));
    assert_eq!(s.check_channel_close_init(&init), Err(IbcError::InvalidChannelState));
    assert_eq!(s.check_recv_packet(&recv(1, 0), true), Err(IbcError::InvalidChannelState));
    let e = penumbra_ibc_core::event::channel_close_confirm(&PortId::transfer(), &ChannelId { index: 0 }, &s.channels[0]);
    assert!(matches!(e, IbcEvent::Channel(ref c) if c.kind == EventKind::ChannelCloseConfirm));
}

#[test]
fn failed_acknowledgement_refunds() {
    let mut s = open_chain();
    s.put_commitment(PacketKey { channel_id: ChannelId { index: 0 }, sequence: 6 });
    let mut msg = ack(6);
    msg.acknowledgement = b"{\"error\":\"denied\"}".to_vec();
    assert_eq!(s.execute_acknowledgement(&msg), Ok(EscrowAction::Refund));
    assert!(s.commitments.is_empty());
}

#[test]
fn pipeline_execute_reports_escrow() {
    let mut s = open_chain();
    s.put_commitment(PacketKey { channel_id: ChannelId { index: 0 }, sequence: 8 });
    s.put_commitment(PacketKey { channel_id: ChannelId { index: 0 }, sequence: 9 });
    let acked = penumbra_ibc_core::action::Action::Acknowledgement(ack(8));
    assert_eq!(penumbra_ibc_core::action::execute(&mut s, &acked), Ok(Some(EscrowAction::Finalize)));
    let timed_out = penumbra_ibc_core::action::Action::Timeout(timeout(9, 0));
    assert_eq!(penumbra_ibc_core::action::execute(&mut s, &timed_out), Ok(Some(EscrowAction::Refund)));
    assert!(s.commitments.is_empty());
    let received = penumbra_ibc_core::action::Action::RecvPacket(recv(8, 0));
    assert_eq!(penumbra_ibc_core::action::execute(&mut s, &received), Ok(None));
    assert_eq!(s.receipts.len(), 1);
}
