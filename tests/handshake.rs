use penumbra_ibc_core::channel::{MsgChannelOpenInit, MsgChannelOpenTry};
use penumbra_ibc_core::client::{
    check_create_client, AnyClientState, AnyConsensusState, Header, MsgCreateClient, MsgUpdateClient,
    TmClientState,
};
use penumbra_ibc_core::connection::{
    open_try_claim, MsgConnectionOpenAck, MsgConnectionOpenConfirm, MsgConnectionOpenInit,
    MsgConnectionOpenTry,
};
use penumbra_ibc_core::error::IbcError;
use penumbra_ibc_core::ident::{ClientId, ConnectionId, PortId};
use penumbra_ibc_core::state::{
    ConnectionCounterparty, ConnectionEnd, ConnectionState, ConsensusState, IbcState, Order,
};
use penumbra_ibc_core::stateless::{channel_open_init, channel_open_try};

fn tm_client(height: u64, root: u8) -> MsgCreateClient {
    MsgCreateClient {
        client_state: AnyClientState::Tendermint(TmClientState { latest_height: height }),
        consensus_state: AnyConsensusState::Tendermint(ConsensusState { root: [root; 32], timestamp: 1_000 }),
    }
}

/// A chain with `n` Tendermint clients, each trusting height 10.
fn chain_with_clients(n: u64) -> IbcState {
    let mut s = IbcState::new(100, 5_000);
    for i in 0..n {
        let id = s.execute_create_client(&tm_client(10, i as u8)).unwrap();
        assert_eq!(id, ClientId { index: i });
    }
    s
}

fn holds(chain: &IbcState, id: ConnectionId, claim: &ConnectionEnd) -> bool {
    chain.connections.get(id.index as usize) == Some(claim)
}

#[test]
fn connection_handshake_opens_both_ends() {
    let mut a = chain_with_clients(1);
    let mut b = chain_with_clients(6);

    let init = MsgConnectionOpenInit {
        client_id: ClientId { index: 0 },
        counterparty_client_id: ClientId { index: 5 },
    };
    assert_eq!(a.check_connection_open_init(&init), Ok(()));
    let conn_a = a.execute_connection_open_init(&init).unwrap();
    assert_eq!(conn_a, ConnectionId { index: 0 });
    assert_eq!(a.connections[0].state, ConnectionState::Init);

    let try_msg = MsgConnectionOpenTry {
        client_id: ClientId { index: 5 },
        counterparty: ConnectionCounterparty { client_id: ClientId { index: 0 }, connection_id: Some(conn_a) },
        proof_height: 10,
    };
    let verified = holds(&a, conn_a, &open_try_claim(&try_msg));
    assert!(verified);
    assert_eq!(b.check_connection_open_try(&try_msg, verified), Ok(()));
    let conn_b = b.execute_connection_open_try(&try_msg).unwrap();
    assert_eq!(conn_b, ConnectionId { index: 0 });
    assert_eq!(b.connections[0].state, ConnectionState::TryOpen);

    let ack = MsgConnectionOpenAck { connection_id: conn_a, counterparty_connection_id: conn_b, proof_height: 10 };
    let verified = holds(&b, conn_b, &a.open_ack_claim(&ack).unwrap());
    assert!(verified);
    assert_eq!(a.check_connection_open_ack(&ack, verified), Ok(()));
    assert_eq!(a.execute_connection_open_ack(&ack), Ok(()));
    assert_eq!(a.connections[0].state, ConnectionState::Open);

    let confirm = MsgConnectionOpenConfirm { connection_id: conn_b, proof_height: 10 };
    let verified = holds(&a, conn_a, &b.open_confirm_claim(&confirm).unwrap());
    assert!(verified);
    assert_eq!(b.check_connection_open_confirm(&confirm, verified), Ok(()));
    assert_eq!(b.execute_connection_open_confirm(&confirm), Ok(()));

    assert_eq!(a.connections[0].state, ConnectionState::Open);
    assert_eq!(b.connections[0].state, ConnectionState::Open);
    assert_eq!(a.connections[0].counterparty.connection_id, Some(conn_b));
    assert_eq!(b.connections[0].counterparty.connection_id, Some(conn_a));
    assert_eq!(a.connections[0].counterparty.client_id, ClientId { index: 5 });
    assert_eq!(b.connections[0].counterparty.client_id, ClientId { index: 0 });
}

#[test]
fn connection_open_ack_requires_init() {
    let mut s = chain_with_clients(1);
    let try_msg = MsgConnectionOpenTry {
        client_id: ClientId { index: 0 },
        counterparty: ConnectionCounterparty { client_id: ClientId { index: 3 }, connection_id: Some(ConnectionId { index: 2 }) },
        proof_height: 10,
    };
    let id = s.execute_connection_open_try(&try_msg).unwrap();
    let ack = MsgConnectionOpenAck { connection_id: id, counterparty_connection_id: ConnectionId { index: 2 }, proof_height: 10 };
    assert_eq!(s.check_connection_open_ack(&ack, true), Err(IbcError::InvalidConnectionState));
    assert_eq!(s.execute_connection_open_ack(&ack), Err(IbcError::InvalidConnectionState));
    assert_eq!(s.connections[0].state, ConnectionState::TryOpen);

    let confirm = MsgConnectionOpenConfirm { connection_id: id, proof_height: 10 };
    assert_eq!(s.execute_connection_open_confirm(&confirm), Ok(()));
    // An open connection takes no further handshake message.
    assert_eq!(s.check_connection_open_confirm(&confirm, true), Err(IbcError::InvalidConnectionState));
    assert_eq!(s.check_connection_open_ack(&ack, true), Err(IbcError::InvalidConnectionState));
}

#[test]
fn connection_checks_report_each_error() {
    let mut s = chain_with_clients(1);
    let init = MsgConnectionOpenInit { client_id: ClientId { index: 1 }, counterparty_client_id: ClientId { index: 0 } };
    assert_eq!(s.check_connection_open_init(&init), Err(IbcError::ClientNotFound));
    assert_eq!(s.execute_connection_open_init(&init), Err(IbcError::ClientNotFound));
    assert!(s.connections.is_empty());

    let mut try_msg = MsgConnectionOpenTry {
        client_id: ClientId { index: 0 },
        counterparty: ConnectionCounterparty { client_id: ClientId { index: 0 }, connection_id: None },
        proof_height: 10,
    };
    assert_eq!(s.check_connection_open_try(&try_msg, true), Err(IbcError::MissingCounterpartyConnection));
    try_msg.counterparty.connection_id = Some(ConnectionId { index: 0 });
    try_msg.proof_height = 11;
    assert_eq!(s.check_connection_open_try(&try_msg, true), Err(IbcError::ClientStateNotFound));
    try_msg.proof_height = 10;
    assert_eq!(s.check_connection_open_try(&try_msg, false), Err(IbcError::ProofVerificationFailed));

    let ack = MsgConnectionOpenAck {
        connection_id: ConnectionId { index: 4 },
        counterparty_connection_id: ConnectionId { index: 0 },
        proof_height: 10,
    };
    assert_eq!(s.check_connection_open_ack(&ack, true), Err(IbcError::ConnectionNotFound));
}

#[test]
fn create_client_accepts_only_tendermint() {
    let mut s = IbcState::new(1, 1);
    let bad = MsgCreateClient {
        client_state: AnyClientState::Unsupported,
        consensus_state: AnyConsensusState::Tendermint(ConsensusState { root: [0; 32], timestamp: 0 }),
    };
    assert_eq!(check_create_client(&bad), Err(IbcError::InvalidClientType));
    assert_eq!(s.execute_create_client(&bad), Err(IbcError::InvalidClientType));
    let bad = MsgCreateClient {
        client_state: AnyClientState::Tendermint(TmClientState { latest_height: 3 }),
        consensus_state: AnyConsensusState::Unsupported,
    };
    assert_eq!(check_create_client(&bad), Err(IbcError::InvalidClientType));
    assert!(s.clients.is_empty());

    let id = s.execute_create_client(&tm_client(3, 9)).unwrap();
    assert_eq!(id, ClientId { index: 0 });
    assert_eq!(s.clients[0].latest_height, 3);
    assert_eq!(s.consensus_state(id, 3).unwrap().root, [9; 32]);
    assert!(s.consensus_state(id, 4).is_none());
}

#[test]
fn update_client_height_is_monotonic() {
    let mut s = chain_with_clients(1);
    let client_id = ClientId { index: 0 };
    let cs = ConsensusState { root: [7; 32], timestamp: 2_000 };
    let stale = MsgUpdateClient { client_id, header: Header { height: 10, consensus_state: cs } };
    assert_eq!(s.check_update_client(&stale, true), Err(IbcError::StaleHeader));
    assert_eq!(s.execute_update_client(&stale), Err(IbcError::StaleHeader));
    let older = MsgUpdateClient { client_id, header: Header { height: 4, consensus_state: cs } };
    assert_eq!(s.check_update_client(&older, true), Err(IbcError::StaleHeader));

    let fresh = MsgUpdateClient { client_id, header: Header { height: 15, consensus_state: cs } };
    assert_eq!(s.check_update_client(&fresh, false), Err(IbcError::HeaderVerificationFailed));
    assert_eq!(s.check_update_client(&fresh, true), Ok(()));
    assert_eq!(s.execute_update_client(&fresh), Ok(()));
    assert_eq!(s.clients[0].latest_height, 15);
    assert_eq!(s.consensus_state(client_id, 15).unwrap().root, [7; 32]);
    assert_eq!(s.proof_root(client_id, 15), Some([7; 32]));
    assert_eq!(s.proof_root(client_id, 10), Some([0; 32]));

    let unknown = MsgUpdateClient { client_id: ClientId { index: 9 }, header: Header { height: 99, consensus_state: cs } };
    assert_eq!(s.check_update_client(&unknown, true), Err(IbcError::ClientNotFound));
}

fn init_msg(hops: Vec<ConnectionId>) -> MsgChannelOpenInit {
    MsgChannelOpenInit {
        port_id_on_a: PortId::transfer(),
        ordering: Order::Unordered,
        connection_hops_on_a: hops,
        port_id_on_b: PortId::transfer(),
    }
}

fn try_msg(hops: Vec<ConnectionId>) -> MsgChannelOpenTry {
    MsgChannelOpenTry {
        port_id_on_b: PortId::transfer(),
        ordering: Order::Unordered,
        connection_hops_on_b: hops,
        port_id_on_a: PortId::transfer(),
        chan_id_on_a: penumbra_ibc_core::ident::ChannelId { index: 0 },
        proof_height: 10,
    }
}

#[test]
fn channel_needs_exactly_one_hop() {
    let s = chain_with_clients(1);
    let c0 = ConnectionId { index: 0 };
    for hops in [vec![], vec![c0, c0]] {
        let init = init_msg(hops.clone());
        assert_eq!(channel_open_init::connection_hops_eq_1(&init), Err(IbcError::InvalidConnectionHops));
        assert_eq!(s.check_channel_open_init(&init), Err(IbcError::InvalidConnectionHops));
        let t = try_msg(hops);
        assert_eq!(channel_open_try::connection_hops_eq_1(&t), Err(IbcError::InvalidConnectionHops));
        assert_eq!(s.check_channel_open_try(&t, true), Err(IbcError::InvalidConnectionHops));
    }
    assert_eq!(channel_open_init::connection_hops_eq_1(&init_msg(vec![c0])), Ok(()));
    assert_eq!(channel_open_try::connection_hops_eq_1(&try_msg(vec![c0])), Ok(()));
}
