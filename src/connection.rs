use vstd::prelude::*;
use crate::error::IbcError;
use crate::ident::{ClientId, ConnectionId};
use crate::state::{
    only_connections_differ, proof_outcome, ConnectionCounterparty, ConnectionEnd, ConnectionState,
    IbcState,
};

verus! {

/// Chain A opens a connection from its client `client_id` towards the
/// counterparty's client `counterparty_client_id`.
#[derive(Clone, Copy, Debug)]
pub struct MsgConnectionOpenInit {
    pub client_id: ClientId,
    pub counterparty_client_id: ClientId,
}

/// Chain B answers an opened connection, with a proof taken on chain A at
/// `proof_height` that A's connection `counterparty.connection_id` is in
/// `Init`.
#[derive(Clone, Copy, Debug)]
pub struct MsgConnectionOpenTry {
    pub client_id: ClientId,
    pub counterparty: ConnectionCounterparty,
    pub proof_height: u64,
}

/// Chain A completes its side, with a proof that B's connection
/// `counterparty_connection_id` is in `TryOpen`.
#[derive(Clone, Copy, Debug)]
pub struct MsgConnectionOpenAck {
    pub connection_id: ConnectionId,
    pub counterparty_connection_id: ConnectionId,
    pub proof_height: u64,
}

/// Chain B completes its side, with a proof that A's connection is `Open`.
#[derive(Clone, Copy, Debug)]
pub struct MsgConnectionOpenConfirm {
    pub connection_id: ConnectionId,
    pub proof_height: u64,
}

/// A connection's progress through the handshake.
pub open spec fn connection_rank(st: ConnectionState) -> int {
    match st {
        ConnectionState::Init => 0,
        ConnectionState::TryOpen => 1,
        ConnectionState::Open => 2,
    }
}

pub open spec fn open_init_outcome(s: IbcState, msg: MsgConnectionOpenInit) -> Result<(), IbcError> {
    if !s.has_client(msg.client_id) {
        Err(IbcError::ClientNotFound)
    } else {
        Ok(())
    }
}

pub open spec fn open_try_outcome(s: IbcState, msg: MsgConnectionOpenTry, verified: bool) -> Result<(), IbcError> {
    if !s.has_client(msg.client_id) {
        Err(IbcError::ClientNotFound)
    } else if msg.counterparty.connection_id is None {
        Err(IbcError::MissingCounterpartyConnection)
    } else {
        proof_outcome(s, msg.client_id, msg.proof_height, verified)
    }
}

pub open spec fn open_ack_outcome(s: IbcState, msg: MsgConnectionOpenAck, verified: bool) -> Result<(), IbcError> {
    if !s.has_connection(msg.connection_id) {
        Err(IbcError::ConnectionNotFound)
    } else if s.connection(msg.connection_id).state != ConnectionState::Init {
        Err(IbcError::InvalidConnectionState)
    } else {
        proof_outcome(s, s.connection(msg.connection_id).client_id, msg.proof_height, verified)
    }
}

pub open spec fn open_confirm_outcome(s: IbcState, msg: MsgConnectionOpenConfirm, verified: bool) -> Result<(), IbcError> {
    if !s.has_connection(msg.connection_id) {
        Err(IbcError::ConnectionNotFound)
    } else if s.connection(msg.connection_id).state != ConnectionState::TryOpen {
        Err(IbcError::InvalidConnectionState)
    } else if s.connection(msg.connection_id).counterparty.connection_id is None {
        Err(IbcError::MissingCounterpartyConnection)
    } else {
        proof_outcome(s, s.connection(msg.connection_id).client_id, msg.proof_height, verified)
    }
}

/// The record that chain A must hold for `OpenTry` to be accepted on B.
pub open spec fn spec_open_try_claim(msg: MsgConnectionOpenTry) -> ConnectionEnd {
    ConnectionEnd {
        state: ConnectionState::Init,
        client_id: msg.counterparty.client_id,
        counterparty: ConnectionCounterparty { client_id: msg.client_id, connection_id: None },
    }
}

/// The record that the counterparty must hold for a connection `id`, with
/// end `end`, to pass from `end.state` on: `TryOpen` for an
/// acknowledgement, `Open` for a confirmation.
pub open spec fn spec_counterparty_claim(id: ConnectionId, end: ConnectionEnd, state: ConnectionState) -> ConnectionEnd {
    ConnectionEnd {
        state,
        client_id: end.counterparty.client_id,
        counterparty: ConnectionCounterparty { client_id: end.client_id, connection_id: Some(id) },
    }
}

/// The connection record on chain A whose existence a proof handed to
/// `OpenTry` must show.
pub fn open_try_claim(msg: &MsgConnectionOpenTry) -> (r: ConnectionEnd)
    ensures
        r == spec_open_try_claim(*msg),
{
    ConnectionEnd {
        state: ConnectionState::Init,
        client_id: msg.counterparty.client_id,
        counterparty: ConnectionCounterparty { client_id: msg.client_id, connection_id: None },
    }
}

/// `b` is `a` with a new connection in `Init` towards the counterparty
/// client of `msg`.
pub open spec fn open_init_effect(a: IbcState, b: IbcState, msg: MsgConnectionOpenInit) -> bool {
    &&& b.connections@ == a.connections@.push(ConnectionEnd {
        state: ConnectionState::Init,
        client_id: msg.client_id,
        counterparty: ConnectionCounterparty { client_id: msg.counterparty_client_id, connection_id: None },
    })
    &&& only_connections_differ(a, b)
}

/// `b` is `a` with a new connection in `TryOpen` that names its
/// counterparty.
pub open spec fn open_try_effect(a: IbcState, b: IbcState, msg: MsgConnectionOpenTry) -> bool {
    &&& b.connections@ == a.connections@.push(ConnectionEnd {
        state: ConnectionState::TryOpen,
        client_id: msg.client_id,
        counterparty: msg.counterparty,
    })
    &&& only_connections_differ(a, b)
}

/// `b` is `a` with the connection of `msg` open and naming the
/// counterparty's connection id.
pub open spec fn open_ack_effect(a: IbcState, b: IbcState, msg: MsgConnectionOpenAck) -> bool {
    &&& b.connections@ == a.connections@.update(
        msg.connection_id.index as int,
        ConnectionEnd {
            state: ConnectionState::Open,
            client_id: a.connection(msg.connection_id).client_id,
            counterparty: ConnectionCounterparty {
                client_id: a.connection(msg.connection_id).counterparty.client_id,
                connection_id: Some(msg.counterparty_connection_id),
            },
        })
    &&& only_connections_differ(a, b)
}

/// `b` is `a` with the connection of `msg` open, its other fields kept.
pub open spec fn open_confirm_effect(a: IbcState, b: IbcState, msg: MsgConnectionOpenConfirm) -> bool {
    &&& b.connections@ == a.connections@.update(
        msg.connection_id.index as int,
        ConnectionEnd { state: ConnectionState::Open, ..a.connection(msg.connection_id) })
    &&& only_connections_differ(a, b)
}

impl IbcState {
    pub fn check_connection_open_init(&self, msg: &MsgConnectionOpenInit) -> (r: Result<(), IbcError>)
        ensures
            r == open_init_outcome(*self, *msg),
    {
        if msg.client_id.index >= self.clients.len() as u64 {
            return Err(IbcError::ClientNotFound);
        }
        Ok(())
    }

    /// Creates a connection in `Init` with no counterparty connection yet.
    pub fn execute_connection_open_init(&mut self, msg: &MsgConnectionOpenInit) -> (r: Result<ConnectionId, IbcError>)
        requires
            old(self).connections@.len() < u64::MAX,
        ensures
            old(self).wf() ==> final(self).wf(),
            open_init_outcome(*old(self), *msg) is Err ==> r == Err::<ConnectionId, IbcError>(IbcError::ClientNotFound)
                && *final(self) == *old(self),
            open_init_outcome(*old(self), *msg) is Ok ==> r == Ok::<ConnectionId, IbcError>(
                ConnectionId { index: old(self).connections@.len() as u64 }),
            r is Ok ==> open_init_effect(*old(self), *final(self), *msg),
    {
        let c = self.check_connection_open_init(msg);
        if c.is_err() {
            return Err(IbcError::ClientNotFound);
        }
        let id = ConnectionId { index: self.connections.len() as u64 };
        self.connections.push(ConnectionEnd {
            state: ConnectionState::Init,
            client_id: msg.client_id,
            counterparty: ConnectionCounterparty {
                client_id: msg.counterparty_client_id,
                connection_id: None,
            },
        });
        Ok(id)
    }

    /// Checks `OpenTry` against a read-only view of the state. `verified`
    /// is the verdict of the proof that chain A holds `open_try_claim(msg)`
    /// as its connection `msg.counterparty.connection_id`.
    pub fn check_connection_open_try(&self, msg: &MsgConnectionOpenTry, verified: bool) -> (r: Result<(), IbcError>)
        ensures
            r == open_try_outcome(*self, *msg, verified),
    {
        if msg.client_id.index >= self.clients.len() as u64 {
            return Err(IbcError::ClientNotFound);
        }
        if msg.counterparty.connection_id.is_none() {
            return Err(IbcError::MissingCounterpartyConnection);
        }
        self.check_proof(msg.client_id, msg.proof_height, verified)
    }

    /// Creates a connection in `TryOpen` that names its counterparty.
    pub fn execute_connection_open_try(&mut self, msg: &MsgConnectionOpenTry) -> (r: Result<ConnectionId, IbcError>)
        requires
            old(self).connections@.len() < u64::MAX,
        ensures
            old(self).wf() ==> final(self).wf(),
            r is Ok <==> open_try_outcome(*old(self), *msg, true) is Ok,
            r matches Err(e) ==> open_try_outcome(*old(self), *msg, true) == Err::<(), IbcError>(e)
                && *final(self) == *old(self),
            r is Ok ==> r == Ok::<ConnectionId, IbcError>(ConnectionId { index: old(self).connections@.len() as u64 })
                && open_try_effect(*old(self), *final(self), *msg),
    {
        match self.check_connection_open_try(msg, true) {
            Err(e) => return Err(e),
            Ok(()) => {},
        }
        let id = ConnectionId { index: self.connections.len() as u64 };
        self.connections.push(ConnectionEnd {
            state: ConnectionState::TryOpen,
            client_id: msg.client_id,
            counterparty: msg.counterparty,
        });
        Ok(id)
    }

    /// The connection record on chain B whose existence a proof handed to
    /// `OpenAck` must show, where the connection exists.
    pub fn open_ack_claim(&self, msg: &MsgConnectionOpenAck) -> (r: Option<ConnectionEnd>)
        ensures
            r == (if self.has_connection(msg.connection_id) {
                Some(spec_counterparty_claim(msg.connection_id, self.connection(msg.connection_id), ConnectionState::TryOpen))
            } else {
                None
            }),
    {
        if msg.connection_id.index >= self.connections.len() as u64 {
            return None;
        }
        let end = self.connections[msg.connection_id.index as usize];
        Some(ConnectionEnd {
            state: ConnectionState::TryOpen,
            client_id: end.counterparty.client_id,
            counterparty: ConnectionCounterparty {
                client_id: end.client_id,
                connection_id: Some(msg.connection_id),
            },
        })
    }

    /// Checks `OpenAck`. `verified` is the verdict of the proof that chain B
    /// holds `open_ack_claim(msg)` as its connection
    /// `msg.counterparty_connection_id`.
    pub fn check_connection_open_ack(&self, msg: &MsgConnectionOpenAck, verified: bool) -> (r: Result<(), IbcError>)
        ensures
            r == open_ack_outcome(*self, *msg, verified),
    {
        if msg.connection_id.index >= self.connections.len() as u64 {
            return Err(IbcError::ConnectionNotFound);
        }
        let end = self.connections[msg.connection_id.index as usize];
        if end.state != ConnectionState::Init {
            return Err(IbcError::InvalidConnectionState);
        }
        self.check_proof(end.client_id, msg.proof_height, verified)
    }

    /// Opens the connection and records the counterparty's connection id.
    pub fn execute_connection_open_ack(&mut self, msg: &MsgConnectionOpenAck) -> (r: Result<(), IbcError>)
        ensures
            old(self).wf() ==> final(self).wf(),
            r == open_ack_outcome(*old(self), *msg, true),
            r is Err ==> *final(self) == *old(self),
            r is Ok ==> open_ack_effect(*old(self), *final(self), *msg),
    {
        let c = self.check_connection_open_ack(msg, true);
        if c.is_err() {
            return c;
        }
        let i = msg.connection_id.index as usize;
        let end = self.connections[i];
        self.connections.set(i, ConnectionEnd {
            state: ConnectionState::Open,
            client_id: end.client_id,
            counterparty: ConnectionCounterparty {
                client_id: end.counterparty.client_id,
                connection_id: Some(msg.counterparty_connection_id),
            },
        });
        Ok(())
    }

    /// The connection record on chain A whose existence a proof handed to
    /// `OpenConfirm` must show, where the connection exists.
    pub fn open_confirm_claim(&self, msg: &MsgConnectionOpenConfirm) -> (r: Option<ConnectionEnd>)
        ensures
            r == (if self.has_connection(msg.connection_id) {
                Some(spec_counterparty_claim(msg.connection_id, self.connection(msg.connection_id), ConnectionState::Open))
            } else {
                None
            }),
    {
        if msg.connection_id.index >= self.connections.len() as u64 {
            return None;
        }
        let end = self.connections[msg.connection_id.index as usize];
        Some(ConnectionEnd {
            state: ConnectionState::Open,
            client_id: end.counterparty.client_id,
            counterparty: ConnectionCounterparty {
                client_id: end.client_id,
                connection_id: Some(msg.connection_id),
            },
        })
    }

    /// Checks `OpenConfirm`. `verified` is the verdict of the proof that
    /// chain A holds `open_confirm_claim(msg)` as its connection named by
    /// this connection's counterparty.
    pub fn check_connection_open_confirm(&self, msg: &MsgConnectionOpenConfirm, verified: bool) -> (r: Result<(), IbcError>)
        ensures
            r == open_confirm_outcome(*self, *msg, verified),
    {
        if msg.connection_id.index >= self.connections.len() as u64 {
            return Err(IbcError::ConnectionNotFound);
        }
        let end = self.connections[msg.connection_id.index as usize];
        if end.state != ConnectionState::TryOpen {
            return Err(IbcError::InvalidConnectionState);
        }
        if end.counterparty.connection_id.is_none() {
            return Err(IbcError::MissingCounterpartyConnection);
        }
        self.check_proof(end.client_id, msg.proof_height, verified)
    }

    /// Opens the connection.
    pub fn execute_connection_open_confirm(&mut self, msg: &MsgConnectionOpenConfirm) -> (r: Result<(), IbcError>)
        ensures
            old(self).wf() ==> final(self).wf(),
            r == open_confirm_outcome(*old(self), *msg, true),
            r is Err ==> *final(self) == *old(self),
            r is Ok ==> open_confirm_effect(*old(self), *final(self), *msg),
    {
        let c = self.check_connection_open_confirm(msg, true);
        if c.is_err() {
            return c;
        }
        let i = msg.connection_id.index as usize;
        let end = self.connections[i];
        self.connections.set(i, ConnectionEnd { state: ConnectionState::Open, ..end });
        Ok(())
    }
}

/// The handshake only moves forward: an acknowledgement is accepted only on
/// a connection in `Init` and a confirmation only on one in `TryOpen`, so
/// each accepted step raises the connection's rank to that of `Open` (where
/// their executions leave it), and an `Open` connection takes neither.
pub proof fn lemma_connection_handshake_forward(
    s: IbcState,
    ack: MsgConnectionOpenAck,
    confirm: MsgConnectionOpenConfirm,
    verified: bool,
)
    ensures
        open_ack_outcome(s, ack, verified) is Ok ==> s.connection(ack.connection_id).state == ConnectionState::Init,
        open_confirm_outcome(s, confirm, verified) is Ok ==> s.connection(confirm.connection_id).state
            == ConnectionState::TryOpen,
        s.has_connection(ack.connection_id) && s.connection(ack.connection_id).state != ConnectionState::Init
            ==> open_ack_outcome(s, ack, verified) == Err::<(), IbcError>(IbcError::InvalidConnectionState),
        s.has_connection(confirm.connection_id) && s.connection(confirm.connection_id).state
            != ConnectionState::TryOpen ==> open_confirm_outcome(s, confirm, verified) == Err::<(), IbcError>(
            IbcError::InvalidConnectionState),
        open_ack_outcome(s, ack, verified) is Ok ==> connection_rank(s.connection(ack.connection_id).state)
            < connection_rank(ConnectionState::Open),
        open_confirm_outcome(s, confirm, verified) is Ok ==> connection_rank(
            s.connection(confirm.connection_id).state,
        ) < connection_rank(ConnectionState::Open),
{
}

} // verus!
