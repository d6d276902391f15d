use vstd::prelude::*;
use crate::error::IbcError;
use crate::ident::{transfer_port, ChannelId, ConnectionId, PortId};
use crate::state::{
    only_channels_differ, proof_outcome, ChannelCounterparty, ChannelEnd, ChannelState,
    ConnectionState, IbcState, Order,
};
use crate::transfer::{
    accepts_close_init, accepts_ordering, chan_close_init_check, chan_open_check, route, AppModule,
};

verus! {

/// Chain A opens a channel on its port `port_id_on_a` towards the port
/// `port_id_on_b` of the counterparty.
#[derive(Debug)]
pub struct MsgChannelOpenInit {
    pub port_id_on_a: PortId,
    pub ordering: Order,
    pub connection_hops_on_a: Vec<ConnectionId>,
    pub port_id_on_b: PortId,
}

/// Chain B answers an opened channel, with a proof taken on chain A at
/// `proof_height` that A's channel `chan_id_on_a` is in `Init`.
#[derive(Debug)]
pub struct MsgChannelOpenTry {
    pub port_id_on_b: PortId,
    pub ordering: Order,
    pub connection_hops_on_b: Vec<ConnectionId>,
    pub port_id_on_a: PortId,
    pub chan_id_on_a: ChannelId,
    pub proof_height: u64,
}

/// Chain A completes its side, with a proof that B's channel `chan_id_on_b`
/// is in `TryOpen`.
#[derive(Debug)]
pub struct MsgChannelOpenAck {
    pub port_id_on_a: PortId,
    pub chan_id_on_a: ChannelId,
    pub chan_id_on_b: ChannelId,
    pub proof_height: u64,
}

/// Chain B completes its side, with a proof that A's channel is `Open`.
#[derive(Debug)]
pub struct MsgChannelOpenConfirm {
    pub port_id_on_b: PortId,
    pub chan_id_on_b: ChannelId,
    pub proof_height: u64,
}

/// Chain A closes its channel end.
#[derive(Debug)]
pub struct MsgChannelCloseInit {
    pub port_id_on_a: PortId,
    pub chan_id_on_a: ChannelId,
}

/// Chain B closes its channel end, with a proof that A's end is `Closed`.
#[derive(Debug)]
pub struct MsgChannelCloseConfirm {
    pub port_id_on_b: PortId,
    pub chan_id_on_b: ChannelId,
    pub proof_height: u64,
}

/// The channel record that a proof must show on the counterparty chain.
#[derive(Debug)]
pub struct ChannelClaim {
    pub state: ChannelState,
    pub ordering: Order,
    pub port_id: PortId,
    pub counterparty_port_id: PortId,
    pub counterparty_channel_id: Option<ChannelId>,
    pub connection_id: ConnectionId,
}

pub open spec fn is_claim(
    c: ChannelClaim,
    state: ChannelState,
    ordering: Order,
    port: Seq<char>,
    counterparty_port: Seq<char>,
    counterparty_channel: Option<ChannelId>,
    connection: ConnectionId,
) -> bool {
    &&& c.state == state
    &&& c.ordering == ordering
    &&& c.port_id.name@ == port
    &&& c.counterparty_port_id.name@ == counterparty_port
    &&& c.counterparty_channel_id == counterparty_channel
    &&& c.connection_id == connection
}

/// `ch` is a channel end in `state` with the given attributes.
pub open spec fn is_channel(
    ch: ChannelEnd,
    state: ChannelState,
    ordering: Order,
    port: Seq<char>,
    counterparty_port: Seq<char>,
    counterparty_channel: Option<ChannelId>,
    connection: ConnectionId,
) -> bool {
    &&& ch.state == state
    &&& ch.ordering == ordering
    &&& ch.port_id.name@ == port
    &&& ch.counterparty.port_id.name@ == counterparty_port
    &&& ch.counterparty.channel_id == counterparty_channel
    &&& ch.connection_id == connection
    &&& ch.next_sequence_recv == 1
}

pub open spec fn chan_open_init_outcome(s: IbcState, msg: MsgChannelOpenInit) -> Result<(), IbcError> {
    if msg.connection_hops_on_a@.len() != 1 {
        Err(IbcError::InvalidConnectionHops)
    } else if msg.port_id_on_a.name@ != transfer_port() {
        Err(IbcError::InvalidPort)
    } else if !s.has_connection(msg.connection_hops_on_a@[0]) {
        Err(IbcError::ConnectionNotFound)
    } else if !accepts_ordering(AppModule::Transfer, msg.ordering) {
        Err(IbcError::ApplicationRejected)
    } else {
        Ok(())
    }
}

pub open spec fn chan_open_try_outcome(s: IbcState, msg: MsgChannelOpenTry, verified: bool) -> Result<(), IbcError> {
    if msg.connection_hops_on_b@.len() != 1 {
        Err(IbcError::InvalidConnectionHops)
    } else if msg.port_id_on_b.name@ != transfer_port() {
        Err(IbcError::InvalidPort)
    } else if !s.has_connection(msg.connection_hops_on_b@[0]) {
        Err(IbcError::ConnectionNotFound)
    } else if s.connection(msg.connection_hops_on_b@[0]).state != ConnectionState::Open {
        Err(IbcError::InvalidConnectionState)
    } else if s.connection(msg.connection_hops_on_b@[0]).counterparty.connection_id is None {
        Err(IbcError::MissingCounterpartyConnection)
    } else if proof_outcome(s, s.connection(msg.connection_hops_on_b@[0]).client_id, msg.proof_height, verified) is Err {
        proof_outcome(s, s.connection(msg.connection_hops_on_b@[0]).client_id, msg.proof_height, verified)
    } else if !accepts_ordering(AppModule::Transfer, msg.ordering) {
        Err(IbcError::ApplicationRejected)
    } else {
        Ok(())
    }
}

/// What checking a step of an existing channel from state `from` yields,
/// up to and including the proof of the counterparty's record.
pub open spec fn channel_step_outcome(
    s: IbcState,
    port: PortId,
    id: ChannelId,
    from: ChannelState,
    proof_height: u64,
    verified: bool,
) -> Result<(), IbcError> {
    if port.name@ != transfer_port() {
        Err(IbcError::InvalidPort)
    } else if !s.has_channel(id) {
        Err(IbcError::ChannelNotFound)
    } else if s.channel(id).port_id.name@ != port.name@ {
        Err(IbcError::InvalidPort)
    } else if s.channel(id).state != from {
        Err(IbcError::InvalidChannelState)
    } else if !s.has_connection(s.channel(id).connection_id) {
        Err(IbcError::ConnectionNotFound)
    } else if s.connection(s.channel(id).connection_id).state != ConnectionState::Open {
        Err(IbcError::InvalidConnectionState)
    } else if s.connection(s.channel(id).connection_id).counterparty.connection_id is None {
        Err(IbcError::MissingCounterpartyConnection)
    } else {
        proof_outcome(s, s.connection(s.channel(id).connection_id).client_id, proof_height, verified)
    }
}

pub open spec fn chan_open_ack_outcome(s: IbcState, msg: MsgChannelOpenAck, verified: bool) -> Result<(), IbcError> {
    channel_step_outcome(s, msg.port_id_on_a, msg.chan_id_on_a, ChannelState::Init, msg.proof_height, verified)
}

pub open spec fn chan_open_confirm_outcome(s: IbcState, msg: MsgChannelOpenConfirm, verified: bool) -> Result<(), IbcError> {
    if channel_step_outcome(s, msg.port_id_on_b, msg.chan_id_on_b, ChannelState::TryOpen, msg.proof_height, verified) is Err {
        channel_step_outcome(s, msg.port_id_on_b, msg.chan_id_on_b, ChannelState::TryOpen, msg.proof_height, verified)
    } else if s.channel(msg.chan_id_on_b).counterparty.channel_id is None {
        Err(IbcError::MissingCounterpartyChannel)
    } else {
        Ok(())
    }
}

/// What checking the closing of channel `id` on `port` yields up to its
/// connection: the channel must exist on that port, not be closed yet, and
/// run over an open connection.
pub open spec fn channel_close_outcome(s: IbcState, port: PortId, id: ChannelId) -> Result<(), IbcError> {
    if port.name@ != transfer_port() {
        Err(IbcError::InvalidPort)
    } else if !s.has_channel(id) {
        Err(IbcError::ChannelNotFound)
    } else if s.channel(id).port_id.name@ != port.name@ {
        Err(IbcError::InvalidPort)
    } else if s.channel(id).state == ChannelState::Closed {
        Err(IbcError::InvalidChannelState)
    } else if !s.has_connection(s.channel(id).connection_id) {
        Err(IbcError::ConnectionNotFound)
    } else if s.connection(s.channel(id).connection_id).state != ConnectionState::Open {
        Err(IbcError::InvalidConnectionState)
    } else {
        Ok(())
    }
}

pub open spec fn chan_close_init_outcome(s: IbcState, msg: MsgChannelCloseInit) -> Result<(), IbcError> {
    if channel_close_outcome(s, msg.port_id_on_a, msg.chan_id_on_a) is Err {
        channel_close_outcome(s, msg.port_id_on_a, msg.chan_id_on_a)
    } else if !accepts_close_init(AppModule::Transfer) {
        Err(IbcError::ApplicationRejected)
    } else {
        Ok(())
    }
}

pub open spec fn chan_close_confirm_outcome(s: IbcState, msg: MsgChannelCloseConfirm, verified: bool) -> Result<(), IbcError> {
    let conn = s.connection(s.channel(msg.chan_id_on_b).connection_id);
    if channel_close_outcome(s, msg.port_id_on_b, msg.chan_id_on_b) is Err {
        channel_close_outcome(s, msg.port_id_on_b, msg.chan_id_on_b)
    } else if conn.counterparty.connection_id is None {
        Err(IbcError::MissingCounterpartyConnection)
    } else {
        proof_outcome(s, conn.client_id, msg.proof_height, verified)
    }
}

/// `b` is `a` with a new channel in `Init` over the message's hop.
pub open spec fn chan_open_init_effect(a: IbcState, b: IbcState, msg: MsgChannelOpenInit) -> bool {
    &&& b.channels@.len() == a.channels@.len() + 1
    &&& b.channels@.subrange(0, a.channels@.len() as int) == a.channels@
    &&& is_channel(b.channels@.last(), ChannelState::Init, msg.ordering, msg.port_id_on_a.name@,
        msg.port_id_on_b.name@, None, msg.connection_hops_on_a@[0])
    &&& only_channels_differ(a, b)
}

/// `b` is `a` with a new channel in `TryOpen` over the message's hop,
/// facing the counterparty's channel.
pub open spec fn chan_open_try_effect(a: IbcState, b: IbcState, msg: MsgChannelOpenTry) -> bool {
    &&& b.channels@.len() == a.channels@.len() + 1
    &&& b.channels@.subrange(0, a.channels@.len() as int) == a.channels@
    &&& is_channel(b.channels@.last(), ChannelState::TryOpen, msg.ordering, msg.port_id_on_b.name@,
        msg.port_id_on_a.name@, Some(msg.chan_id_on_a), msg.connection_hops_on_b@[0])
    &&& only_channels_differ(a, b)
}

/// The channels of `b` are those of `a` with channel `i` replaced by one
/// that differs from the old one only in its state and counterparty
/// channel.
pub open spec fn channel_advanced(a: IbcState, b: IbcState, i: int, state: ChannelState, cp: Option<ChannelId>) -> bool {
    &&& b.channels@.len() == a.channels@.len()
    &&& forall|j: int| 0 <= j < a.channels@.len() && j != i ==> b.channels@[j] == a.channels@[j]
    &&& b.channels@[i] == ChannelEnd {
        state,
        counterparty: ChannelCounterparty { channel_id: cp, ..a.channels@[i].counterparty },
        ..a.channels@[i]
    }
    &&& only_channels_differ(a, b)
}

impl IbcState {
    pub fn check_channel_open_init(&self, msg: &MsgChannelOpenInit) -> (r: Result<(), IbcError>)
        ensures
            r == chan_open_init_outcome(*self, *msg),
    {
        if msg.connection_hops_on_a.len() != 1 {
            return Err(IbcError::InvalidConnectionHops);
        }
        let module = match route(&msg.port_id_on_a) {
            Ok(m) => m,
            Err(e) => return Err(e),
        };
        if msg.connection_hops_on_a[0].index >= self.connections.len() as u64 {
            return Err(IbcError::ConnectionNotFound);
        }
        chan_open_check(module, msg.ordering)
    }

    /// Creates a channel in `Init` over the message's connection hop.
    pub fn execute_channel_open_init(&mut self, msg: &MsgChannelOpenInit) -> (r: Result<ChannelId, IbcError>)
        requires
            old(self).channels@.len() < u64::MAX,
        ensures
            old(self).wf() ==> final(self).wf(),
            r is Ok <==> chan_open_init_outcome(*old(self), *msg) is Ok,
            r matches Err(e) ==> chan_open_init_outcome(*old(self), *msg) == Err::<(), IbcError>(e)
                && *final(self) == *old(self),
            r is Ok ==> r == Ok::<ChannelId, IbcError>(ChannelId { index: old(self).channels@.len() as u64 })
                && chan_open_init_effect(*old(self), *final(self), *msg),
    {
        match self.check_channel_open_init(msg) {
            Err(e) => return Err(e),
            Ok(()) => {},
        }
        let id = ChannelId { index: self.channels.len() as u64 };
        self.channels.push(ChannelEnd {
            state: ChannelState::Init,
            ordering: msg.ordering,
            port_id: msg.port_id_on_a.copy(),
            counterparty: ChannelCounterparty { port_id: msg.port_id_on_b.copy(), channel_id: None },
            connection_id: msg.connection_hops_on_a[0],
            next_sequence_recv: 1,
        });
        assert(self.channels@.subrange(0, old(self).channels@.len() as int) =~= old(self).channels@);
        Ok(id)
    }

    /// The channel record on chain A whose existence a proof handed to
    /// `OpenTry` must show, where the message's connection hop is known.
    pub fn channel_open_try_claim(&self, msg: &MsgChannelOpenTry) -> (r: Option<ChannelClaim>)
        ensures
            r is Some <==> msg.connection_hops_on_b@.len() == 1 && self.has_connection(msg.connection_hops_on_b@[0])
                && self.connection(msg.connection_hops_on_b@[0]).counterparty.connection_id is Some,
            r matches Some(c) ==> is_claim(c, ChannelState::Init, msg.ordering, msg.port_id_on_a.name@,
                msg.port_id_on_b.name@, None,
                self.connection(msg.connection_hops_on_b@[0]).counterparty.connection_id->0),
    {
        if msg.connection_hops_on_b.len() != 1 {
            return None;
        }
        let hop = msg.connection_hops_on_b[0];
        if hop.index >= self.connections.len() as u64 {
            return None;
        }
        match self.connections[hop.index as usize].counterparty.connection_id {
            None => None,
            Some(remote) => Some(ChannelClaim {
                state: ChannelState::Init,
                ordering: msg.ordering,
                port_id: msg.port_id_on_a.copy(),
                counterparty_port_id: msg.port_id_on_b.copy(),
                counterparty_channel_id: None,
                connection_id: remote,
            }),
        }
    }

    /// Checks `OpenTry`. `verified` is the verdict of the proof that chain A
    /// holds `channel_open_try_claim(msg)` as its channel `chan_id_on_a`.
    pub fn check_channel_open_try(&self, msg: &MsgChannelOpenTry, verified: bool) -> (r: Result<(), IbcError>)
        ensures
            r == chan_open_try_outcome(*self, *msg, verified),
    {
        if msg.connection_hops_on_b.len() != 1 {
            return Err(IbcError::InvalidConnectionHops);
        }
        let module = match route(&msg.port_id_on_b) {
            Ok(m) => m,
            Err(e) => return Err(e),
        };
        let hop = msg.connection_hops_on_b[0];
        if hop.index >= self.connections.len() as u64 {
            return Err(IbcError::ConnectionNotFound);
        }
        let conn = self.connections[hop.index as usize];
        if conn.state != ConnectionState::Open {
            return Err(IbcError::InvalidConnectionState);
        }
        if conn.counterparty.connection_id.is_none() {
            return Err(IbcError::MissingCounterpartyConnection);
        }
        match self.check_proof(conn.client_id, msg.proof_height, verified) {
            Err(e) => return Err(e),
            Ok(()) => {},
        }
        chan_open_check(module, msg.ordering)
    }

    /// Creates a channel in `TryOpen` that names its counterparty channel.
    pub fn execute_channel_open_try(&mut self, msg: &MsgChannelOpenTry) -> (r: Result<ChannelId, IbcError>)
        requires
            old(self).channels@.len() < u64::MAX,
        ensures
            old(self).wf() ==> final(self).wf(),
            r is Ok <==> chan_open_try_outcome(*old(self), *msg, true) is Ok,
            r matches Err(e) ==> chan_open_try_outcome(*old(self), *msg, true) == Err::<(), IbcError>(e)
                && *final(self) == *old(self),
            r is Ok ==> r == Ok::<ChannelId, IbcError>(ChannelId { index: old(self).channels@.len() as u64 })
                && chan_open_try_effect(*old(self), *final(self), *msg),
    {
        match self.check_channel_open_try(msg, true) {
            Err(e) => return Err(e),
            Ok(()) => {},
        }
        let id = ChannelId { index: self.channels.len() as u64 };
        self.channels.push(ChannelEnd {
            state: ChannelState::TryOpen,
            ordering: msg.ordering,
            port_id: msg.port_id_on_b.copy(),
            counterparty: ChannelCounterparty {
                port_id: msg.port_id_on_a.copy(),
                channel_id: Some(msg.chan_id_on_a),
            },
            connection_id: msg.connection_hops_on_b[0],
            next_sequence_recv: 1,
        });
        assert(self.channels@.subrange(0, old(self).channels@.len() as int) =~= old(self).channels@);
        Ok(id)
    }

    /// Checks a step of channel `id` on `port` from state `from`, up to and
    /// including the proof of the counterparty's record.
    pub fn check_channel_step(
        &self,
        port: &PortId,
        id: ChannelId,
        from: ChannelState,
        proof_height: u64,
        verified: bool,
    ) -> (r: Result<(), IbcError>)
        ensures
            r == channel_step_outcome(*self, *port, id, from, proof_height, verified),
    {
        match route(port) {
            Ok(_) => {},
            Err(e) => return Err(e),
        }
        if id.index >= self.channels.len() as u64 {
            return Err(IbcError::ChannelNotFound);
        }
        let ch = &self.channels[id.index as usize];
        if !ch.port_id.same(port) {
            return Err(IbcError::InvalidPort);
        }
        if ch.state != from {
            return Err(IbcError::InvalidChannelState);
        }
        if ch.connection_id.index >= self.connections.len() as u64 {
            return Err(IbcError::ConnectionNotFound);
        }
        let conn = self.connections[ch.connection_id.index as usize];
        if conn.state != ConnectionState::Open {
            return Err(IbcError::InvalidConnectionState);
        }
        if conn.counterparty.connection_id.is_none() {
            return Err(IbcError::MissingCounterpartyConnection);
        }
        self.check_proof(conn.client_id, proof_height, verified)
    }

    /// The record the counterparty must hold for channel `id` to pass from
    /// its current state: `state` on the counterparty's channel, which names
    /// `id` as its own counterparty.
    pub fn channel_step_claim(&self, id: ChannelId, state: ChannelState) -> (r: Option<ChannelClaim>)
        ensures
            r is Some <==> self.has_channel(id) && self.has_connection(self.channel(id).connection_id)
                && self.connection(self.channel(id).connection_id).counterparty.connection_id is Some,
            r matches Some(c) ==> is_claim(c, state, self.channel(id).ordering,
                self.channel(id).counterparty.port_id.name@, self.channel(id).port_id.name@, Some(id),
                self.connection(self.channel(id).connection_id).counterparty.connection_id->0),
    {
        if id.index >= self.channels.len() as u64 {
            return None;
        }
        let ch = &self.channels[id.index as usize];
        if ch.connection_id.index >= self.connections.len() as u64 {
            return None;
        }
        match self.connections[ch.connection_id.index as usize].counterparty.connection_id {
            None => None,
            Some(remote) => Some(ChannelClaim {
                state,
                ordering: ch.ordering,
                port_id: ch.counterparty.port_id.copy(),
                counterparty_port_id: ch.port_id.copy(),
                counterparty_channel_id: Some(id),
                connection_id: remote,
            }),
        }
    }

    /// Checks `OpenAck`. `verified` is the verdict of the proof that chain B
    /// holds `channel_step_claim(chan_id_on_a, TryOpen)` as its channel
    /// `chan_id_on_b`.
    pub fn check_channel_open_ack(&self, msg: &MsgChannelOpenAck, verified: bool) -> (r: Result<(), IbcError>)
        ensures
            r == chan_open_ack_outcome(*self, *msg, verified),
    {
        self.check_channel_step(&msg.port_id_on_a, msg.chan_id_on_a, ChannelState::Init, msg.proof_height, verified)
    }

    /// Replaces the state and counterparty channel of channel `i`.
    pub(crate) fn advance_channel(&mut self, i: usize, state: ChannelState, cp: Option<ChannelId>)
        requires
            i < old(self).channels@.len(),
        ensures
            channel_advanced(*old(self), *final(self), i as int, state, cp),
    {
        let mut ch = self.channels.remove(i);
        ch.state = state;
        ch.counterparty.channel_id = cp;
        self.channels.insert(i, ch);
        assert forall|j: int| 0 <= j < old(self).channels@.len() && j != i implies self.channels@[j]
            == old(self).channels@[j] by {
            assert(self.channels@ == old(self).channels@.remove(i as int).insert(i as int, ch));
        }
    }

    /// Opens the channel and records the counterparty's channel id.
    pub fn execute_channel_open_ack(&mut self, msg: &MsgChannelOpenAck) -> (r: Result<(), IbcError>)
        ensures
            old(self).wf() ==> final(self).wf(),
            r == chan_open_ack_outcome(*old(self), *msg, true),
            r is Err ==> *final(self) == *old(self),
            r is Ok ==> channel_advanced(*old(self), *final(self), msg.chan_id_on_a.index as int,
                ChannelState::Open, Some(msg.chan_id_on_b)),
    {
        let c = self.check_channel_open_ack(msg, true);
        if c.is_err() {
            return c;
        }
        self.advance_channel(msg.chan_id_on_a.index as usize, ChannelState::Open, Some(msg.chan_id_on_b));
        Ok(())
    }

    /// Checks `OpenConfirm`. `verified` is the verdict of the proof that
    /// chain A holds `channel_step_claim(chan_id_on_b, Open)` as the channel
    /// this one names as its counterparty.
    pub fn check_channel_open_confirm(&self, msg: &MsgChannelOpenConfirm, verified: bool) -> (r: Result<(), IbcError>)
        ensures
            r == chan_open_confirm_outcome(*self, *msg, verified),
    {
        let c = self.check_channel_step(&msg.port_id_on_b, msg.chan_id_on_b, ChannelState::TryOpen, msg.proof_height, verified);
        if c.is_err() {
            return c;
        }
        if self.channels[msg.chan_id_on_b.index as usize].counterparty.channel_id.is_none() {
            return Err(IbcError::MissingCounterpartyChannel);
        }
        Ok(())
    }

    /// Opens the channel.
    pub fn execute_channel_open_confirm(&mut self, msg: &MsgChannelOpenConfirm) -> (r: Result<(), IbcError>)
        ensures
            old(self).wf() ==> final(self).wf(),
            r == chan_open_confirm_outcome(*old(self), *msg, true),
            r is Err ==> *final(self) == *old(self),
            r is Ok ==> channel_advanced(*old(self), *final(self), msg.chan_id_on_b.index as int,
                ChannelState::Open, old(self).channel(msg.chan_id_on_b).counterparty.channel_id),
    {
        let c = self.check_channel_open_confirm(msg, true);
        if c.is_err() {
            return c;
        }
        let i = msg.chan_id_on_b.index as usize;
        let cp = self.channels[i].counterparty.channel_id;
        self.advance_channel(i, ChannelState::Open, cp);
        Ok(())
    }

    pub fn check_channel_close(&self, port: &PortId, id: ChannelId) -> (r: Result<(), IbcError>)
        ensures
            r == channel_close_outcome(*self, *port, id),
    {
        match route(port) {
            Ok(_) => {},
            Err(e) => return Err(e),
        }
        if id.index >= self.channels.len() as u64 {
            return Err(IbcError::ChannelNotFound);
        }
        let ch = &self.channels[id.index as usize];
        if !ch.port_id.same(port) {
            return Err(IbcError::InvalidPort);
        }
        if ch.state == ChannelState::Closed {
            return Err(IbcError::InvalidChannelState);
        }
        if ch.connection_id.index >= self.connections.len() as u64 {
            return Err(IbcError::ConnectionNotFound);
        }
        if self.connections[ch.connection_id.index as usize].state != ConnectionState::Open {
            return Err(IbcError::InvalidConnectionState);
        }
        Ok(())
    }

    pub fn check_channel_close_init(&self, msg: &MsgChannelCloseInit) -> (r: Result<(), IbcError>)
        ensures
            r == chan_close_init_outcome(*self, *msg),
    {
        let c = self.check_channel_close(&msg.port_id_on_a, msg.chan_id_on_a);
        if c.is_err() {
            return c;
        }
        chan_close_init_check(AppModule::Transfer)
    }

    /// Closes the channel, where its application lets it.
    pub fn execute_channel_close_init(&mut self, msg: &MsgChannelCloseInit) -> (r: Result<(), IbcError>)
        ensures
            old(self).wf() ==> final(self).wf(),
            r == chan_close_init_outcome(*old(self), *msg),
            r is Err ==> *final(self) == *old(self),
            r is Ok ==> channel_advanced(*old(self), *final(self), msg.chan_id_on_a.index as int,
                ChannelState::Closed, old(self).channel(msg.chan_id_on_a).counterparty.channel_id),
    {
        let c = self.check_channel_close_init(msg);
        if c.is_err() {
            return c;
        }
        let i = msg.chan_id_on_a.index as usize;
        let cp = self.channels[i].counterparty.channel_id;
        self.advance_channel(i, ChannelState::Closed, cp);
        Ok(())
    }

    /// Checks `CloseConfirm`. `verified` is the verdict of the proof that
    /// the counterparty holds `channel_step_claim(chan_id_on_b, Closed)`.
    pub fn check_channel_close_confirm(&self, msg: &MsgChannelCloseConfirm, verified: bool) -> (r: Result<(), IbcError>)
        ensures
            r == chan_close_confirm_outcome(*self, *msg, verified),
    {
        let c = self.check_channel_close(&msg.port_id_on_b, msg.chan_id_on_b);
        if c.is_err() {
            return c;
        }
        let ch = &self.channels[msg.chan_id_on_b.index as usize];
        let conn = self.connections[ch.connection_id.index as usize];
        if conn.counterparty.connection_id.is_none() {
            return Err(IbcError::MissingCounterpartyConnection);
        }
        self.check_proof(conn.client_id, msg.proof_height, verified)
    }

    /// Closes the channel.
    pub fn execute_channel_close_confirm(&mut self, msg: &MsgChannelCloseConfirm) -> (r: Result<(), IbcError>)
        ensures
            old(self).wf() ==> final(self).wf(),
            r == chan_close_confirm_outcome(*old(self), *msg, true),
            r is Err ==> *final(self) == *old(self),
            r is Ok ==> channel_advanced(*old(self), *final(self), msg.chan_id_on_b.index as int,
                ChannelState::Closed, old(self).channel(msg.chan_id_on_b).counterparty.channel_id),
    {
        let c = self.check_channel_close_confirm(msg, true);
        if c.is_err() {
            return c;
        }
        let i = msg.chan_id_on_b.index as usize;
        let cp = self.channels[i].counterparty.channel_id;
        self.advance_channel(i, ChannelState::Closed, cp);
        Ok(())
    }
}

/// A channel over any number of hops but one is refused by the stateless
/// checks of `OpenInit` and `OpenTry`, and by their stateful checks on every
/// state.
pub proof fn lemma_multi_hop_rejected(s: IbcState, init: MsgChannelOpenInit, try_msg: MsgChannelOpenTry, verified: bool)
    ensures
        init.connection_hops_on_a@.len() != 1 ==> chan_open_init_outcome(s, init) == Err::<(), IbcError>(
            IbcError::InvalidConnectionHops),
        try_msg.connection_hops_on_b@.len() != 1 ==> chan_open_try_outcome(s, try_msg, verified) == Err::<
            (),
            IbcError,
        >(IbcError::InvalidConnectionHops),
{
}

} // verus!
