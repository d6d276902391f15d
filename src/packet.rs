use vstd::prelude::*;
use crate::error::IbcError;
use crate::ident::{transfer_port, ChannelId, PortId};
use crate::state::{
    proof_outcome, ChannelEnd, ChannelState, ConnectionState, IbcState, Order, PacketAck, PacketKey,
    PacketOutcome, PacketRecord,
};
use crate::channel::{
    chan_close_confirm_outcome, chan_close_init_outcome, chan_open_ack_outcome, chan_open_confirm_outcome,
    channel_advanced, MsgChannelCloseConfirm, MsgChannelCloseInit, MsgChannelOpenAck, MsgChannelOpenConfirm,
};
use crate::transfer::{
    acknowledge_packet_execute, recv_packet_execute, route, success_ack, timeout_packet_execute, AppModule,
    EscrowAction,
};

verus! {

/// A packet sent from port `port_on_a`, channel `chan_on_a` of chain A to
/// port `port_on_b`, channel `chan_on_b` of chain B. A timeout of 0 is no
/// timeout.
#[derive(Debug)]
pub struct Packet {
    pub sequence: u64,
    pub port_on_a: PortId,
    pub chan_on_a: ChannelId,
    pub port_on_b: PortId,
    pub chan_on_b: ChannelId,
    pub data: Vec<u8>,
    pub timeout_height_on_b: u64,
    pub timeout_timestamp_on_b: u64,
}

/// Chain B receives a packet, with a proof taken on chain A at
/// `proof_height` of the packet's commitment.
#[derive(Debug)]
pub struct MsgRecvPacket {
    pub packet: Packet,
    pub proof_height: u64,
}

/// Chain A learns that B acknowledged its packet, with a proof of the
/// acknowledgement that B recorded.
#[derive(Debug)]
pub struct MsgAcknowledgement {
    pub packet: Packet,
    pub acknowledgement: Vec<u8>,
    pub proof_height: u64,
}

/// Chain A learns that its packet timed out before B received it, with a
/// proof of non-receipt on B (for an ordered channel, of B's next expected
/// sequence `next_sequence_recv_on_b`).
#[derive(Debug)]
pub struct MsgTimeout {
    pub packet: Packet,
    pub next_sequence_recv_on_b: u64,
    pub proof_height: u64,
}

/// The (channel, sequence) pair a packet has on its receiving chain.
pub open spec fn inbound_key(p: Packet) -> PacketKey {
    PacketKey { channel_id: p.chan_on_b, sequence: p.sequence }
}

/// The (channel, sequence) pair a packet has on its sending chain.
pub open spec fn outbound_key(p: Packet) -> PacketKey {
    PacketKey { channel_id: p.chan_on_a, sequence: p.sequence }
}

/// The packet's timeout has passed at `height` and `timestamp`.
pub open spec fn timed_out(p: Packet, height: u64, timestamp: u64) -> bool {
    (p.timeout_height_on_b != 0 && height >= p.timeout_height_on_b)
        || (p.timeout_timestamp_on_b != 0 && timestamp >= p.timeout_timestamp_on_b)
}

/// What checking the channel a packet travels over yields on one of its
/// chains: channel `ch_id` must be open on `port`, face `cp_port` and
/// `cp_id` on the other chain, and run over an open connection.
pub open spec fn channel_outcome(
    s: IbcState,
    ch_id: ChannelId,
    port: PortId,
    cp_port: PortId,
    cp_id: ChannelId,
) -> Result<(), IbcError> {
    if !s.has_channel(ch_id) {
        Err(IbcError::ChannelNotFound)
    } else if s.channel(ch_id).port_id.name@ != port.name@ {
        Err(IbcError::InvalidPort)
    } else if s.channel(ch_id).state != ChannelState::Open {
        Err(IbcError::InvalidChannelState)
    } else if s.channel(ch_id).counterparty.port_id.name@ != cp_port.name@
        || s.channel(ch_id).counterparty.channel_id != Some(cp_id) {
        Err(IbcError::CounterpartyMismatch)
    } else if !s.has_connection(s.channel(ch_id).connection_id) {
        Err(IbcError::ConnectionNotFound)
    } else if s.connection(s.channel(ch_id).connection_id).state != ConnectionState::Open {
        Err(IbcError::InvalidConnectionState)
    } else {
        Ok(())
    }
}

pub open spec fn recv_outcome(s: IbcState, msg: MsgRecvPacket, verified: bool) -> Result<(), IbcError> {
    let p = msg.packet;
    let ch = s.channel(p.chan_on_b);
    if p.port_on_b.name@ != transfer_port() {
        Err(IbcError::InvalidPort)
    } else if channel_outcome(s, p.chan_on_b, p.port_on_b, p.port_on_a, p.chan_on_a) is Err {
        channel_outcome(s, p.chan_on_b, p.port_on_b, p.port_on_a, p.chan_on_a)
    } else if s.has_receipt(inbound_key(p)) {
        Err(IbcError::PacketAlreadyProcessed)
    } else if ch.ordering == Order::Ordered && (p.sequence != ch.next_sequence_recv || p.sequence == u64::MAX) {
        Err(IbcError::InvalidSequence)
    } else if timed_out(p, s.height, s.timestamp) {
        Err(IbcError::PacketTimedOut)
    } else {
        proof_outcome(s, s.connection(ch.connection_id).client_id, msg.proof_height, verified)
    }
}

/// What checking the outbound packet `p` yields on its sending chain, up to
/// its commitment.
pub open spec fn outbound_outcome(s: IbcState, p: Packet) -> Result<(), IbcError> {
    if p.port_on_b.name@ != transfer_port() {
        Err(IbcError::InvalidPort)
    } else if channel_outcome(s, p.chan_on_a, p.port_on_a, p.port_on_b, p.chan_on_b) is Err {
        channel_outcome(s, p.chan_on_a, p.port_on_a, p.port_on_b, p.chan_on_b)
    } else if s.has_closed(outbound_key(p)) {
        Err(IbcError::PacketAlreadyProcessed)
    } else if !s.has_commitment(outbound_key(p)) {
        Err(IbcError::PacketCommitmentNotFound)
    } else {
        Ok(())
    }
}

pub open spec fn ack_outcome(s: IbcState, msg: MsgAcknowledgement, verified: bool) -> Result<(), IbcError> {
    if outbound_outcome(s, msg.packet) is Err {
        outbound_outcome(s, msg.packet)
    } else {
        proof_outcome(s, s.connection(s.channel(msg.packet.chan_on_a).connection_id).client_id, msg.proof_height, verified)
    }
}

pub open spec fn timeout_outcome(s: IbcState, msg: MsgTimeout, verified: bool) -> Result<(), IbcError> {
    let p = msg.packet;
    let ch = s.channel(p.chan_on_a);
    let client = s.connection(ch.connection_id).client_id;
    if outbound_outcome(s, p) is Err {
        outbound_outcome(s, p)
    } else if s.consensus(client, msg.proof_height) is None {
        Err(IbcError::ClientStateNotFound)
    } else if !timed_out(p, msg.proof_height, s.consensus(client, msg.proof_height)->0.timestamp) {
        Err(IbcError::TimeoutNotReached)
    } else if ch.ordering == Order::Ordered && p.sequence < msg.next_sequence_recv_on_b {
        Err(IbcError::InvalidSequence)
    } else {
        proof_outcome(s, client, msg.proof_height, verified)
    }
}

/// `b` differs from `a` in the packet bookkeeping only: clients and
/// connections stay.
pub open spec fn packets_frame(a: IbcState, b: IbcState) -> bool {
    &&& b.height == a.height
    &&& b.timestamp == a.timestamp
    &&& b.clients == a.clients
    &&& b.consensus_states == a.consensus_states
    &&& b.connections == a.connections
}

/// `b` is `a` after receiving the packet of `msg`: its receipt is recorded,
/// an ordered channel expects the next sequence, and the application's
/// acknowledgement is stored.
pub open spec fn recv_effect(a: IbcState, b: IbcState, msg: MsgRecvPacket) -> bool {
    let i = msg.packet.chan_on_b.index as int;
    let ch = a.channels@[i];
    &&& b.receipts@ == a.receipts@.push(inbound_key(msg.packet))
    &&& b.closed == a.closed
    &&& b.commitments == a.commitments
    &&& packets_frame(a, b)
    &&& ch.ordering == Order::Unordered ==> b.channels == a.channels
    &&& ch.ordering == Order::Ordered ==> b.channels@ == a.channels@.update(
        i, ChannelEnd { next_sequence_recv: (ch.next_sequence_recv + 1) as u64, ..ch })
    &&& b.acks@.len() == a.acks@.len() + 1
    &&& b.acks@.subrange(0, a.acks@.len() as int) == a.acks@
    &&& b.acks@.last().key == inbound_key(msg.packet)
    &&& b.acks@.last().ack@ == success_ack()
    &&& b.has_receipt(inbound_key(msg.packet))
}

/// `b` is `a` with the round trip of the outbound packet `key` closed with
/// `outcome`: its commitment is removed (none is left where `a` is
/// well formed) and its end recorded.
pub open spec fn outbound_closed(a: IbcState, b: IbcState, key: PacketKey, outcome: PacketOutcome) -> bool {
    &&& b.closed@ == a.closed@.push(PacketRecord { key, outcome })
    &&& b.receipts == a.receipts
    &&& b.acks == a.acks
    &&& exists|k: int| 0 <= k < a.commitments@.len() && a.commitments@[k] == key
        && b.commitments@ == a.commitments@.remove(k)
    &&& a.wf() ==> !b.has_commitment(key)
    &&& b.has_closed(key)
    &&& packets_frame(a, b)
}

/// `b` is `a` after the acknowledgement of `msg`.
pub open spec fn ack_effect(a: IbcState, b: IbcState, msg: MsgAcknowledgement) -> bool {
    &&& outbound_closed(a, b, outbound_key(msg.packet), PacketOutcome::Acknowledged)
    &&& b.channels == a.channels
}

/// `b` is `a` after the timeout of `msg`; an ordered channel is closed.
pub open spec fn timeout_effect(a: IbcState, b: IbcState, msg: MsgTimeout) -> bool {
    let i = msg.packet.chan_on_a.index as int;
    let ch = a.channels@[i];
    &&& outbound_closed(a, b, outbound_key(msg.packet), PacketOutcome::TimedOut)
    &&& ch.ordering == Order::Unordered ==> b.channels == a.channels
    &&& ch.ordering == Order::Ordered ==> b.channels@ == a.channels@.update(
        i, ChannelEnd { state: ChannelState::Closed, ..ch })
}

impl Packet {
    pub fn timed_out_at(&self, height: u64, timestamp: u64) -> (r: bool)
        ensures
            r == timed_out(*self, height, timestamp),
    {
        (self.timeout_height_on_b != 0 && height >= self.timeout_height_on_b)
            || (self.timeout_timestamp_on_b != 0 && timestamp >= self.timeout_timestamp_on_b)
    }
}

impl IbcState {
    /// Records that this chain sent the packet `key`, unless it already has.
    pub fn put_commitment(&mut self, key: PacketKey)
        ensures
            old(self).wf() ==> final(self).wf(),
            final(self).has_commitment(key),
            old(self).has_commitment(key) ==> *final(self) == *old(self),
            !old(self).has_commitment(key) ==> final(self).commitments@ == old(self).commitments@.push(key),
            final(self).height == old(self).height,
            final(self).timestamp == old(self).timestamp,
            final(self).clients == old(self).clients,
            final(self).consensus_states == old(self).consensus_states,
            final(self).connections == old(self).connections,
            final(self).channels == old(self).channels,
            final(self).receipts == old(self).receipts,
            final(self).closed == old(self).closed,
            final(self).acks == old(self).acks,
    {
        if self.find_commitment(key).is_none() {
            self.commitments.push(key);
            assert(self.commitments@[self.commitments@.len() - 1] == key);
        }
    }

    pub fn check_channel_for(&self, ch_id: ChannelId, port: &PortId, cp_port: &PortId, cp_id: ChannelId) -> (r: Result<(), IbcError>)
        ensures
            r == channel_outcome(*self, ch_id, *port, *cp_port, cp_id),
    {
        if ch_id.index >= self.channels.len() as u64 {
            return Err(IbcError::ChannelNotFound);
        }
        let ch = &self.channels[ch_id.index as usize];
        if !ch.port_id.same(port) {
            return Err(IbcError::InvalidPort);
        }
        if ch.state != ChannelState::Open {
            return Err(IbcError::InvalidChannelState);
        }
        let cp_matches = match ch.counterparty.channel_id {
            Some(c) => c.index == cp_id.index,
            None => false,
        };
        if !ch.counterparty.port_id.same(cp_port) || !cp_matches {
            return Err(IbcError::CounterpartyMismatch);
        }
        if ch.connection_id.index >= self.connections.len() as u64 {
            return Err(IbcError::ConnectionNotFound);
        }
        if self.connections[ch.connection_id.index as usize].state != ConnectionState::Open {
            return Err(IbcError::InvalidConnectionState);
        }
        Ok(())
    }

    /// Checks a packet receipt. `verified` is the verdict of the proof that
    /// chain A holds the packet's commitment.
    pub fn check_recv_packet(&self, msg: &MsgRecvPacket, verified: bool) -> (r: Result<(), IbcError>)
        ensures
            r == recv_outcome(*self, *msg, verified),
    {
        let p = &msg.packet;
        match route(&p.port_on_b) {
            Ok(_) => {},
            Err(e) => return Err(e),
        }
        match self.check_channel_for(p.chan_on_b, &p.port_on_b, &p.port_on_a, p.chan_on_a) {
            Ok(()) => {},
            Err(e) => return Err(e),
        }
        if self.find_receipt(PacketKey { channel_id: p.chan_on_b, sequence: p.sequence }) {
            return Err(IbcError::PacketAlreadyProcessed);
        }
        let ch = &self.channels[p.chan_on_b.index as usize];
        if ch.ordering == Order::Ordered && (p.sequence != ch.next_sequence_recv || p.sequence == u64::MAX) {
            return Err(IbcError::InvalidSequence);
        }
        if p.timed_out_at(self.height, self.timestamp) {
            return Err(IbcError::PacketTimedOut);
        }
        let client = self.connections[ch.connection_id.index as usize].client_id;
        self.check_proof(client, msg.proof_height, verified)
    }

    /// Sets the next sequence that channel `i` expects to receive.
    fn set_next_sequence_recv(&mut self, i: usize, next: u64)
        requires
            i < old(self).channels@.len(),
        ensures
            final(self).channels@ == old(self).channels@.update(
                i as int, ChannelEnd { next_sequence_recv: next, ..old(self).channels@[i as int] }),
            crate::state::only_channels_differ(*old(self), *final(self)),
    {
        let mut ch = self.channels.remove(i);
        ch.next_sequence_recv = next;
        self.channels.insert(i, ch);
        assert(self.channels@ =~= old(self).channels@.update(i as int, ch));
    }

    /// Receives a packet: records its receipt, advances an ordered channel's
    /// expected sequence, and stores the application's acknowledgement.
    pub fn execute_recv_packet(&mut self, msg: &MsgRecvPacket) -> (r: Result<(), IbcError>)
        ensures
            old(self).wf() ==> final(self).wf(),
            r == recv_outcome(*old(self), *msg, true),
            r is Err ==> *final(self) == *old(self),
            r is Ok ==> recv_effect(*old(self), *final(self), *msg),
    {
        let c = self.check_recv_packet(msg, true);
        if c.is_err() {
            return c;
        }
        let p = &msg.packet;
        let key = PacketKey { channel_id: p.chan_on_b, sequence: p.sequence };
        let i = p.chan_on_b.index as usize;
        if self.channels[i].ordering == Order::Ordered {
            let next = self.channels[i].next_sequence_recv + 1;
            self.set_next_sequence_recv(i, next);
        }
        self.receipts.push(key);
        let ack = recv_packet_execute(AppModule::Transfer);
        self.acks.push(PacketAck { key, ack });
        assert(self.acks@.subrange(0, old(self).acks@.len() as int) =~= old(self).acks@);
        assert(self.receipts@[self.receipts@.len() - 1] == key);
        Ok(())
    }

    /// Checks an outbound packet on its sending chain, up to its commitment.
    pub fn check_outbound(&self, p: &Packet) -> (r: Result<(), IbcError>)
        ensures
            r == outbound_outcome(*self, *p),
    {
        match route(&p.port_on_b) {
            Ok(_) => {},
            Err(e) => return Err(e),
        }
        match self.check_channel_for(p.chan_on_a, &p.port_on_a, &p.port_on_b, p.chan_on_b) {
            Ok(()) => {},
            Err(e) => return Err(e),
        }
        let key = PacketKey { channel_id: p.chan_on_a, sequence: p.sequence };
        if self.find_closed(key) {
            return Err(IbcError::PacketAlreadyProcessed);
        }
        if self.find_commitment(key).is_none() {
            return Err(IbcError::PacketCommitmentNotFound);
        }
        Ok(())
    }

    /// Checks an acknowledgement. `verified` is the verdict of the proof
    /// that chain B recorded `msg.acknowledgement` for the packet.
    pub fn check_acknowledgement(&self, msg: &MsgAcknowledgement, verified: bool) -> (r: Result<(), IbcError>)
        ensures
            r == ack_outcome(*self, *msg, verified),
    {
        let c = self.check_outbound(&msg.packet);
        if c.is_err() {
            return c;
        }
        let ch = &self.channels[msg.packet.chan_on_a.index as usize];
        let client = self.connections[ch.connection_id.index as usize].client_id;
        self.check_proof(client, msg.proof_height, verified)
    }

    /// Removes the commitment for `key` and records how the packet ended.
    fn close_outbound(&mut self, key: PacketKey, outcome: PacketOutcome)
        requires
            old(self).has_commitment(key),
        ensures
            outbound_closed(*old(self), *final(self), key, outcome),
            final(self).channels == old(self).channels,
    {
        let k = self.find_commitment(key).unwrap();
        self.commitments.remove(k);
        self.closed.push(PacketRecord { key, outcome });
        assert(self.closed@[self.closed@.len() - 1].key == key);
        proof {
            if old(self).wf() {
                let o = old(self).commitments@;
                assert forall|j: int| 0 <= j < self.commitments@.len() implies self.commitments@[j] != key by {
                    if j < k {
                        assert(self.commitments@[j] == o[j]);
                        assert(o[j] != o[k as int]);
                    } else {
                        assert(self.commitments@[j] == o[j + 1]);
                        assert(o[k as int] != o[j + 1]);
                    }
                }
            }
        }
    }

    /// Closes the round trip of an acknowledged packet, and returns what
    /// becomes of its escrowed value.
    pub fn execute_acknowledgement(&mut self, msg: &MsgAcknowledgement) -> (r: Result<EscrowAction, IbcError>)
        ensures
            old(self).wf() ==> final(self).wf(),
            r is Ok <==> ack_outcome(*old(self), *msg, true) is Ok,
            r matches Err(e) ==> ack_outcome(*old(self), *msg, true) == Err::<(), IbcError>(e),
            r is Err ==> *final(self) == *old(self),
            r is Ok ==> r == Ok::<EscrowAction, IbcError>(if msg.acknowledgement@ == success_ack() {
                EscrowAction::Finalize
            } else {
                EscrowAction::Refund
            }) && ack_effect(*old(self), *final(self), *msg),
    {
        match self.check_acknowledgement(msg, true) {
            Err(e) => return Err(e),
            Ok(()) => {},
        }
        let key = PacketKey { channel_id: msg.packet.chan_on_a, sequence: msg.packet.sequence };
        self.close_outbound(key, PacketOutcome::Acknowledged);
        Ok(acknowledge_packet_execute(AppModule::Transfer, &msg.acknowledgement))
    }

    /// Checks a timeout. `verified` is the verdict of the proof of
    /// non-receipt on chain B at `proof_height`.
    pub fn check_timeout(&self, msg: &MsgTimeout, verified: bool) -> (r: Result<(), IbcError>)
        ensures
            r == timeout_outcome(*self, *msg, verified),
    {
        let c = self.check_outbound(&msg.packet);
        if c.is_err() {
            return c;
        }
        let p = &msg.packet;
        let ch = &self.channels[p.chan_on_a.index as usize];
        let client = self.connections[ch.connection_id.index as usize].client_id;
        let cs = match self.consensus_state(client, msg.proof_height) {
            Some(cs) => cs,
            None => return Err(IbcError::ClientStateNotFound),
        };
        if !p.timed_out_at(msg.proof_height, cs.timestamp) {
            return Err(IbcError::TimeoutNotReached);
        }
        if ch.ordering == Order::Ordered && p.sequence < msg.next_sequence_recv_on_b {
            return Err(IbcError::InvalidSequence);
        }
        self.check_proof(client, msg.proof_height, verified)
    }

    /// Closes the round trip of a timed-out packet, whose escrowed value is
    /// refunded; an ordered channel is closed with it.
    pub fn execute_timeout(&mut self, msg: &MsgTimeout) -> (r: Result<EscrowAction, IbcError>)
        ensures
            old(self).wf() ==> final(self).wf(),
            r is Ok <==> timeout_outcome(*old(self), *msg, true) is Ok,
            r matches Err(e) ==> timeout_outcome(*old(self), *msg, true) == Err::<(), IbcError>(e),
            r is Err ==> *final(self) == *old(self),
            r is Ok ==> r == Ok::<EscrowAction, IbcError>(EscrowAction::Refund)
                && timeout_effect(*old(self), *final(self), *msg),
    {
        match self.check_timeout(msg, true) {
            Err(e) => return Err(e),
            Ok(()) => {},
        }
        let key = PacketKey { channel_id: msg.packet.chan_on_a, sequence: msg.packet.sequence };
        let i = msg.packet.chan_on_a.index as usize;
        if self.channels[i].ordering == Order::Ordered {
            let cp = self.channels[i].counterparty.channel_id;
            self.advance_channel(i, ChannelState::Closed, cp);
            assert(self.channels@ =~= old(self).channels@.update(
                i as int, ChannelEnd { state: ChannelState::Closed, ..old(self).channels@[i as int] }));
        }
        self.close_outbound(key, PacketOutcome::TimedOut);
        Ok(timeout_packet_execute(AppModule::Transfer))
    }
}

/// No packet completes twice: once an inbound (channel, sequence) pair has
/// been received, every later receive of it is rejected, and once an
/// outbound pair has been acknowledged or timed out, every later
/// acknowledgement or timeout of it is rejected.
pub proof fn lemma_packet_no_replay(
    s: IbcState,
    recv: MsgRecvPacket,
    ack: MsgAcknowledgement,
    timeout: MsgTimeout,
    verified: bool,
)
    ensures
        s.has_receipt(inbound_key(recv.packet)) ==> recv_outcome(s, recv, verified) is Err,
        s.has_closed(outbound_key(ack.packet)) ==> ack_outcome(s, ack, verified) is Err,
        s.has_closed(outbound_key(timeout.packet)) ==> timeout_outcome(s, timeout, verified) is Err,
{
}

/// A closed channel stays closed: no handshake step, receive,
/// acknowledgement or timeout is accepted on it.
pub proof fn lemma_closed_channel_is_terminal(
    s: IbcState,
    open_ack: MsgChannelOpenAck,
    open_confirm: MsgChannelOpenConfirm,
    close_init: MsgChannelCloseInit,
    close_confirm: MsgChannelCloseConfirm,
    recv: MsgRecvPacket,
    ack: MsgAcknowledgement,
    timeout: MsgTimeout,
    verified: bool,
)
    ensures
        s.has_channel(open_ack.chan_id_on_a) && s.channel(open_ack.chan_id_on_a).state == ChannelState::Closed
            ==> chan_open_ack_outcome(s, open_ack, verified) is Err,
        s.has_channel(open_confirm.chan_id_on_b) && s.channel(open_confirm.chan_id_on_b).state
            == ChannelState::Closed ==> chan_open_confirm_outcome(s, open_confirm, verified) is Err,
        s.has_channel(close_init.chan_id_on_a) && s.channel(close_init.chan_id_on_a).state
            == ChannelState::Closed ==> chan_close_init_outcome(s, close_init) is Err,
        s.has_channel(close_confirm.chan_id_on_b) && s.channel(close_confirm.chan_id_on_b).state
            == ChannelState::Closed ==> chan_close_confirm_outcome(s, close_confirm, verified) is Err,
        s.has_channel(recv.packet.chan_on_b) && s.channel(recv.packet.chan_on_b).state == ChannelState::Closed
            ==> recv_outcome(s, recv, verified) is Err,
        s.has_channel(ack.packet.chan_on_a) && s.channel(ack.packet.chan_on_a).state == ChannelState::Closed
            ==> ack_outcome(s, ack, verified) is Err,
        s.has_channel(timeout.packet.chan_on_a) && s.channel(timeout.packet.chan_on_a).state
            == ChannelState::Closed ==> timeout_outcome(s, timeout, verified) is Err,
{
}

} // verus!
