use vstd::prelude::*;
use crate::error::IbcError;
use crate::ident::{ChannelId, ClientId, ConnectionId, PortId};

verus! {

/// A counterparty chain's consensus state: the commitment root that proofs
/// of its state are checked against, and its block time.
#[derive(Clone, Copy, Debug)]
pub struct ConsensusState {
    pub root: [u8; 32],
    pub timestamp: u64,
}

/// A consensus state stored for a client at a height.
#[derive(Clone, Copy, Debug)]
pub struct ConsensusEntry {
    pub client_id: ClientId,
    pub height: u64,
    pub state: ConsensusState,
}

/// A light client's trust anchor: the latest height it has verified.
#[derive(Clone, Copy, Debug, PartialEq, Eq)]
pub struct ClientRecord {
    pub latest_height: u64,
}

#[derive(Clone, Copy, Debug, PartialEq, Eq, Structural)]
pub enum ConnectionState {
    Init,
    TryOpen,
    Open,
}

/// The other end of a connection: its client on the counterparty chain and,
/// once known, its connection id there.
#[derive(Clone, Copy, Debug, PartialEq, Eq)]
pub struct ConnectionCounterparty {
    pub client_id: ClientId,
    pub connection_id: Option<ConnectionId>,
}

#[derive(Clone, Copy, Debug, PartialEq, Eq)]
pub struct ConnectionEnd {
    pub state: ConnectionState,
    pub client_id: ClientId,
    pub counterparty: ConnectionCounterparty,
}

#[derive(Clone, Copy, Debug, PartialEq, Eq, Structural)]
pub enum ChannelState {
    Init,
    TryOpen,
    Open,
    Closed,
}

/// How a channel delivers packets: in any order, or strictly by sequence.
#[derive(Clone, Copy, Debug, PartialEq, Eq, Structural)]
pub enum Order {
    Unordered,
    Ordered,
}

/// The other end of a channel: its port and, once known, its channel id.
#[derive(Debug)]
pub struct ChannelCounterparty {
    pub port_id: PortId,
    pub channel_id: Option<ChannelId>,
}

/// A channel end. It runs over exactly one connection hop, held in
/// `connection_id`.
#[derive(Debug)]
pub struct ChannelEnd {
    pub state: ChannelState,
    pub ordering: Order,
    pub port_id: PortId,
    pub counterparty: ChannelCounterparty,
    pub connection_id: ConnectionId,
    pub next_sequence_recv: u64,
}

/// A packet by the channel of this chain it travels over and its sequence.
/// Inbound and outbound packets are kept apart: each direction numbers its
/// packets on its own.
#[derive(Clone, Copy, Debug, PartialEq, Eq, Structural)]
pub struct PacketKey {
    pub channel_id: ChannelId,
    pub sequence: u64,
}

/// How the round trip of an outbound packet ended.
#[derive(Clone, Copy, Debug, PartialEq, Eq, Structural)]
pub enum PacketOutcome {
    Acknowledged,
    TimedOut,
}

/// The record of an outbound packet whose round trip has ended.
#[derive(Clone, Copy, Debug)]
pub struct PacketRecord {
    pub key: PacketKey,
    pub outcome: PacketOutcome,
}

/// The acknowledgement that the application wrote for a received packet.
#[derive(Debug)]
pub struct PacketAck {
    pub key: PacketKey,
    pub ack: Vec<u8>,
}

/// The protocol state owned by one chain. Client, connection and channel
/// ids are positions in their lists: records are appended, never removed.
#[derive(Debug)]
pub struct IbcState {
    /// The height of this chain.
    pub height: u64,
    /// The block time of this chain.
    pub timestamp: u64,
    pub clients: Vec<ClientRecord>,
    pub consensus_states: Vec<ConsensusEntry>,
    pub connections: Vec<ConnectionEnd>,
    pub channels: Vec<ChannelEnd>,
    /// Outbound packets sent and not yet acknowledged or timed out.
    pub commitments: Vec<PacketKey>,
    /// Inbound packets received, by the receiving channel.
    pub receipts: Vec<PacketKey>,
    /// Outbound packets acknowledged or timed out, by the sending channel.
    pub closed: Vec<PacketRecord>,
    pub acks: Vec<PacketAck>,
}

/// The consensus state stored last for `client` at `height`, if any.
pub open spec fn consensus_in(s: Seq<ConsensusEntry>, client: ClientId, height: u64) -> Option<ConsensusState>
    decreases s.len(),
{
    if s.len() == 0 {
        None
    } else if s.last().client_id == client && s.last().height == height {
        Some(s.last().state)
    } else {
        consensus_in(s.drop_last(), client, height)
    }
}

/// What checking a proof of counterparty state yields: the client must hold
/// a consensus state at the proof height, and `verified` is whether the
/// proof verifies against that state's root.
pub open spec fn proof_outcome(s: IbcState, client: ClientId, proof_height: u64, verified: bool) -> Result<(), IbcError> {
    if s.consensus(client, proof_height) is None {
        Err(IbcError::ClientStateNotFound)
    } else if !verified {
        Err(IbcError::ProofVerificationFailed)
    } else {
        Ok(())
    }
}

/// `b` differs from `a` at most in its clients and consensus states.
pub open spec fn only_clients_differ(a: IbcState, b: IbcState) -> bool {
    &&& b.height == a.height
    &&& b.timestamp == a.timestamp
    &&& b.connections == a.connections
    &&& b.channels == a.channels
    &&& b.commitments == a.commitments
    &&& b.receipts == a.receipts
    &&& b.closed == a.closed
    &&& b.acks == a.acks
}

/// `b` differs from `a` at most in its connections.
pub open spec fn only_connections_differ(a: IbcState, b: IbcState) -> bool {
    &&& b.height == a.height
    &&& b.timestamp == a.timestamp
    &&& b.clients == a.clients
    &&& b.consensus_states == a.consensus_states
    &&& b.channels == a.channels
    &&& b.commitments == a.commitments
    &&& b.receipts == a.receipts
    &&& b.closed == a.closed
    &&& b.acks == a.acks
}

/// `b` differs from `a` at most in its channels.
pub open spec fn only_channels_differ(a: IbcState, b: IbcState) -> bool {
    &&& b.height == a.height
    &&& b.timestamp == a.timestamp
    &&& b.clients == a.clients
    &&& b.consensus_states == a.consensus_states
    &&& b.connections == a.connections
    &&& b.commitments == a.commitments
    &&& b.receipts == a.receipts
    &&& b.closed == a.closed
    &&& b.acks == a.acks
}

impl IbcState {
    /// Every connection's client, every channel's connection and every
    /// stored consensus state's client exist; no consensus state is above
    /// its client's latest height; no packet is committed twice.
    pub open spec fn wf(&self) -> bool {
        &&& forall|i: int| 0 <= i < self.connections@.len()
            ==> (#[trigger] self.connections@[i]).client_id.index < self.clients@.len()
        &&& forall|i: int| 0 <= i < self.channels@.len()
            ==> (#[trigger] self.channels@[i]).connection_id.index < self.connections@.len()
        &&& forall|i: int| 0 <= i < self.consensus_states@.len()
            ==> (#[trigger] self.consensus_states@[i]).client_id.index < self.clients@.len()
                && self.consensus_states@[i].height
                    <= self.clients@[self.consensus_states@[i].client_id.index as int].latest_height
        &&& forall|i: int, j: int| 0 <= i < j < self.commitments@.len()
            ==> self.commitments@[i] != self.commitments@[j]
    }

    pub open spec fn has_client(&self, id: ClientId) -> bool {
        id.index < self.clients.len()
    }

    pub open spec fn client(&self, id: ClientId) -> ClientRecord {
        self.clients@[id.index as int]
    }

    pub open spec fn consensus(&self, id: ClientId, height: u64) -> Option<ConsensusState> {
        consensus_in(self.consensus_states@, id, height)
    }

    pub open spec fn has_connection(&self, id: ConnectionId) -> bool {
        id.index < self.connections.len()
    }

    pub open spec fn connection(&self, id: ConnectionId) -> ConnectionEnd {
        self.connections@[id.index as int]
    }

    pub open spec fn has_channel(&self, id: ChannelId) -> bool {
        id.index < self.channels.len()
    }

    pub open spec fn channel(&self, id: ChannelId) -> ChannelEnd {
        self.channels@[id.index as int]
    }

    pub open spec fn has_commitment(&self, key: PacketKey) -> bool {
        exists|i: int| 0 <= i < self.commitments@.len() && self.commitments@[i] == key
    }

    /// The inbound packet `key` was received.
    pub open spec fn has_receipt(&self, key: PacketKey) -> bool {
        exists|i: int| 0 <= i < self.receipts@.len() && self.receipts@[i] == key
    }

    /// The round trip of the outbound packet `key` has ended.
    pub open spec fn has_closed(&self, key: PacketKey) -> bool {
        exists|i: int| 0 <= i < self.closed@.len() && (#[trigger] self.closed@[i]).key == key
    }

    /// A chain at `height` and `timestamp` with nothing recorded yet.
    pub fn new(height: u64, timestamp: u64) -> (r: IbcState)
        ensures
            r.wf(),
            r.height == height,
            r.timestamp == timestamp,
            r.clients@.len() == 0,
            r.consensus_states@.len() == 0,
            r.connections@.len() == 0,
            r.channels@.len() == 0,
            r.commitments@.len() == 0,
            r.receipts@.len() == 0,
            r.closed@.len() == 0,
            r.acks@.len() == 0,
    {
        IbcState {
            height,
            timestamp,
            clients: Vec::new(),
            consensus_states: Vec::new(),
            connections: Vec::new(),
            channels: Vec::new(),
            commitments: Vec::new(),
            receipts: Vec::new(),
            closed: Vec::new(),
            acks: Vec::new(),
        }
    }

    /// Looks up the consensus state stored last for `id` at `height`.
    pub fn consensus_state(&self, id: ClientId, height: u64) -> (r: Option<ConsensusState>)
        ensures
            r == self.consensus(id, height),
    {
        let mut i: usize = self.consensus_states.len();
        assert(self.consensus_states@.subrange(0, i as int) =~= self.consensus_states@);
        while i > 0
            invariant
                i <= self.consensus_states@.len(),
                consensus_in(self.consensus_states@.subrange(0, i as int), id, height)
                    == self.consensus(id, height),
            decreases i,
        {
            let e = self.consensus_states[i - 1];
            proof {
                let s = self.consensus_states@.subrange(0, i as int);
                assert(s.drop_last() =~= self.consensus_states@.subrange(0, i - 1));
            }
            if e.client_id.index == id.index && e.height == height {
                return Some(e.state);
            }
            i = i - 1;
        }
        None
    }

    /// The commitment root that a proof taken on the counterparty at
    /// `proof_height` must verify against, as trusted by `client`.
    pub fn proof_root(&self, client: ClientId, proof_height: u64) -> (r: Option<[u8; 32]>)
        ensures
            r == (match self.consensus(client, proof_height) {
                Some(cs) => Some(cs.root),
                None => None,
            }),
    {
        match self.consensus_state(client, proof_height) {
            Some(cs) => Some(cs.root),
            None => None,
        }
    }

    /// Checks that a proof at `proof_height` can be held against `client`,
    /// and takes `verified`, the verdict of the membership check against
    /// the root, as its outcome.
    pub fn check_proof(&self, client: ClientId, proof_height: u64, verified: bool) -> (r: Result<(), IbcError>)
        ensures
            r == proof_outcome(*self, client, proof_height, verified),
    {
        if self.consensus_state(client, proof_height).is_none() {
            return Err(IbcError::ClientStateNotFound);
        }
        if !verified {
            return Err(IbcError::ProofVerificationFailed);
        }
        Ok(())
    }

    pub fn find_receipt(&self, key: PacketKey) -> (r: bool)
        ensures
            r == self.has_receipt(key),
    {
        let mut i: usize = 0;
        while i < self.receipts.len()
            invariant
                i <= self.receipts@.len(),
                forall|j: int| 0 <= j < i ==> self.receipts@[j] != key,
            decreases self.receipts@.len() - i,
        {
            let k = self.receipts[i];
            if k.channel_id.index == key.channel_id.index && k.sequence == key.sequence {
                return true;
            }
            i = i + 1;
        }
        false
    }

    pub fn find_closed(&self, key: PacketKey) -> (r: bool)
        ensures
            r == self.has_closed(key),
    {
        let mut i: usize = 0;
        while i < self.closed.len()
            invariant
                i <= self.closed@.len(),
                forall|j: int| 0 <= j < i ==> (#[trigger] self.closed@[j]).key != key,
            decreases self.closed@.len() - i,
        {
            let k = self.closed[i].key;
            if k.channel_id.index == key.channel_id.index && k.sequence == key.sequence {
                return true;
            }
            i = i + 1;
        }
        false
    }

    /// The position of the commitment for `key`, if there is one.
    pub fn find_commitment(&self, key: PacketKey) -> (r: Option<usize>)
        ensures
            r.is_some() == self.has_commitment(key),
            r matches Some(i) ==> i < self.commitments@.len() && self.commitments@[i as int] == key,
    {
        let mut i: usize = 0;
        while i < self.commitments.len()
            invariant
                i <= self.commitments@.len(),
                forall|j: int| 0 <= j < i ==> self.commitments@[j] != key,
            decreases self.commitments@.len() - i,
        {
            let k = self.commitments[i];
            if k.channel_id.index == key.channel_id.index && k.sequence == key.sequence {
                return Some(i);
            }
            i = i + 1;
        }
        None
    }
}

} // verus!
