use vstd::prelude::*;
use crate::error::IbcError;
use crate::ident::ClientId;
use crate::state::{only_clients_differ, ClientRecord, ConsensusEntry, ConsensusState, IbcState};

verus! {

/// The state of a Tendermint light client as a counterparty declares it.
#[derive(Clone, Copy, Debug)]
pub struct TmClientState {
    pub latest_height: u64,
}

/// A client state of any type; only Tendermint clients are supported.
#[derive(Clone, Copy, Debug)]
pub enum AnyClientState {
    Tendermint(TmClientState),
    Unsupported,
}

/// A consensus state of any type; only Tendermint ones are supported.
#[derive(Clone, Copy, Debug)]
pub enum AnyConsensusState {
    Tendermint(ConsensusState),
    Unsupported,
}

#[derive(Clone, Copy, Debug)]
pub struct MsgCreateClient {
    pub client_state: AnyClientState,
    pub consensus_state: AnyConsensusState,
}

/// A counterparty header: the height it commits to and the consensus
/// state it establishes there.
#[derive(Clone, Copy, Debug)]
pub struct Header {
    pub height: u64,
    pub consensus_state: ConsensusState,
}

#[derive(Clone, Copy, Debug)]
pub struct MsgUpdateClient {
    pub client_id: ClientId,
    pub header: Header,
}

pub open spec fn create_client_outcome(msg: MsgCreateClient) -> Result<(), IbcError> {
    if msg.client_state is Tendermint && msg.consensus_state is Tendermint {
        Ok(())
    } else {
        Err(IbcError::InvalidClientType)
    }
}

/// What checking an update of a client yields; `verified` is whether the
/// header passes the client's own verification against its trusted state.
pub open spec fn update_client_outcome(s: IbcState, msg: MsgUpdateClient, verified: bool) -> Result<(), IbcError> {
    if !s.has_client(msg.client_id) {
        Err(IbcError::ClientNotFound)
    } else if msg.header.height <= s.client(msg.client_id).latest_height {
        Err(IbcError::StaleHeader)
    } else if !verified {
        Err(IbcError::HeaderVerificationFailed)
    } else {
        Ok(())
    }
}

/// `b` is `a` after creating the client of `msg`: a client under the next
/// id, at the declared height, with the declared consensus state stored
/// there.
pub open spec fn create_client_effect(a: IbcState, b: IbcState, msg: MsgCreateClient) -> bool {
    &&& msg.client_state matches AnyClientState::Tendermint(cs)
    &&& msg.consensus_state matches AnyConsensusState::Tendermint(cons)
    &&& b.clients@ == a.clients@.push(ClientRecord { latest_height: cs.latest_height })
    &&& b.consensus_states@ == a.consensus_states@.push(
        ConsensusEntry { client_id: ClientId { index: a.clients@.len() as u64 }, height: cs.latest_height, state: cons })
    &&& only_clients_differ(a, b)
}

/// `b` is `a` after the update `msg`: the client's latest height is the
/// header's, and the header's consensus state is stored at that height.
pub open spec fn update_client_effect(a: IbcState, b: IbcState, msg: MsgUpdateClient) -> bool {
    &&& b.clients@ == a.clients@.update(msg.client_id.index as int, ClientRecord { latest_height: msg.header.height })
    &&& b.consensus_states@ == a.consensus_states@.push(
        ConsensusEntry { client_id: msg.client_id, height: msg.header.height, state: msg.header.consensus_state })
    &&& only_clients_differ(a, b)
}

pub fn client_state_is_tendermint(msg: &MsgCreateClient) -> (r: Result<(), IbcError>)
    ensures
        r == (if msg.client_state is Tendermint {
            Ok::<(), IbcError>(())
        } else {
            Err(IbcError::InvalidClientType)
        }),
{
    match msg.client_state {
        AnyClientState::Tendermint(_) => Ok(()),
        AnyClientState::Unsupported => Err(IbcError::InvalidClientType),
    }
}

pub fn consensus_state_is_tendermint(msg: &MsgCreateClient) -> (r: Result<(), IbcError>)
    ensures
        r == (if msg.consensus_state is Tendermint {
            Ok::<(), IbcError>(())
        } else {
            Err(IbcError::InvalidClientType)
        }),
{
    match msg.consensus_state {
        AnyConsensusState::Tendermint(_) => Ok(()),
        AnyConsensusState::Unsupported => Err(IbcError::InvalidClientType),
    }
}

/// Checks that a new client is a supported pair of client and consensus
/// state.
pub fn check_create_client(msg: &MsgCreateClient) -> (r: Result<(), IbcError>)
    ensures
        r == create_client_outcome(*msg),
{
    client_state_is_tendermint(msg)?;
    consensus_state_is_tendermint(msg)?;
    Ok(())
}

impl IbcState {
    /// Creates a client under a fresh id and stores its initial consensus
    /// state at the client's declared height.
    pub fn execute_create_client(&mut self, msg: &MsgCreateClient) -> (r: Result<ClientId, IbcError>)
        requires
            old(self).clients@.len() < u64::MAX,
        ensures
            old(self).wf() ==> final(self).wf(),
            create_client_outcome(*msg) is Err ==> r == Err::<ClientId, IbcError>(IbcError::InvalidClientType)
                && *final(self) == *old(self),
            create_client_outcome(*msg) is Ok ==> r is Ok,
            r matches Ok(id) ==> id.index == old(self).clients@.len()
                && create_client_effect(*old(self), *final(self), *msg),
    {
        match (msg.client_state, msg.consensus_state) {
            (AnyClientState::Tendermint(cs), AnyConsensusState::Tendermint(cons)) => {
                let id = ClientId { index: self.clients.len() as u64 };
                self.clients.push(ClientRecord { latest_height: cs.latest_height });
                self.consensus_states.push(
                    ConsensusEntry { client_id: id, height: cs.latest_height, state: cons },
                );
                Ok(id)
            },
            _ => Err(IbcError::InvalidClientType),
        }
    }

    /// Checks an update of a client against a read-only view of the state.
    /// `verified` is the verdict of the client's header verification.
    pub fn check_update_client(&self, msg: &MsgUpdateClient, verified: bool) -> (r: Result<(), IbcError>)
        ensures
            r == update_client_outcome(*self, *msg, verified),
    {
        let i = msg.client_id.index;
        if i >= self.clients.len() as u64 {
            return Err(IbcError::ClientNotFound);
        }
        if msg.header.height <= self.clients[i as usize].latest_height {
            return Err(IbcError::StaleHeader);
        }
        if !verified {
            return Err(IbcError::HeaderVerificationFailed);
        }
        Ok(())
    }

    /// Stores the header's consensus state and advances the client's latest
    /// height to the header's. Fails, changing nothing, where the check of
    /// the update would fail on this state for a reason other than the
    /// header's verification.
    pub fn execute_update_client(&mut self, msg: &MsgUpdateClient) -> (r: Result<(), IbcError>)
        ensures
            old(self).wf() ==> final(self).wf(),
            r == update_client_outcome(*old(self), *msg, true),
            r is Err ==> *final(self) == *old(self),
            r is Ok ==> update_client_effect(*old(self), *final(self), *msg),
    {
        let c = self.check_update_client(msg, true);
        if c.is_err() {
            return c;
        }
        let i = msg.client_id.index as usize;
        self.clients.set(i, ClientRecord { latest_height: msg.header.height });
        self.consensus_states.push(
            ConsensusEntry {
                client_id: msg.client_id,
                height: msg.header.height,
                state: msg.header.consensus_state,
            },
        );
        Ok(())
    }
}

/// A client's latest height only moves forward: an update whose header is
/// not above the latest height is rejected as stale, and one whose header is
/// above it and verifies is accepted (its execution then sets the latest
/// height to exactly the header's).
pub proof fn lemma_client_height_monotonic(s: IbcState, msg: MsgUpdateClient, verified: bool)
    requires
        s.has_client(msg.client_id),
    ensures
        msg.header.height <= s.client(msg.client_id).latest_height
            ==> update_client_outcome(s, msg, verified) == Err::<(), IbcError>(IbcError::StaleHeader),
        update_client_outcome(s, msg, verified) is Ok
            <==> msg.header.height > s.client(msg.client_id).latest_height && verified,
{
}

} // verus!
