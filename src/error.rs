use vstd::prelude::*;

verus! {

/// Why a message was rejected by a check. A rejection excludes the
/// transaction that carries the message; chain state is left unchanged.
#[derive(Clone, Copy, Debug, PartialEq, Eq, Structural)]
pub enum IbcError {
    /// The client or consensus state is not of a supported type.
    InvalidClientType,
    /// No client with the given id exists.
    ClientNotFound,
    /// A header does not advance the client's latest height.
    StaleHeader,
    /// A header does not pass the client's verification.
    HeaderVerificationFailed,
    /// No consensus state is recorded for the client at the proof height.
    ClientStateNotFound,
    /// A proof of counterparty state does not verify.
    ProofVerificationFailed,
    /// No connection with the given id exists.
    ConnectionNotFound,
    /// The connection is not in the state the message requires.
    InvalidConnectionState,
    /// The message names no counterparty connection.
    MissingCounterpartyConnection,
    /// A channel does not run over exactly one connection hop.
    InvalidConnectionHops,
    /// No channel with the given id exists.
    ChannelNotFound,
    /// The channel is not in the state the message requires.
    InvalidChannelState,
    /// The message names no counterparty channel.
    MissingCounterpartyChannel,
    /// No application module is bound to the port, or the port does not
    /// match the channel.
    InvalidPort,
    /// The application module refuses the operation.
    ApplicationRejected,
    /// The packet does not name the channel's counterparty.
    CounterpartyMismatch,
    /// A receive, acknowledgement or timeout for this sequence already
    /// completed on this channel.
    PacketAlreadyProcessed,
    /// There is no outbound packet commitment for this sequence.
    PacketCommitmentNotFound,
    /// The packet's timeout has passed on this chain.
    PacketTimedOut,
    /// The packet has not timed out on the counterparty.
    TimeoutNotReached,
    /// The sequence is not the one an ordered channel expects.
    InvalidSequence,
}

} // verus!
