use vstd::prelude::*;
use crate::client::{Header, TmClientState};
use crate::encoding::{encode_hex, hex_of};
use crate::ident::{ChannelId, ClientId, ConnectionId, PortId};
use crate::packet::Packet;
use crate::state::{ChannelEnd, ConnectionCounterparty, ConnectionEnd, Order};

verus! {

/// Which transition an audit event reports.
#[derive(Clone, Copy, Debug, PartialEq, Eq, Structural)]
pub enum EventKind {
    CreateClient,
    UpdateClient,
    ConnectionOpenInit,
    ConnectionOpenTry,
    ConnectionOpenAck,
    ConnectionOpenConfirm,
    ChannelOpenInit,
    ChannelOpenTry,
    ChannelOpenAck,
    ChannelOpenConfirm,
    ChannelCloseInit,
    ChannelCloseConfirm,
    RecvPacket,
    AcknowledgePacket,
    TimeoutPacket,
}

/// A client was created or updated. Every client is a Tendermint client.
#[derive(Clone, Copy, Debug)]
pub struct ClientEvent {
    pub kind: EventKind,
    pub client_id: ClientId,
    pub consensus_height: u64,
    /// The header of an update.
    pub header: Option<Header>,
}

#[derive(Clone, Copy, Debug)]
pub struct ConnectionEvent {
    pub kind: EventKind,
    pub connection_id: ConnectionId,
    pub client_id: ClientId,
    pub counterparty_client_id: ClientId,
    pub counterparty_connection_id: Option<ConnectionId>,
}

#[derive(Debug)]
pub struct ChannelEvent {
    pub kind: EventKind,
    pub port_id: PortId,
    pub channel_id: ChannelId,
    pub counterparty_port_id: PortId,
    pub counterparty_channel_id: Option<ChannelId>,
    pub connection_id: ConnectionId,
}

#[derive(Debug)]
pub struct PacketEvent {
    pub kind: EventKind,
    /// The packet's data in lowercase hexadecimal.
    pub data_hex: String,
    pub timeout_height: u64,
    pub timeout_timestamp: u64,
    pub sequence: u64,
    pub src_port: PortId,
    pub src_channel: ChannelId,
    pub dst_port: PortId,
    pub dst_channel: ChannelId,
    pub ordering: Order,
    pub connection_id: ConnectionId,
}

/// An indexed event that a successful transition emits for indexers.
#[derive(Debug)]
pub enum IbcEvent {
    Client(ClientEvent),
    Connection(ConnectionEvent),
    Channel(ChannelEvent),
    Packet(PacketEvent),
}

pub fn create_client(client_id: ClientId, client_state: TmClientState) -> (r: IbcEvent)
    ensures
        r == IbcEvent::Client(ClientEvent {
            kind: EventKind::CreateClient,
            client_id,
            consensus_height: client_state.latest_height,
            header: None,
        }),
{
    IbcEvent::Client(ClientEvent {
        kind: EventKind::CreateClient,
        client_id,
        consensus_height: client_state.latest_height,
        header: None,
    })
}

pub fn update_client(client_id: ClientId, header: Header) -> (r: IbcEvent)
    ensures
        r == IbcEvent::Client(ClientEvent {
            kind: EventKind::UpdateClient,
            client_id,
            consensus_height: header.height,
            header: Some(header),
        }),
{
    IbcEvent::Client(ClientEvent {
        kind: EventKind::UpdateClient,
        client_id,
        consensus_height: header.height,
        header: Some(header),
    })
}

pub open spec fn spec_connection_event(
    kind: EventKind,
    connection_id: ConnectionId,
    client_id: ClientId,
    counterparty: ConnectionCounterparty,
) -> IbcEvent {
    IbcEvent::Connection(ConnectionEvent {
        kind,
        connection_id,
        client_id,
        counterparty_client_id: counterparty.client_id,
        counterparty_connection_id: counterparty.connection_id,
    })
}

fn connection_event(
    kind: EventKind,
    connection_id: ConnectionId,
    client_id: ClientId,
    counterparty: ConnectionCounterparty,
) -> (r: IbcEvent)
    ensures
        r == spec_connection_event(kind, connection_id, client_id, counterparty),
{
    IbcEvent::Connection(ConnectionEvent {
        kind,
        connection_id,
        client_id,
        counterparty_client_id: counterparty.client_id,
        counterparty_connection_id: counterparty.connection_id,
    })
}

pub fn connection_open_init(connection_id: &ConnectionId, client_id: &ClientId, counterparty: &ConnectionCounterparty) -> (r: IbcEvent)
    ensures
        r == spec_connection_event(EventKind::ConnectionOpenInit, *connection_id, *client_id, *counterparty),
{
    connection_event(EventKind::ConnectionOpenInit, *connection_id, *client_id, *counterparty)
}

pub fn connection_open_try(connection_id: &ConnectionId, client_id: &ClientId, counterparty: &ConnectionCounterparty) -> (r: IbcEvent)
    ensures
        r == spec_connection_event(EventKind::ConnectionOpenTry, *connection_id, *client_id, *counterparty),
{
    connection_event(EventKind::ConnectionOpenTry, *connection_id, *client_id, *counterparty)
}

pub fn connection_open_ack(connection_id: &ConnectionId, connection_end: &ConnectionEnd) -> (r: IbcEvent)
    ensures
        r == spec_connection_event(EventKind::ConnectionOpenAck, *connection_id, connection_end.client_id,
            connection_end.counterparty),
{
    connection_event(EventKind::ConnectionOpenAck, *connection_id, connection_end.client_id, connection_end.counterparty)
}

pub fn connection_open_confirm(connection_id: &ConnectionId, connection_end: &ConnectionEnd) -> (r: IbcEvent)
    ensures
        r == spec_connection_event(EventKind::ConnectionOpenConfirm, *connection_id, connection_end.client_id,
            connection_end.counterparty),
{
    connection_event(EventKind::ConnectionOpenConfirm, *connection_id, connection_end.client_id, connection_end.counterparty)
}

/// `e` reports `kind` for channel `channel_id` on `port_id` with end `ch`.
pub open spec fn is_channel_event(e: IbcEvent, kind: EventKind, port_id: PortId, channel_id: ChannelId, ch: ChannelEnd) -> bool {
    &&& e is Channel
    &&& e->Channel_0.kind == kind
    &&& e->Channel_0.port_id.name@ == port_id.name@
    &&& e->Channel_0.channel_id == channel_id
    &&& e->Channel_0.counterparty_port_id.name@ == ch.counterparty.port_id.name@
    &&& e->Channel_0.counterparty_channel_id == ch.counterparty.channel_id
    &&& e->Channel_0.connection_id == ch.connection_id
}

fn channel_event(kind: EventKind, port_id: &PortId, channel_id: &ChannelId, channel: &ChannelEnd) -> (r: IbcEvent)
    ensures
        is_channel_event(r, kind, *port_id, *channel_id, *channel),
{
    IbcEvent::Channel(ChannelEvent {
        kind,
        port_id: port_id.copy(),
        channel_id: *channel_id,
        counterparty_port_id: channel.counterparty.port_id.copy(),
        counterparty_channel_id: channel.counterparty.channel_id,
        connection_id: channel.connection_id,
    })
}

pub fn channel_open_init(port_id: &PortId, channel_id: &ChannelId, channel: &ChannelEnd) -> (r: IbcEvent)
    ensures
        is_channel_event(r, EventKind::ChannelOpenInit, *port_id, *channel_id, *channel),
{
    channel_event(EventKind::ChannelOpenInit, port_id, channel_id, channel)
}

pub fn channel_open_try(port_id: &PortId, channel_id: &ChannelId, channel: &ChannelEnd) -> (r: IbcEvent)
    ensures
        is_channel_event(r, EventKind::ChannelOpenTry, *port_id, *channel_id, *channel),
{
    channel_event(EventKind::ChannelOpenTry, port_id, channel_id, channel)
}

pub fn channel_open_ack(port_id: &PortId, channel_id: &ChannelId, channel: &ChannelEnd) -> (r: IbcEvent)
    ensures
        is_channel_event(r, EventKind::ChannelOpenAck, *port_id, *channel_id, *channel),
{
    channel_event(EventKind::ChannelOpenAck, port_id, channel_id, channel)
}

pub fn channel_open_confirm(port_id: &PortId, channel_id: &ChannelId, channel: &ChannelEnd) -> (r: IbcEvent)
    ensures
        is_channel_event(r, EventKind::ChannelOpenConfirm, *port_id, *channel_id, *channel),
{
    channel_event(EventKind::ChannelOpenConfirm, port_id, channel_id, channel)
}

pub fn channel_close_init(port_id: &PortId, channel_id: &ChannelId, channel: &ChannelEnd) -> (r: IbcEvent)
    ensures
        is_channel_event(r, EventKind::ChannelCloseInit, *port_id, *channel_id, *channel),
{
    channel_event(EventKind::ChannelCloseInit, port_id, channel_id, channel)
}

pub fn channel_close_confirm(port_id: &PortId, channel_id: &ChannelId, channel: &ChannelEnd) -> (r: IbcEvent)
    ensures
        is_channel_event(r, EventKind::ChannelCloseConfirm, *port_id, *channel_id, *channel),
{
    channel_event(EventKind::ChannelCloseConfirm, port_id, channel_id, channel)
}

/// `e` reports `kind` for packet `p` travelling over channel end `ch`.
pub open spec fn is_packet_event(e: IbcEvent, kind: EventKind, p: Packet, ch: ChannelEnd) -> bool {
    &&& e is Packet
    &&& e->Packet_0.kind == kind
    &&& e->Packet_0.data_hex@ == hex_of(p.data@)
    &&& e->Packet_0.timeout_height == p.timeout_height_on_b
    &&& e->Packet_0.timeout_timestamp == p.timeout_timestamp_on_b
    &&& e->Packet_0.sequence == p.sequence
    &&& e->Packet_0.src_port.name@ == p.port_on_a.name@
    &&& e->Packet_0.src_channel == p.chan_on_a
    &&& e->Packet_0.dst_port.name@ == p.port_on_b.name@
    &&& e->Packet_0.dst_channel == p.chan_on_b
    &&& e->Packet_0.ordering == ch.ordering
    &&& e->Packet_0.connection_id == ch.connection_id
}

fn packet_event(kind: EventKind, packet: &Packet, channel: &ChannelEnd) -> (r: IbcEvent)
    ensures
        is_packet_event(r, kind, *packet, *channel),
{
    IbcEvent::Packet(PacketEvent {
        kind,
        data_hex: encode_hex(&packet.data),
        timeout_height: packet.timeout_height_on_b,
        timeout_timestamp: packet.timeout_timestamp_on_b,
        sequence: packet.sequence,
        src_port: packet.port_on_a.copy(),
        src_channel: packet.chan_on_a,
        dst_port: packet.port_on_b.copy(),
        dst_channel: packet.chan_on_b,
        ordering: channel.ordering,
        connection_id: channel.connection_id,
    })
}

pub fn receive_packet(packet: &Packet, channel: &ChannelEnd) -> (r: IbcEvent)
    ensures
        is_packet_event(r, EventKind::RecvPacket, *packet, *channel),
{
    packet_event(EventKind::RecvPacket, packet, channel)
}

pub fn acknowledge_packet(packet: &Packet, channel: &ChannelEnd) -> (r: IbcEvent)
    ensures
        is_packet_event(r, EventKind::AcknowledgePacket, *packet, *channel),
{
    packet_event(EventKind::AcknowledgePacket, packet, channel)
}

pub fn timeout_packet(packet: &Packet, channel: &ChannelEnd) -> (r: IbcEvent)
    ensures
        is_packet_event(r, EventKind::TimeoutPacket, *packet, *channel),
{
    packet_event(EventKind::TimeoutPacket, packet, channel)
}

} // verus!
