use vstd::prelude::*;

verus! {

/// A light client on this chain. Client `n` is written `07-tendermint-n`.
#[derive(Clone, Copy, Debug, PartialEq, Eq, Structural)]
pub struct ClientId {
    pub index: u64,
}

/// A connection end on this chain. Connection `n` is written `connection-n`.
#[derive(Clone, Copy, Debug, PartialEq, Eq, Structural)]
pub struct ConnectionId {
    pub index: u64,
}

/// A channel end on this chain. Channel `n` is written `channel-n`.
#[derive(Clone, Copy, Debug, PartialEq, Eq, Structural)]
pub struct ChannelId {
    pub index: u64,
}

/// The port an application module is bound to.
#[derive(Debug)]
pub struct PortId {
    pub name: String,
}

/// The one port with an application module behind it.
pub open spec fn transfer_port() -> Seq<char> {
    "transfer"@
}

impl PortId {
    pub fn new(name: String) -> (r: PortId)
        ensures
            r.name@ == name@,
    {
        PortId { name }
    }

    /// The port of the fungible token transfer application.
    pub fn transfer() -> (r: PortId)
        ensures
            r.name@ == transfer_port(),
    {
        PortId { name: "transfer".to_string() }
    }

    pub fn is_transfer(&self) -> (r: bool)
        ensures
            r == (self.name@ == transfer_port()),
    {
        let t = PortId::transfer();
        self.name == t.name
    }

    pub fn same(&self, other: &PortId) -> (r: bool)
        ensures
            r == (self.name@ == other.name@),
    {
        self.name == other.name
    }

    pub fn copy(&self) -> (r: PortId)
        ensures
            r.name@ == self.name@,
    {
        PortId { name: self.name.clone() }
    }
}

} // verus!
