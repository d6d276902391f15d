use vstd::prelude::*;
use crate::error::IbcError;
use crate::ident::PortId;
use crate::state::Order;

verus! {

/// The application modules that ports can be bound to.
#[derive(Clone, Copy, Debug, PartialEq, Eq, Structural)]
pub enum AppModule {
    /// Fungible token transfer, bound to the port `transfer`.
    Transfer,
}

/// Finds the module bound to `port`; only the transfer module is bound.
pub fn route(port: &PortId) -> (r: Result<AppModule, IbcError>)
    ensures
        r is Ok <==> port.name@ == crate::ident::transfer_port(),
        r is Ok ==> r == Ok::<AppModule, IbcError>(AppModule::Transfer),
        r is Err ==> r == Err::<AppModule, IbcError>(IbcError::InvalidPort),
{
    if port.is_transfer() {
        Ok(AppModule::Transfer)
    } else {
        Err(IbcError::InvalidPort)
    }
}

/// Whether `module` accepts a channel with the given ordering. Token
/// transfers run over unordered channels only.
pub open spec fn accepts_ordering(module: AppModule, ordering: Order) -> bool {
    match module {
        AppModule::Transfer => ordering == Order::Unordered,
    }
}

/// The application's check of a channel being opened.
pub fn chan_open_check(module: AppModule, ordering: Order) -> (r: Result<(), IbcError>)
    ensures
        r == (if accepts_ordering(module, ordering) {
            Ok::<(), IbcError>(())
        } else {
            Err(IbcError::ApplicationRejected)
        }),
{
    match module {
        AppModule::Transfer => {
            if ordering == Order::Unordered {
                Ok(())
            } else {
                Err(IbcError::ApplicationRejected)
            }
        },
    }
}

/// Whether `module` lets a channel be closed from this side. Token
/// transfers never do: closing would strand the escrowed value.
pub open spec fn accepts_close_init(module: AppModule) -> bool {
    match module {
        AppModule::Transfer => false,
    }
}

/// The application's check of a channel being closed from this side.
pub fn chan_close_init_check(module: AppModule) -> (r: Result<(), IbcError>)
    ensures
        r == (if accepts_close_init(module) {
            Ok::<(), IbcError>(())
        } else {
            Err(IbcError::ApplicationRejected)
        }),
{
    match module {
        AppModule::Transfer => Err(IbcError::ApplicationRejected),
    }
}

/// The acknowledgement the application writes for a packet it received:
/// the single byte 1, signalling success.
pub open spec fn success_ack() -> Seq<u8> {
    seq![1u8]
}

/// Hands a received packet to the application and returns its
/// acknowledgement.
pub fn recv_packet_execute(module: AppModule) -> (r: Vec<u8>)
    ensures
        r@ == success_ack(),
{
    match module {
        AppModule::Transfer => vec![1u8],
    }
}

/// What must happen to the value a sent packet escrowed, once its round
/// trip closes.
#[derive(Clone, Copy, Debug, PartialEq, Eq, Structural)]
pub enum EscrowAction {
    /// The counterparty accepted the packet: the escrow stands.
    Finalize,
    /// The packet failed or timed out: the escrowed value goes back to the
    /// sender.
    Refund,
}

/// Hands an acknowledgement to the application and returns what becomes of
/// the escrowed value: it stands where the acknowledgement signals success.
pub fn acknowledge_packet_execute(module: AppModule, ack: &Vec<u8>) -> (r: EscrowAction)
    ensures
        r == (if ack@ == success_ack() {
            EscrowAction::Finalize
        } else {
            EscrowAction::Refund
        }),
{
    match module {
        AppModule::Transfer => {
            if ack.len() == 1 && ack[0] == 1u8 {
                assert(ack@ =~= success_ack());
                EscrowAction::Finalize
            } else {
                EscrowAction::Refund
            }
        },
    }
}

/// Hands a timed-out packet to the application, which refunds its escrow.
pub fn timeout_packet_execute(module: AppModule) -> (r: EscrowAction)
    ensures
        r == EscrowAction::Refund,
{
    match module {
        AppModule::Transfer => EscrowAction::Refund,
    }
}

} // verus!
