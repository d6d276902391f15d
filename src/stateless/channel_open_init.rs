use vstd::prelude::*;
use crate::channel::MsgChannelOpenInit;
use crate::error::IbcError;

verus! {

/// Only channels over exactly one connection hop are supported.
pub fn connection_hops_eq_1(msg: &MsgChannelOpenInit) -> (r: Result<(), IbcError>)
    ensures
        r == (if msg.connection_hops_on_a@.len() == 1 {
            Ok::<(), IbcError>(())
        } else {
            Err(IbcError::InvalidConnectionHops)
        }),
{
    if msg.connection_hops_on_a.len() != 1 {
        return Err(IbcError::InvalidConnectionHops);
    }
    Ok(())
}

} // verus!
