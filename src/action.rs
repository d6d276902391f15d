use vstd::prelude::*;
use crate::channel::{
    chan_open_init_effect, chan_open_try_effect, channel_advanced, chan_close_confirm_outcome, chan_close_init_outcome, chan_open_ack_outcome, chan_open_confirm_outcome,
    chan_open_init_outcome, chan_open_try_outcome, MsgChannelCloseConfirm, MsgChannelCloseInit,
    MsgChannelOpenAck, MsgChannelOpenConfirm, MsgChannelOpenInit, MsgChannelOpenTry,
};
use crate::client::{
    check_create_client, create_client_effect, create_client_outcome, update_client_effect, update_client_outcome, MsgCreateClient, MsgUpdateClient,
};
use crate::connection::{
    open_ack_effect, open_ack_outcome, open_confirm_effect, open_confirm_outcome, open_init_effect,
    open_init_outcome, open_try_effect, open_try_outcome, MsgConnectionOpenAck,
    MsgConnectionOpenConfirm, MsgConnectionOpenInit, MsgConnectionOpenTry,
};
use crate::error::IbcError;
use crate::packet::{
    ack_effect, ack_outcome, recv_effect, recv_outcome, timeout_effect, timeout_outcome, MsgAcknowledgement, MsgRecvPacket, MsgTimeout,
};
use crate::state::{ChannelState, IbcState};
use crate::transfer::{success_ack, EscrowAction};
use crate::transaction::{all_distinct, first_repeat, no_duplicate_nullifiers, valid_binding_signature, Nullifier, TxError};

verus! {

/// One action of a transaction.
#[derive(Debug)]
pub enum Action {
    /// A spend of a note, revealing its nullifier.
    Spend(Nullifier),
    CreateClient(MsgCreateClient),
    UpdateClient(MsgUpdateClient),
    ConnectionOpenInit(MsgConnectionOpenInit),
    ConnectionOpenTry(MsgConnectionOpenTry),
    ConnectionOpenAck(MsgConnectionOpenAck),
    ConnectionOpenConfirm(MsgConnectionOpenConfirm),
    ChannelOpenInit(MsgChannelOpenInit),
    ChannelOpenTry(MsgChannelOpenTry),
    ChannelOpenAck(MsgChannelOpenAck),
    ChannelOpenConfirm(MsgChannelOpenConfirm),
    ChannelCloseInit(MsgChannelCloseInit),
    ChannelCloseConfirm(MsgChannelCloseConfirm),
    RecvPacket(MsgRecvPacket),
    Acknowledgement(MsgAcknowledgement),
    Timeout(MsgTimeout),
}

/// Why a transaction was excluded from a block.
#[derive(Clone, Copy, Debug, PartialEq, Eq)]
pub enum Rejection {
    /// The action at this position failed its stateless check.
    Stateless(usize, IbcError),
    /// A transaction-wide check failed.
    Transaction(TxError),
    /// The action at this position failed its stateful check.
    Stateful(usize, IbcError),
}

/// A transaction: its actions, in order.
#[derive(Debug)]
pub struct Transaction {
    pub actions: Vec<Action>,
}

pub open spec fn stateless_outcome(a: Action) -> Result<(), IbcError> {
    match a {
        Action::CreateClient(m) => create_client_outcome(m),
        Action::ChannelOpenInit(m) => if m.connection_hops_on_a@.len() == 1 {
            Ok(())
        } else {
            Err(IbcError::InvalidConnectionHops)
        },
        Action::ChannelOpenTry(m) => if m.connection_hops_on_b@.len() == 1 {
            Ok(())
        } else {
            Err(IbcError::InvalidConnectionHops)
        },
        _ => Ok(()),
    }
}

/// What the stateful check of `a` yields on `s`; `verified` is the verdict
/// of the proof or header verification the action carries.
pub open spec fn stateful_outcome(s: IbcState, a: Action, verified: bool) -> Result<(), IbcError> {
    match a {
        Action::Spend(_) => Ok(()),
        Action::CreateClient(m) => create_client_outcome(m),
        Action::UpdateClient(m) => update_client_outcome(s, m, verified),
        Action::ConnectionOpenInit(m) => open_init_outcome(s, m),
        Action::ConnectionOpenTry(m) => open_try_outcome(s, m, verified),
        Action::ConnectionOpenAck(m) => open_ack_outcome(s, m, verified),
        Action::ConnectionOpenConfirm(m) => open_confirm_outcome(s, m, verified),
        Action::ChannelOpenInit(m) => chan_open_init_outcome(s, m),
        Action::ChannelOpenTry(m) => chan_open_try_outcome(s, m, verified),
        Action::ChannelOpenAck(m) => chan_open_ack_outcome(s, m, verified),
        Action::ChannelOpenConfirm(m) => chan_open_confirm_outcome(s, m, verified),
        Action::ChannelCloseInit(m) => chan_close_init_outcome(s, m),
        Action::ChannelCloseConfirm(m) => chan_close_confirm_outcome(s, m, verified),
        Action::RecvPacket(m) => recv_outcome(s, m, verified),
        Action::Acknowledgement(m) => ack_outcome(s, m, verified),
        Action::Timeout(m) => timeout_outcome(s, m, verified),
    }
}

/// `b` is the state after `a` executes on `s`. A spend leaves the protocol
/// state as it is.
pub open spec fn executed(s: IbcState, b: IbcState, a: Action) -> bool {
    match a {
        Action::Spend(_) => b == s,
        Action::CreateClient(m) => create_client_effect(s, b, m),
        Action::UpdateClient(m) => update_client_effect(s, b, m),
        Action::ConnectionOpenInit(m) => open_init_effect(s, b, m),
        Action::ConnectionOpenTry(m) => open_try_effect(s, b, m),
        Action::ConnectionOpenAck(m) => open_ack_effect(s, b, m),
        Action::ConnectionOpenConfirm(m) => open_confirm_effect(s, b, m),
        Action::ChannelOpenInit(m) => chan_open_init_effect(s, b, m),
        Action::ChannelOpenTry(m) => chan_open_try_effect(s, b, m),
        Action::ChannelOpenAck(m) => channel_advanced(s, b, m.chan_id_on_a.index as int, ChannelState::Open,
            Some(m.chan_id_on_b)),
        Action::ChannelOpenConfirm(m) => channel_advanced(s, b, m.chan_id_on_b.index as int, ChannelState::Open,
            s.channel(m.chan_id_on_b).counterparty.channel_id),
        Action::ChannelCloseInit(m) => channel_advanced(s, b, m.chan_id_on_a.index as int, ChannelState::Closed,
            s.channel(m.chan_id_on_a).counterparty.channel_id),
        Action::ChannelCloseConfirm(m) => channel_advanced(s, b, m.chan_id_on_b.index as int,
            ChannelState::Closed, s.channel(m.chan_id_on_b).counterparty.channel_id),
        Action::RecvPacket(m) => recv_effect(s, b, m),
        Action::Acknowledgement(m) => ack_effect(s, b, m),
        Action::Timeout(m) => timeout_effect(s, b, m),
    }
}

/// What becomes of escrowed value when `a` executes: only acknowledgements
/// and timeouts close a round trip.
pub open spec fn escrow_of(a: Action) -> Option<EscrowAction> {
    match a {
        Action::Acknowledgement(m) => Some(if m.acknowledgement@ == success_ack() {
            EscrowAction::Finalize
        } else {
            EscrowAction::Refund
        }),
        Action::Timeout(_) => Some(EscrowAction::Refund),
        _ => None,
    }
}

/// The nullifiers that the spends of `actions` reveal, in order.
pub open spec fn spent_nullifiers(actions: Seq<Action>) -> Seq<Nullifier>
    decreases actions.len(),
{
    if actions.len() == 0 {
        Seq::empty()
    } else {
        match actions.last() {
            Action::Spend(n) => spent_nullifiers(actions.drop_last()).push(n),
            _ => spent_nullifiers(actions.drop_last()),
        }
    }
}

/// Checks `a` on its own, reading no state.
pub fn check_stateless(a: &Action) -> (r: Result<(), IbcError>)
    ensures
        r == stateless_outcome(*a),
{
    match a {
        Action::CreateClient(m) => check_create_client(m),
        Action::ChannelOpenInit(m) => crate::stateless::channel_open_init::connection_hops_eq_1(m),
        Action::ChannelOpenTry(m) => crate::stateless::channel_open_try::connection_hops_eq_1(m),
        _ => Ok(()),
    }
}

/// Checks `a` against a read-only view of the state.
pub fn check_stateful(s: &IbcState, a: &Action, verified: bool) -> (r: Result<(), IbcError>)
    ensures
        r == stateful_outcome(*s, *a, verified),
{
    match a {
        Action::Spend(_) => Ok(()),
        Action::CreateClient(m) => check_create_client(m),
        Action::UpdateClient(m) => s.check_update_client(m, verified),
        Action::ConnectionOpenInit(m) => s.check_connection_open_init(m),
        Action::ConnectionOpenTry(m) => s.check_connection_open_try(m, verified),
        Action::ConnectionOpenAck(m) => s.check_connection_open_ack(m, verified),
        Action::ConnectionOpenConfirm(m) => s.check_connection_open_confirm(m, verified),
        Action::ChannelOpenInit(m) => s.check_channel_open_init(m),
        Action::ChannelOpenTry(m) => s.check_channel_open_try(m, verified),
        Action::ChannelOpenAck(m) => s.check_channel_open_ack(m, verified),
        Action::ChannelOpenConfirm(m) => s.check_channel_open_confirm(m, verified),
        Action::ChannelCloseInit(m) => s.check_channel_close_init(m),
        Action::ChannelCloseConfirm(m) => s.check_channel_close_confirm(m, verified),
        Action::RecvPacket(m) => s.check_recv_packet(m, verified),
        Action::Acknowledgement(m) => s.check_acknowledgement(m, verified),
        Action::Timeout(m) => s.check_timeout(m, verified),
    }
}

/// Executes `a` on the state, and returns what becomes of escrowed value
/// where `a` closes a packet's round trip. An error here means that an
/// action whose checks passed no longer applies to the state it meets: a
/// fault to be reported, not a rejection. The state is then left as it was.
pub fn execute(s: &mut IbcState, a: &Action) -> (r: Result<Option<EscrowAction>, IbcError>)
    requires
        old(s).clients@.len() < u64::MAX,
        old(s).connections@.len() < u64::MAX,
        old(s).channels@.len() < u64::MAX,
    ensures
        old(s).wf() ==> final(s).wf(),
        r is Ok <==> stateful_outcome(*old(s), *a, true) is Ok,
        r matches Err(e) ==> stateful_outcome(*old(s), *a, true) == Err::<(), IbcError>(e)
            && *final(s) == *old(s),
        r is Ok ==> executed(*old(s), *final(s), *a) && r == Ok::<Option<EscrowAction>, IbcError>(escrow_of(*a)),
{
    match a {
        Action::Spend(_) => Ok(None),
        Action::CreateClient(m) => match s.execute_create_client(m) {
            Ok(_) => Ok(None),
            Err(e) => Err(e),
        },
        Action::UpdateClient(m) => match s.execute_update_client(m) {
            Ok(()) => Ok(None),
            Err(e) => Err(e),
        },
        Action::ConnectionOpenInit(m) => match s.execute_connection_open_init(m) {
            Ok(_) => Ok(None),
            Err(e) => Err(e),
        },
        Action::ConnectionOpenTry(m) => match s.execute_connection_open_try(m) {
            Ok(_) => Ok(None),
            Err(e) => Err(e),
        },
        Action::ConnectionOpenAck(m) => match s.execute_connection_open_ack(m) {
            Ok(()) => Ok(None),
            Err(e) => Err(e),
        },
        Action::ConnectionOpenConfirm(m) => match s.execute_connection_open_confirm(m) {
            Ok(()) => Ok(None),
            Err(e) => Err(e),
        },
        Action::ChannelOpenInit(m) => match s.execute_channel_open_init(m) {
            Ok(_) => Ok(None),
            Err(e) => Err(e),
        },
        Action::ChannelOpenTry(m) => match s.execute_channel_open_try(m) {
            Ok(_) => Ok(None),
            Err(e) => Err(e),
        },
        Action::ChannelOpenAck(m) => match s.execute_channel_open_ack(m) {
            Ok(()) => Ok(None),
            Err(e) => Err(e),
        },
        Action::ChannelOpenConfirm(m) => match s.execute_channel_open_confirm(m) {
            Ok(()) => Ok(None),
            Err(e) => Err(e),
        },
        Action::ChannelCloseInit(m) => match s.execute_channel_close_init(m) {
            Ok(()) => Ok(None),
            Err(e) => Err(e),
        },
        Action::ChannelCloseConfirm(m) => match s.execute_channel_close_confirm(m) {
            Ok(()) => Ok(None),
            Err(e) => Err(e),
        },
        Action::RecvPacket(m) => match s.execute_recv_packet(m) {
            Ok(()) => Ok(None),
            Err(e) => Err(e),
        },
        Action::Acknowledgement(m) => match s.execute_acknowledgement(m) {
            Ok(x) => Ok(Some(x)),
            Err(e) => Err(e),
        },
        Action::Timeout(m) => match s.execute_timeout(m) {
            Ok(x) => Ok(Some(x)),
            Err(e) => Err(e),
        },
    }
}

/// Every action of `actions` passes its stateless check.
pub open spec fn all_stateless_ok(actions: Seq<Action>) -> bool {
    forall|i: int| 0 <= i < actions.len() ==> (#[trigger] stateless_outcome(actions[i])) is Ok
}

/// Every action of `actions` passes its stateful check on `s`, the `i`th
/// with verdict `verdicts[i]`.
pub open spec fn all_stateful_ok(s: IbcState, actions: Seq<Action>, verdicts: Seq<bool>) -> bool {
    forall|i: int| 0 <= i < actions.len() ==> (#[trigger] stateful_outcome(s, actions[i], verdicts[i])) is Ok
}

impl Transaction {
    /// The nullifiers revealed by the transaction's spends, in order.
    pub fn spent_nullifiers(&self) -> (r: Vec<Nullifier>)
        ensures
            r@ == spent_nullifiers(self.actions@),
    {
        let mut r: Vec<Nullifier> = Vec::new();
        let mut i: usize = 0;
        while i < self.actions.len()
            invariant
                i <= self.actions@.len(),
                r@ == spent_nullifiers(self.actions@.subrange(0, i as int)),
            decreases self.actions@.len() - i,
        {
            proof {
                assert(self.actions@.subrange(0, i + 1).drop_last() =~= self.actions@.subrange(0, i as int));
            }
            match &self.actions[i] {
                Action::Spend(n) => r.push(*n),
                _ => {},
            }
            i = i + 1;
        }
        assert(self.actions@.subrange(0, i as int) =~= self.actions@);
        r
    }

    /// The checks that need every action at once: the binding signature
    /// (`binding_verified` is its verdict over the canonical body) and no
    /// nullifier revealed twice.
    pub fn check_transaction_wide(&self, binding_verified: bool) -> (r: Result<(), TxError>)
        ensures
            r is Ok <==> binding_verified && all_distinct(spent_nullifiers(self.actions@)),
            !binding_verified ==> r == Err::<(), TxError>(TxError::BindingSignatureInvalid),
            r matches Err(e) ==> self.check_transaction_wide_spec(binding_verified, e),
    {
        match valid_binding_signature(binding_verified) {
            Ok(()) => {},
            Err(e) => return Err(e),
        }
        let nullifiers = self.spent_nullifiers();
        no_duplicate_nullifiers(&nullifiers)
    }

    /// Runs every check of the transaction against a read-only view of the
    /// state: first each action's stateless check, then the
    /// transaction-wide checks, then each action's stateful check, where
    /// `verdicts[i]` is the verdict of the proof that action `i` carries.
    /// The first failure is reported.
    pub fn check(&self, s: &IbcState, verdicts: &Vec<bool>, binding_verified: bool) -> (r: Result<(), Rejection>)
        requires
            verdicts@.len() == self.actions@.len(),
        ensures
            r is Ok <==> all_stateless_ok(self.actions@) && binding_verified
                && all_distinct(spent_nullifiers(self.actions@)) && all_stateful_ok(*s, self.actions@, verdicts@),
            r matches Err(Rejection::Stateless(i, e)) ==> i < self.actions@.len()
                && stateless_outcome(self.actions@[i as int]) == Err::<(), IbcError>(e),
            r matches Err(Rejection::Stateful(i, e)) ==> i < self.actions@.len()
                && stateful_outcome(*s, self.actions@[i as int], verdicts@[i as int]) == Err::<(), IbcError>(e),
            r matches Err(Rejection::Transaction(e)) ==> self.check_transaction_wide_spec(binding_verified, e),
    {
        let mut i: usize = 0;
        while i < self.actions.len()
            invariant
                i <= self.actions@.len(),
                forall|k: int| 0 <= k < i ==> (#[trigger] stateless_outcome(self.actions@[k])) is Ok,
            decreases self.actions@.len() - i,
        {
            match check_stateless(&self.actions[i]) {
                Ok(()) => {},
                Err(e) => return Err(Rejection::Stateless(i, e)),
            }
            i = i + 1;
        }
        match self.check_transaction_wide(binding_verified) {
            Ok(()) => {},
            Err(e) => return Err(Rejection::Transaction(e)),
        }
        let mut i: usize = 0;
        while i < self.actions.len()
            invariant
                i <= self.actions@.len(),
                verdicts@.len() == self.actions@.len(),
                forall|k: int| 0 <= k < i ==> (#[trigger] stateful_outcome(*s, self.actions@[k], verdicts@[k])) is Ok,
            decreases self.actions@.len() - i,
        {
            match check_stateful(s, &self.actions[i], verdicts[i]) {
                Ok(()) => {},
                Err(e) => return Err(Rejection::Stateful(i, e)),
            }
            i = i + 1;
        }
        Ok(())
    }

    /// `e` is an error that the transaction-wide checks may report.
    pub open spec fn check_transaction_wide_spec(&self, binding_verified: bool, e: TxError) -> bool {
        if !binding_verified {
            e == TxError::BindingSignatureInvalid
        } else {
            exists|j: int| first_repeat(spent_nullifiers(self.actions@), j)
                && e == TxError::DuplicateNullifier(spent_nullifiers(self.actions@)[j])
        }
    }
}

} // verus!
