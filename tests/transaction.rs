use penumbra_ibc_core::action::{check_stateful, check_stateless, execute, Action, Rejection, Transaction};
use penumbra_ibc_core::client::{Header, MsgUpdateClient};
use penumbra_ibc_core::ident::ClientId;
use penumbra_ibc_core::balance::BalanceCmd;
use penumbra_ibc_core::client::{AnyClientState, AnyConsensusState, MsgCreateClient, TmClientState};
use penumbra_ibc_core::error::IbcError;
use penumbra_ibc_core::governance::{Governance, GovernanceState};
use penumbra_ibc_core::reserves::{Amount, Reserves, ReservesError, ReservesProto, MAX_RESERVE_AMOUNT};
use penumbra_ibc_core::state::{ConsensusState, IbcState};
use penumbra_ibc_core::transaction::{no_duplicate_nullifiers, valid_binding_signature, Nullifier, TxError};

fn nf(x: u64) -> Nullifier {
    Nullifier { l0: x, l1: 0, l2: x, l3: 1 }
}

#[test]
fn duplicate_nullifier_rejects_transaction() {
    let tx = Transaction { actions: vec![Action::Spend(nf(1)), Action::Spend(nf(2)), Action::Spend(nf(1))] };
    assert_eq!(tx.spent_nullifiers(), vec![nf(1), nf(2), nf(1)]);
    assert_eq!(tx.check_transaction_wide(true), Err(TxError::DuplicateNullifier(nf(1))));
    assert_eq!(no_duplicate_nullifiers(&vec![nf(3), nf(3)]), Err(TxError::DuplicateNullifier(nf(3))));
}

#[test]
fn distinct_nullifiers_and_valid_signature_accepted() {
    let create = MsgCreateClient {
        client_state: AnyClientState::Tendermint(TmClientState { latest_height: 1 }),
        consensus_state: AnyConsensusState::Tendermint(ConsensusState { root: [0; 32], timestamp: 0 }),
    };
    let tx = Transaction {
        actions: vec![Action::Spend(nf(1)), Action::CreateClient(create), Action::Spend(nf(2))],
    };
    assert_eq!(tx.spent_nullifiers(), vec![nf(1), nf(2)]);
    assert_eq!(tx.check_transaction_wide(true), Ok(()));
    assert_eq!(tx.check_transaction_wide(false), Err(TxError::BindingSignatureInvalid));
    assert_eq!(valid_binding_signature(false), Err(TxError::BindingSignatureInvalid));
    assert_eq!(no_duplicate_nullifiers(&vec![]), Ok(()));
}

#[test]
fn pipeline_runs_each_stage() {
    let mut s = IbcState::new(1, 1);
    let good = Action::CreateClient(MsgCreateClient {
        client_state: AnyClientState::Tendermint(TmClientState { latest_height: 4 }),
        consensus_state: AnyConsensusState::Tendermint(ConsensusState { root: [2; 32], timestamp: 9 }),
    });
    let bad = Action::CreateClient(MsgCreateClient {
        client_state: AnyClientState::Unsupported,
        consensus_state: AnyConsensusState::Unsupported,
    });
    assert_eq!(check_stateless(&good), Ok(()));
    assert_eq!(check_stateless(&bad), Err(IbcError::InvalidClientType));
    assert_eq!(check_stateful(&s, &good, true), Ok(()));
    assert_eq!(execute(&mut s, &good), Ok(None));
    assert_eq!(s.clients.len(), 1);
    assert_eq!(execute(&mut s, &bad), Err(IbcError::InvalidClientType));
    assert_eq!(s.clients.len(), 1);
    assert_eq!(check_stateful(&s, &Action::Spend(nf(1)), false), Ok(()));
}

#[test]
fn reserves_bounds() {
    let at_limit = Reserves { r1: Amount { inner: MAX_RESERVE_AMOUNT }, r2: Amount { inner: 0 } };
    assert_eq!(at_limit.check_bounds(), Ok(()));
    assert_eq!(MAX_RESERVE_AMOUNT, (1u128 << 80) - 1);
    let over = Reserves { r1: Amount { inner: 1 }, r2: Amount { inner: MAX_RESERVE_AMOUNT + 1 } };
    assert_eq!(over.check_bounds(), Err(ReservesError::OutOfBounds));
}

#[test]
fn reserves_wire_form() {
    let r = Reserves { r1: Amount { inner: 5 }, r2: Amount { inner: 6 } };
    assert_eq!(Reserves::try_from_proto(r.to_proto()), Ok(r));
    let missing = ReservesProto { r1: None, r2: Some(Amount { inner: 1 }) };
    assert_eq!(Reserves::try_from_proto(missing), Err(ReservesError::MissingR1));
    let missing = ReservesProto { r1: Some(Amount { inner: 1 }), r2: None };
    assert_eq!(Reserves::try_from_proto(missing), Err(ReservesError::MissingR2));
}

#[test]
fn governance_genesis_and_balance_options() {
    let mut g = GovernanceState { next_proposal_id: 9, unfinished_proposals: vec![1, 2] };
    Governance::init_chain(&mut g);
    assert_eq!(g.next_proposal_id, 0);
    assert!(g.unfinished_proposals.is_empty());
    let cmd = BalanceCmd { by_address: true, by_note: false };
    assert!(!cmd.offline());
}

fn update(height: u64) -> Action {
    Action::UpdateClient(MsgUpdateClient {
        client_id: ClientId { index: 0 },
        header: Header { height, consensus_state: ConsensusState { root: [3; 32], timestamp: 7 } },
    })
}

#[test]
fn transaction_checks_run_in_stages() {
    let mut s = IbcState::new(1, 1);
    let create = Action::CreateClient(MsgCreateClient {
        client_state: AnyClientState::Tendermint(TmClientState { latest_height: 4 }),
        consensus_state: AnyConsensusState::Tendermint(ConsensusState { root: [2; 32], timestamp: 9 }),
    });
    assert_eq!(execute(&mut s, &create), Ok(None));

    let tx = Transaction { actions: vec![Action::Spend(nf(1)), update(5)] };
    assert_eq!(tx.check(&s, &vec![true, true], true), Ok(()));
    assert_eq!(tx.check(&s, &vec![true, false], true), Err(Rejection::Stateful(1, IbcError::HeaderVerificationFailed)));
    assert_eq!(tx.check(&s, &vec![true, true], false), Err(Rejection::Transaction(TxError::BindingSignatureInvalid)));

    let stale = Transaction { actions: vec![update(4), Action::Spend(nf(1)), Action::Spend(nf(1))] };
    assert_eq!(
        stale.check(&s, &vec![true, true, true], true),
        Err(Rejection::Transaction(TxError::DuplicateNullifier(nf(1))))
    );
    let stale = Transaction { actions: vec![Action::Spend(nf(2)), update(4)] };
    assert_eq!(stale.check(&s, &vec![true, true], true), Err(Rejection::Stateful(1, IbcError::StaleHeader)));

    let bad = Action::CreateClient(MsgCreateClient {
        client_state: AnyClientState::Unsupported,
        consensus_state: AnyConsensusState::Unsupported,
    });
    let malformed = Transaction { actions: vec![update(9), bad] };
    assert_eq!(
        malformed.check(&s, &vec![true, true], false),
        Err(Rejection::Stateless(1, IbcError::InvalidClientType))
    );
}
