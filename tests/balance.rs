use penumbra_ibc_core::balance::{address_label, combine_ephemeral, AssetId, BalanceRow, Value};
use penumbra_ibc_core::reserves::Amount;

fn asset(x: u64) -> AssetId {
    AssetId { l0: 0, l1: x, l2: 0, l3: 0 }
}

fn row(index: Option<u128>, a: u64, amount: u128) -> BalanceRow {
    BalanceRow { index, value: Value { amount: Amount { inner: amount }, asset_id: asset(a) } }
}

const EPHEMERAL: u128 = u64::MAX as u128 + 1;

#[test]
fn ephemeral_rows_combine_by_asset() {
    let rows = vec![
        row(Some(3), 1, 5),
        row(Some(EPHEMERAL + 1), 2, 7),
        row(Some(EPHEMERAL + 9), 1, 4),
        row(None, 3, 1),
        row(Some(1 << 70), 2, 3),
    ];
    let (indexed, ephemeral) = combine_ephemeral(rows.clone(), false);
    assert_eq!(indexed, vec![row(Some(3), 1, 5), row(None, 3, 1)]);
    assert_eq!(ephemeral, vec![row(Some(EPHEMERAL + 9), 1, 4), row(Some(EPHEMERAL + 1), 2, 10)]);

    let (all, none) = combine_ephemeral(rows.clone(), true);
    assert_eq!(all, rows);
    assert!(none.is_empty());
}

#[test]
fn index_at_u64_max_is_not_combined() {
    let rows = vec![row(Some(u64::MAX as u128), 1, 2), row(Some(u64::MAX as u128), 1, 3)];
    let (indexed, ephemeral) = combine_ephemeral(rows.clone(), false);
    assert_eq!(indexed, rows);
    assert!(ephemeral.is_empty());
    let (indexed, ephemeral) = combine_ephemeral(vec![], false);
    assert!(indexed.is_empty() && ephemeral.is_empty());
}

#[test]
fn address_labels() {
    assert_eq!(address_label(0), Some(0));
    assert_eq!(address_label(u64::MAX as u128 - 1), Some(u64::MAX - 1));
    assert_eq!(address_label(u64::MAX as u128), None);
    assert_eq!(address_label(EPHEMERAL), None);
}
