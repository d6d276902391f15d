use vstd::prelude::*;
use crate::reserves::Amount;

verus! {

/// Options of the command that shows the wallet's balance.
#[derive(Clone, Copy, Debug)]
pub struct BalanceCmd {
    /// Breaks balances down by address.
    pub by_address: bool,
    /// Shows each note on its own.
    pub by_note: bool,
}

impl BalanceCmd {
    /// The balance is read from the view service, which needs the network.
    pub fn offline(&self) -> (r: bool)
        ensures
            r == false,
    {
        false
    }
}

/// An asset's identifier: a field element in four limbs, the most
/// significant first.
#[derive(Clone, Copy, Debug, PartialEq, Eq, Structural)]
pub struct AssetId {
    pub l0: u64,
    pub l1: u64,
    pub l2: u64,
    pub l3: u64,
}

/// `a` orders before `b`.
pub open spec fn asset_lt(a: AssetId, b: AssetId) -> bool {
    a.l0 < b.l0 || (a.l0 == b.l0 && (a.l1 < b.l1 || (a.l1 == b.l1 && (a.l2 < b.l2 || (a.l2 == b.l2
        && a.l3 < b.l3)))))
}

impl AssetId {
    pub fn lt(&self, other: &AssetId) -> (r: bool)
        ensures
            r == asset_lt(*self, *other),
    {
        self.l0 < other.l0 || (self.l0 == other.l0 && (self.l1 < other.l1 || (self.l1 == other.l1 && (
        self.l2 < other.l2 || (self.l2 == other.l2 && self.l3 < other.l3)))))
    }

    pub fn same(&self, other: &AssetId) -> (r: bool)
        ensures
            r == (*self == *other),
    {
        self.l0 == other.l0 && self.l1 == other.l1 && self.l2 == other.l2 && self.l3 == other.l3
    }
}

/// An amount of an asset.
#[derive(Clone, Copy, Debug, PartialEq, Eq, Structural)]
pub struct Value {
    pub amount: Amount,
    pub asset_id: AssetId,
}

/// A line of the balance: the address index the value is held at, if the
/// lines are broken down by address, and the value.
#[derive(Clone, Copy, Debug, PartialEq, Eq)]
pub struct BalanceRow {
    pub index: Option<u128>,
    pub value: Value,
}

/// A row held at an ephemeral address, one whose index does not fit in 64
/// bits.
pub open spec fn is_ephemeral(r: BalanceRow) -> bool {
    match r.index {
        Some(i) => i > u64::MAX,
        None => false,
    }
}

pub open spec fn is_indexed(r: BalanceRow) -> bool {
    !is_ephemeral(r)
}

/// `r` is an ephemeral row of asset `a`.
pub open spec fn ephemeral_of(r: BalanceRow, a: AssetId) -> bool {
    is_ephemeral(r) && r.value.asset_id == a
}

/// The sum of the amounts of the ephemeral rows of asset `a` in `rows`.
pub open spec fn ephemeral_total(rows: Seq<BalanceRow>, a: AssetId) -> int
    decreases rows.len(),
{
    if rows.len() == 0 {
        0
    } else {
        ephemeral_total(rows.drop_last(), a) + if ephemeral_of(rows.last(), a) {
            rows.last().value.amount.inner as int
        } else {
            0
        }
    }
}

pub open spec fn has_ephemeral(rows: Seq<BalanceRow>, a: AssetId) -> bool {
    exists|k: int| 0 <= k < rows.len() && ephemeral_of(#[trigger] rows[k], a)
}

/// Row `k` is the first ephemeral row of asset `a` in `rows`.
pub open spec fn first_ephemeral(rows: Seq<BalanceRow>, a: AssetId, k: int) -> bool {
    &&& 0 <= k < rows.len()
    &&& ephemeral_of(rows[k], a)
    &&& forall|j: int| 0 <= j < k ==> !ephemeral_of(#[trigger] rows[j], a)
}

pub open spec fn lists_asset(out: Seq<BalanceRow>, a: AssetId) -> bool {
    exists|i: int| 0 <= i < out.len() && (#[trigger] out[i]).value.asset_id == a
}

/// `out` holds the ephemeral rows of `rows` combined by asset: one row per
/// asset, in ascending order of asset, with the summed amount and the
/// index of the asset's first ephemeral row.
pub open spec fn combined(rows: Seq<BalanceRow>, out: Seq<BalanceRow>) -> bool {
    &&& forall|i: int, j: int| 0 <= i < j < out.len() ==> asset_lt(out[i].value.asset_id, out[j].value.asset_id)
    &&& forall|a: AssetId| has_ephemeral(rows, a) <==> lists_asset(out, a)
    &&& forall|i: int| 0 <= i < out.len() ==> {
        &&& (#[trigger] out[i]).value.amount.inner == ephemeral_total(rows, out[i].value.asset_id)
        &&& exists|k: int| first_ephemeral(rows, out[i].value.asset_id, k) && out[i].index == rows[k].index
    }
}

proof fn lemma_ephemeral_total_bound(rows: Seq<BalanceRow>, a: AssetId)
    ensures
        0 <= ephemeral_total(rows, a),
        !has_ephemeral(rows, a) ==> ephemeral_total(rows, a) == 0,
    decreases rows.len(),
{
    if rows.len() > 0 {
        lemma_ephemeral_total_bound(rows.drop_last(), a);
        if !has_ephemeral(rows, a) {
            assert(!ephemeral_of(rows[rows.len() - 1], a));
            assert forall|k: int| 0 <= k < rows.drop_last().len() implies !ephemeral_of(
                #[trigger] rows.drop_last()[k],
                a,
            ) by {
                assert(rows.drop_last()[k] == rows[k]);
            }
        }
    }
}

proof fn lemma_ephemeral_total_prefix(rows: Seq<BalanceRow>, n: int, a: AssetId)
    requires
        0 <= n <= rows.len(),
    ensures
        ephemeral_total(rows.take(n), a) <= ephemeral_total(rows, a),
    decreases rows.len(),
{
    if n < rows.len() {
        lemma_ephemeral_total_prefix(rows.drop_last(), n, a);
        assert(rows.drop_last().take(n) =~= rows.take(n));
    } else {
        assert(rows.take(n) =~= rows);
    }
}

/// Adds row `row` to `out`, which combines the ephemeral rows of `pre`, so
/// that it combines those of `pre.push(row)`.
fn add_ephemeral(out: &mut Vec<BalanceRow>, row: BalanceRow, Ghost(pre): Ghost<Seq<BalanceRow>>)
    requires
        is_ephemeral(row),
        combined(pre, old(out)@),
        ephemeral_total(pre, row.value.asset_id) + row.value.amount.inner <= u128::MAX,
    ensures
        combined(pre.push(row), final(out)@),
{
    let post = Ghost(pre.push(row));
    let a = row.value.asset_id;
    assert(post@.drop_last() =~= pre);
    let mut p: usize = 0;
    while p < out.len() && out[p].value.asset_id.lt(&a)
        invariant
            p <= out@.len(),
            forall|q: int| 0 <= q < p ==> asset_lt((#[trigger] out@[q]).value.asset_id, a),
        decreases out@.len() - p,
    {
        p = p + 1;
    }
    if p < out.len() && out[p].value.asset_id.same(&a) {
        let old_row = out[p];
        let sum = old_row.value.amount.inner + row.value.amount.inner;
        out.set(p, BalanceRow { index: old_row.index, value: Value { amount: Amount { inner: sum }, asset_id: a } });
        proof {
            let o = old(out)@;
            let n = out@;
            assert forall|b: AssetId| has_ephemeral(post@, b) <==> lists_asset(n, b) by {
                if has_ephemeral(post@, b) {
                    let k = choose|k: int| 0 <= k < post@.len() && ephemeral_of(#[trigger] post@[k], b);
                    if k < pre.len() {
                        assert(pre[k] == post@[k]);
                        assert(has_ephemeral(pre, b));
                        let i = choose|i: int| 0 <= i < o.len() && (#[trigger] o[i]).value.asset_id == b;
                        assert(n[i].value.asset_id == b);
                    } else {
                        assert(n[p as int].value.asset_id == b);
                    }
                }
                if lists_asset(n, b) {
                    let i = choose|i: int| 0 <= i < n.len() && (#[trigger] n[i]).value.asset_id == b;
                    assert(o[i].value.asset_id == b);
                    assert(lists_asset(o, b));
                    let k = choose|k: int| 0 <= k < pre.len() && ephemeral_of(#[trigger] pre[k], b);
                    assert(post@[k] == pre[k]);
                }
            }
            assert forall|i: int| 0 <= i < n.len() implies {
                &&& (#[trigger] n[i]).value.amount.inner == ephemeral_total(post@, n[i].value.asset_id)
                &&& exists|k: int| first_ephemeral(post@, n[i].value.asset_id, k) && n[i].index == post@[k].index
            } by {
                assert(o[i].value.asset_id == n[i].value.asset_id);
                let b = n[i].value.asset_id;
                let k = choose|k: int| first_ephemeral(pre, b, k) && o[i].index == pre[k].index;
                assert(post@[k] == pre[k]);
                assert forall|j: int| 0 <= j < k implies !ephemeral_of(#[trigger] post@[j], b) by {
                    assert(post@[j] == pre[j]);
                }
                assert(first_ephemeral(post@, b, k));
            }
        }
    } else {
        proof {
            if lists_asset(old(out)@, a) {
                let i = choose|i: int| 0 <= i < old(out)@.len() && (#[trigger] old(out)@[i]).value.asset_id == a;
                if i >= p {
                    assert(asset_lt(a, old(out)@[p as int].value.asset_id) || old(out)@[p as int].value.asset_id == a);
                }
            }
            assert(!lists_asset(old(out)@, a));
            assert(!has_ephemeral(pre, a));
            lemma_ephemeral_total_bound(pre, a);
        }
        out.insert(p, row);
        proof {
            let o = old(out)@;
            let n = out@;
            assert(n == o.insert(p as int, row));
            assert forall|i: int, j: int| 0 <= i < j < n.len() implies asset_lt(
                n[i].value.asset_id,
                n[j].value.asset_id,
            ) by {
                if p < o.len() {
                    assert(asset_lt(a, o[p as int].value.asset_id));
                }
                if i < p && j == p {
                    assert(n[i] == o[i]);
                } else if i < p && j > p {
                    assert(n[i] == o[i] && n[j] == o[j - 1]);
                    assert(asset_lt(o[i].value.asset_id, o[j - 1].value.asset_id));
                } else if i == p && j > p {
                    assert(n[j] == o[j - 1]);
                    if j - 1 > p {
                        assert(asset_lt(o[p as int].value.asset_id, o[j - 1].value.asset_id));
                    }
                } else if i > p {
                    assert(n[i] == o[i - 1] && n[j] == o[j - 1]);
                    assert(asset_lt(o[i - 1].value.asset_id, o[j - 1].value.asset_id));
                } else {
                    assert(n[i] == o[i] && n[j] == o[j]);
                    assert(asset_lt(o[i].value.asset_id, o[j].value.asset_id));
                }
            }
            assert forall|b: AssetId| has_ephemeral(post@, b) <==> lists_asset(n, b) by {
                if has_ephemeral(post@, b) {
                    let k = choose|k: int| 0 <= k < post@.len() && ephemeral_of(#[trigger] post@[k], b);
                    if k < pre.len() {
                        assert(pre[k] == post@[k]);
                        assert(has_ephemeral(pre, b));
                        let i = choose|i: int| 0 <= i < o.len() && (#[trigger] o[i]).value.asset_id == b;
                        if i < p {
                            assert(n[i].value.asset_id == b);
                        } else {
                            assert(n[i + 1].value.asset_id == b);
                        }
                    } else {
                        assert(n[p as int].value.asset_id == b);
                    }
                }
                if lists_asset(n, b) {
                    let i = choose|i: int| 0 <= i < n.len() && (#[trigger] n[i]).value.asset_id == b;
                    if i == p {
                        assert(ephemeral_of(post@[pre.len() as int], b));
                    } else {
                        let oi = if i < p { i } else { i - 1 };
                        assert(o[oi].value.asset_id == b);
                        assert(lists_asset(o, b));
                        let k = choose|k: int| 0 <= k < pre.len() && ephemeral_of(#[trigger] pre[k], b);
                        assert(post@[k] == pre[k]);
                    }
                }
            }
            assert forall|i: int| 0 <= i < n.len() implies {
                &&& (#[trigger] n[i]).value.amount.inner == ephemeral_total(post@, n[i].value.asset_id)
                &&& exists|k: int| first_ephemeral(post@, n[i].value.asset_id, k) && n[i].index == post@[k].index
            } by {
                if i == p {
                    assert forall|j: int| 0 <= j < pre.len() implies !ephemeral_of(#[trigger] post@[j], a) by {
                        assert(post@[j] == pre[j]);
                    }
                    assert(first_ephemeral(post@, a, pre.len() as int));
                } else {
                    let oi = if i < p { i } else { i - 1 };
                    assert(n[i] == o[oi]);
                    let b = o[oi].value.asset_id;
                    assert(b != a) by {
                        assert(lists_asset(o, b));
                    }
                    let k = choose|k: int| first_ephemeral(pre, b, k) && o[oi].index == pre[k].index;
                    assert(post@[k] == pre[k]);
                    assert forall|j: int| 0 <= j < k implies !ephemeral_of(#[trigger] post@[j], b) by {
                        assert(post@[j] == pre[j]);
                    }
                    assert(first_ephemeral(post@, b, k));
                }
            }
        }
    }
}

/// Splits balance rows into the indexed ones, kept as they are, and the
/// ephemeral ones combined by asset. Rows broken down by note are all kept
/// as they are.
pub fn combine_ephemeral(rows: Vec<BalanceRow>, by_note: bool) -> (r: (Vec<BalanceRow>, Vec<BalanceRow>))
    requires
        !by_note ==> forall|a: AssetId| ephemeral_total(rows@, a) <= u128::MAX,
    ensures
        by_note ==> r.0@ == rows@ && r.1@.len() == 0,
        !by_note ==> r.0@ == rows@.filter(|x: BalanceRow| is_indexed(x)) && combined(rows@, r.1@),
{
    if by_note {
        return (rows, Vec::new());
    }
    let mut indexed: Vec<BalanceRow> = Vec::new();
    let mut ephemeral: Vec<BalanceRow> = Vec::new();
    let mut k: usize = 0;
    assert(rows@.take(0).filter(|x: BalanceRow| is_indexed(x)) =~= Seq::<BalanceRow>::empty()) by {
        reveal(Seq::filter);
    }
    while k < rows.len()
        invariant
            k <= rows@.len(),
            forall|a: AssetId| ephemeral_total(rows@, a) <= u128::MAX,
            indexed@ == rows@.take(k as int).filter(|x: BalanceRow| is_indexed(x)),
            combined(rows@.take(k as int), ephemeral@),
        decreases rows@.len() - k,
    {
        let row = rows[k];
        let ghost pre = rows@.take(k as int);
        assert(rows@.take(k + 1) =~= pre.push(row));
        assert(pre.push(row).drop_last() =~= pre);
        let eph = match row.index {
            Some(i) => i > u64::MAX as u128,
            None => false,
        };
        if eph {
            proof {
                lemma_ephemeral_total_prefix(rows@, k + 1, row.value.asset_id);
                assert(ephemeral_total(pre.push(row), row.value.asset_id) == ephemeral_total(pre, row.value.asset_id)
                    + row.value.amount.inner);
            }
            add_ephemeral(&mut ephemeral, row, Ghost(pre));
        } else {
            indexed.push(row);
            proof {
                let post = pre.push(row);
                assert forall|a: AssetId| has_ephemeral(post, a) <==> lists_asset(ephemeral@, a) by {
                    if has_ephemeral(post, a) {
                        let j = choose|j: int| 0 <= j < post.len() && ephemeral_of(#[trigger] post[j], a);
                        assert(pre[j] == post[j]);
                    }
                    if has_ephemeral(pre, a) {
                        let j = choose|j: int| 0 <= j < pre.len() && ephemeral_of(#[trigger] pre[j], a);
                        assert(pre[j] == post[j]);
                    }
                }
                assert forall|i: int| 0 <= i < ephemeral@.len() implies {
                    &&& (#[trigger] ephemeral@[i]).value.amount.inner == ephemeral_total(post, ephemeral@[i].value.asset_id)
                    &&& exists|k: int| first_ephemeral(post, ephemeral@[i].value.asset_id, k)
                        && ephemeral@[i].index == post[k].index
                } by {
                    let b = ephemeral@[i].value.asset_id;
                    let k = choose|k: int| first_ephemeral(pre, b, k) && ephemeral@[i].index == pre[k].index;
                    assert(post[k] == pre[k]);
                    assert forall|j: int| 0 <= j < k implies !ephemeral_of(#[trigger] post[j], b) by {
                        assert(post[j] == pre[j]);
                    }
                    assert(first_ephemeral(post, b, k));
                }
            }
        }
        proof {
            reveal(Seq::filter);
            assert(pre.push(row).filter(|x: BalanceRow| is_indexed(x)) == if is_indexed(row) {
                pre.filter(|x: BalanceRow| is_indexed(x)).push(row)
            } else {
                pre.filter(|x: BalanceRow| is_indexed(x))
            });
        }
        k = k + 1;
    }
    assert(rows@.take(k as int) =~= rows@);
    (indexed, ephemeral)
}

/// How a row's address index is shown: as its number where it is below
/// 2^64 - 1, else as ephemeral (`None`).
pub fn address_label(index: u128) -> (r: Option<u64>)
    ensures
        index < u64::MAX ==> r == Some(index as u64),
        index >= u64::MAX ==> r is None,
{
    if index < u64::MAX as u128 {
        Some(index as u64)
    } else {
        None
    }
}

} // verus!
