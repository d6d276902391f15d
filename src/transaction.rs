use vstd::prelude::*;
use std::collections::BTreeSet;

verus! {

broadcast use vstd::std_specs::btree::group_btree_axioms;

/// The one-time token a spend reveals, a 256-bit value in four limbs.
#[derive(Clone, Copy, Debug, PartialEq, Eq, Structural)]
pub struct Nullifier {
    pub l0: u64,
    pub l1: u64,
    pub l2: u64,
    pub l3: u64,
}

impl Nullifier {
    pub open spec fn spec_limbs(self) -> (u64, u64, u64, u64) {
        (self.l0, self.l1, self.l2, self.l3)
    }

    /// The limbs as a tuple, which orders as the integer they spell.
    #[verifier::when_used_as_spec(spec_limbs)]
    pub fn limbs(self) -> (r: (u64, u64, u64, u64))
        ensures
            r == self.spec_limbs(),
    {
        (self.l0, self.l1, self.l2, self.l3)
    }
}

/// Why a transaction was rejected by its transaction-wide checks.
#[derive(Clone, Copy, Debug, PartialEq, Eq, Structural)]
pub enum TxError {
    /// The binding signature does not verify over the transaction body.
    BindingSignatureInvalid,
    /// Two spends reveal this nullifier.
    DuplicateNullifier(Nullifier),
}

/// No nullifier occurs twice in `s`.
pub open spec fn all_distinct(s: Seq<Nullifier>) -> bool {
    forall|i: int, j: int| 0 <= i < j < s.len() ==> s[i] != s[j]
}

/// Position `j` of `s` repeats an earlier nullifier, and is the first that
/// does.
pub open spec fn first_repeat(s: Seq<Nullifier>, j: int) -> bool {
    &&& 0 <= j < s.len()
    &&& all_distinct(s.subrange(0, j))
    &&& exists|i: int| 0 <= i < j && s[i] == s[j]
}

/// Rejects a transaction in which two spends reveal the same nullifier.
pub fn no_duplicate_nullifiers(nullifiers: &Vec<Nullifier>) -> (r: Result<(), TxError>)
    ensures
        r is Ok <==> all_distinct(nullifiers@),
        r matches Err(e) ==> exists|j: int| first_repeat(nullifiers@, j)
            && e == TxError::DuplicateNullifier(nullifiers@[j]),
{
    let mut spent: BTreeSet<(u64, u64, u64, u64)> = BTreeSet::new();
    let mut i: usize = 0;
    while i < nullifiers.len()
        invariant
            i <= nullifiers@.len(),
            vstd::laws_cmp::obeys_cmp::<(u64, u64, u64, u64)>(),
            all_distinct(nullifiers@.subrange(0, i as int)),
            forall|l: (u64, u64, u64, u64)| spent@.contains(l) <==> exists|k: int|
                0 <= k < i && (#[trigger] nullifiers@[k]).limbs() == l,
        decreases nullifiers@.len() - i,
    {
        let nf = nullifiers[i];
        if !spent.insert(nf.limbs()) {
            proof {
                let k = choose|k: int| 0 <= k < i && (#[trigger] nullifiers@[k]).limbs() == nf.limbs();
                assert(nullifiers@[k] == nf);
                assert(!all_distinct(nullifiers@)) by {
                    assert(nullifiers@[k] == nullifiers@[i as int]);
                }
                assert(first_repeat(nullifiers@, i as int));
            }
            return Err(TxError::DuplicateNullifier(nf));
        }
        proof {
            let s = nullifiers@.subrange(0, i + 1);
            assert forall|a: int, b: int| 0 <= a < b < s.len() implies s[a] != s[b] by {
                if b == i {
                    if s[a] == s[b] {
                        assert(nullifiers@[a].limbs() == nf.limbs());
                    }
                } else {
                    assert(nullifiers@.subrange(0, i as int)[a] == s[a]);
                    assert(nullifiers@.subrange(0, i as int)[b] == s[b]);
                }
            }
        }
        i = i + 1;
    }
    assert(nullifiers@.subrange(0, i as int) =~= nullifiers@);
    Ok(())
}

/// Rejects a transaction whose binding signature does not verify.
/// `verified` is the verdict of the binding verification key on the
/// signature over the canonical encoding of the transaction body.
pub fn valid_binding_signature(verified: bool) -> (r: Result<(), TxError>)
    ensures
        r == (if verified {
            Ok::<(), TxError>(())
        } else {
            Err(TxError::BindingSignatureInvalid)
        }),
{
    if verified {
        Ok(())
    } else {
        Err(TxError::BindingSignatureInvalid)
    }
}

} // verus!
