use vstd::prelude::*;

verus! {

/// The largest amount a position's reserve may hold: 2^80 - 1.
pub const MAX_RESERVE_AMOUNT: u128 = 0xffff_ffff_ffff_ffff_ffff;

/// A quantity of some asset.
#[derive(Clone, Copy, Debug, PartialEq, Eq, Structural)]
pub struct Amount {
    pub inner: u128,
}

impl Amount {
    pub fn value(&self) -> (r: u128)
        ensures
            r == self.inner,
    {
        self.inner
    }
}

/// The reserves of a trading position, between its assets 1 and 2.
#[derive(Clone, Copy, Debug, PartialEq, Eq, Structural)]
pub struct Reserves {
    pub r1: Amount,
    pub r2: Amount,
}

/// The wire form of `Reserves`, whose fields may be absent.
#[derive(Clone, Copy, Debug)]
pub struct ReservesProto {
    pub r1: Option<Amount>,
    pub r2: Option<Amount>,
}

#[derive(Clone, Copy, Debug, PartialEq, Eq, Structural)]
pub enum ReservesError {
    /// A reserve is above `MAX_RESERVE_AMOUNT`.
    OutOfBounds,
    MissingR1,
    MissingR2,
}

/// What reading reserves from their wire form yields.
pub open spec fn reserves_of(p: ReservesProto) -> Result<Reserves, ReservesError> {
    match (p.r1, p.r2) {
        (Some(r1), Some(r2)) => Ok(Reserves { r1, r2 }),
        (None, _) => Err(ReservesError::MissingR1),
        (Some(_), None) => Err(ReservesError::MissingR2),
    }
}

pub open spec fn proto_of(r: Reserves) -> ReservesProto {
    ReservesProto { r1: Some(r.r1), r2: Some(r.r2) }
}

impl Reserves {
    pub open spec fn in_bounds(self) -> bool {
        self.r1.inner <= MAX_RESERVE_AMOUNT && self.r2.inner <= MAX_RESERVE_AMOUNT
    }

    /// Checks that both reserves are at most `MAX_RESERVE_AMOUNT`.
    pub fn check_bounds(&self) -> (r: Result<(), ReservesError>)
        ensures
            r == (if self.in_bounds() {
                Ok::<(), ReservesError>(())
            } else {
                Err(ReservesError::OutOfBounds)
            }),
    {
        if self.r1.value() > MAX_RESERVE_AMOUNT || self.r2.value() > MAX_RESERVE_AMOUNT {
            Err(ReservesError::OutOfBounds)
        } else {
            Ok(())
        }
    }

    /// Reads reserves from their wire form, which must hold both amounts.
    pub fn try_from_proto(value: ReservesProto) -> (r: Result<Reserves, ReservesError>)
        ensures
            r == reserves_of(value),
    {
        let r1 = match value.r1 {
            Some(a) => a,
            None => return Err(ReservesError::MissingR1),
        };
        let r2 = match value.r2 {
            Some(a) => a,
            None => return Err(ReservesError::MissingR2),
        };
        Ok(Reserves { r1, r2 })
    }

    pub fn to_proto(self) -> (r: ReservesProto)
        ensures
            r == proto_of(self),
    {
        ReservesProto { r1: Some(self.r1), r2: Some(self.r2) }
    }
}

/// Reserves survive a trip through their wire form.
pub proof fn lemma_reserves_round_trip(r: Reserves)
    ensures
        reserves_of(proto_of(r)) == Ok::<Reserves, ReservesError>(r),
{
}

} // verus!
