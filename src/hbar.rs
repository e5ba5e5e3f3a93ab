//! Amounts of hbar, the ledger's own currency.
use vstd::prelude::*;

verus! {

/// Tinybars in one hbar.
pub const TINYBARS_PER_HBAR: i64 = 100_000_000;

/// An amount of hbar, counted in tinybars.
#[derive(Clone, Copy, Debug, PartialEq, Eq, Structural)]
pub struct Hbar {
    pub tinybars: i64,
}

impl Hbar {
    /// `hbars` whole hbar.
    pub fn from_hbars(hbars: i64) -> (r: Hbar)
        requires
            i64::MIN <= hbars * 100_000_000 <= i64::MAX,
        ensures
            r.tinybars == hbars * 100_000_000,
    {
        Hbar { tinybars: hbars * TINYBARS_PER_HBAR }
    }
}

} // verus!
