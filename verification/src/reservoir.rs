//! Reservoirs: stores that are drained item by item and refilled when empty.

use vstd::prelude::*;
use crate::errors::ErrorKind;

verus! {

/// A store that hands out its items one by one and, once it holds none, asks a
/// function of the caller for more.
pub trait Reservoir<V>: Sized {
    /// Whether the reservoir has to be refilled before it can hand out an item.
    spec fn is_drained(&self) -> bool;

    /// Whether `r` is a result that a reservoir in this state, not drained, may
    /// give.
    spec fn yields(&self, r: Result<V, ErrorKind>) -> bool;

    /// Whether `r` is a result that a reservoir in this state, drained, may give
    /// once refilling has answered `fresh`.
    spec fn yields_after(&self, fresh: Result<Vec<V>, ErrorKind>, r: Result<V, ErrorKind>) -> bool;

    /// The next item of the reservoir, or the reason why there is none.
    ///
    /// `fill_fn` is called when the reservoir is drained, and what it answers is
    /// then all that the result rests on. It need not be callable while the
    /// reservoir holds an item, so no implementation can call it then.
    fn next_or_fill<F>(self, fill_fn: F) -> (r: Result<V, ErrorKind>) where
        F: Fn() -> Result<Vec<V>, ErrorKind>,

        requires
            self.is_drained() ==> fill_fn.requires(()),
        ensures
            !self.is_drained() ==> self.yields(r),
            self.is_drained() ==> exists|fresh: Result<Vec<V>, ErrorKind>|
                fill_fn.ensures((), fresh) && #[trigger] self.yields_after(fresh, r),
    ;
}

} // verus!
