//! Tips, as the tip service hands them out.

use vstd::prelude::*;

verus! {

/// The number of a tip at the service.
pub type TipNum = u64;

/// One tip: its number at the service, and its text.
#[derive(Debug, PartialEq, Eq)]
pub struct Tip {
    pub number: TipNum,
    pub tip: String,
}

/// What a tip is: its number and the characters of its text.
pub struct TipView {
    pub number: nat,
    pub tip: Seq<char>,
}

impl View for Tip {
    type V = TipView;

    open spec fn view(&self) -> TipView {
        TipView { number: self.number as nat, tip: self.tip@ }
    }
}

impl Clone for Tip {
    fn clone(&self) -> (r: Tip)
        ensures
            r == *self,
    {
        Tip { number: self.number, tip: self.tip.clone() }
    }
}

/// What the service answers to one request: a batch of tips, in its order.
#[derive(Debug, PartialEq, Eq)]
pub struct Croak {
    pub tips: Vec<Tip>,
}

/// The tips of `batch` as what they are, in order.
pub open spec fn batch_view(batch: Seq<Tip>) -> Seq<TipView> {
    batch.map_values(|t: Tip| t@)
}

impl View for Croak {
    type V = Seq<TipView>;

    open spec fn view(&self) -> Seq<TipView> {
        batch_view(self.tips@)
    }
}

} // verus!
