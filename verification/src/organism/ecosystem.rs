use vstd::prelude::*;

verus! {

/// A portion of food as the stock-keeping organisms exchange it: its kind and
/// its amount.
#[derive(Debug)]
pub struct Food {
    pub kind: String,
    pub amount: i32,
}

/// The mathematical value of a `Food`.
pub struct FoodView {
    pub kind: Seq<char>,
    pub amount: i32,
}

impl View for Food {
    type V = FoodView;

    open spec fn view(&self) -> FoodView {
        FoodView { kind: self.kind@, amount: self.amount }
    }
}

/// The answer to a peer that opens a food flow.
#[derive(Debug, PartialEq, Eq, Structural, Clone, Copy)]
pub struct StreamId {
    pub id: i32,
}

} // verus!
