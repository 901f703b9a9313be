use vstd::prelude::*;

verus! {

/// A portion of food as it travels between organisms: who made it, its
/// sequence number at its maker, its kind and its amount.
#[derive(Debug)]
pub struct Food {
    pub id: i32,
    pub source: String,
    pub kind: String,
    pub amount: i32,
}

/// The mathematical value of a `Food`.
pub struct FoodView {
    pub id: i32,
    pub source: Seq<char>,
    pub kind: Seq<char>,
    pub amount: i32,
}

impl View for Food {
    type V = FoodView;

    open spec fn view(&self) -> FoodView {
        FoodView { id: self.id, source: self.source@, kind: self.kind@, amount: self.amount }
    }
}

} // verus!
