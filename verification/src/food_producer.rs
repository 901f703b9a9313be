use vstd::prelude::*;

verus! {

/// A numbered portion of food, as the simple food source hands it out.
#[derive(Debug, PartialEq, Eq, Structural, Clone, Copy)]
pub struct Food {
    pub id: i32,
}

/// A request for food from the simple food source.
#[derive(Debug, PartialEq, Eq, Structural, Clone, Copy)]
pub struct FoodRequest {
    pub id: i32,
}

/// How many portions the simple food source hands out per request.
pub const FOOD_BATCH_SIZE: i32 = 9;

/// A food source that answers every request with the same batch of food.
#[derive(Debug)]
pub struct FoodSourceService;

impl FoodSourceService {
    /// The food streamed back for a request, in order: portions numbered
    /// 0 to 8, whatever the request asked.
    pub fn food_batch(&self, request: &FoodRequest) -> (foods: Vec<Food>)
        ensures
            foods.len() == FOOD_BATCH_SIZE,
            foods.len() == 9,
            forall|i: int| 0 <= i < foods.len() ==> foods[i].id == i,
    {
        let mut foods: Vec<Food> = Vec::new();
        let mut i: i32 = 0;
        while i < FOOD_BATCH_SIZE
            invariant
                0 <= i <= FOOD_BATCH_SIZE,
                foods.len() == i,
                forall|k: int| 0 <= k < foods.len() ==> foods[k].id == k,
            decreases FOOD_BATCH_SIZE - i,
        {
            foods.push(Food { id: i });
            i = i + 1;
        }
        foods
    }
}

} // verus!
