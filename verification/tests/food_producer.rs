use ecosystem::food_producer::{FoodRequest, FoodSourceService};

#[test]
fn food_source_sends_nine_numbered_portions() {
    let foods = FoodSourceService.food_batch(&FoodRequest { id: 1 });
    let ids: Vec<i32> = foods.iter().map(|f| f.id).collect();
    assert_eq!(ids, vec![0, 1, 2, 3, 4, 5, 6, 7, 8]);
    let again = FoodSourceService.food_batch(&FoodRequest { id: 99 });
    assert_eq!(again, foods);
}
