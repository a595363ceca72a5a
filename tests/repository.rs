use budget::{Budget, BudgetError, BudgetManager, InMemoryRepository};

fn build_budget_manager_with_tx() -> BudgetManager {
    let budget = Budget::new(String::from("my-budget"), 20000);
    let mut bm = BudgetManager::new(budget, vec![]);
    bm.add_tx(String::from("cheeseborger"), 399).unwrap();
    bm
}

#[test]
fn in_memory_round_trip_keeps_funds_and_transactions() {
    let mut repo = InMemoryRepository::new();
    let bm = build_budget_manager_with_tx();

    repo.add(&bm).unwrap();
    let retrieved_bm = repo.get(bm.id()).unwrap();

    assert_eq!(bm.available_funds(), retrieved_bm.available_funds());
    assert_eq!(bm.transactions(), retrieved_bm.transactions());
}

#[test]
fn in_memory_delete_then_get_is_not_found() {
    let mut repo = InMemoryRepository::new();
    let bm = build_budget_manager_with_tx();
    let other = build_budget_manager_with_tx();
    repo.add(&bm).unwrap();
    repo.add(&other).unwrap();

    repo.delete(bm.id()).unwrap();

    assert_eq!(repo.get(bm.id()), Err(BudgetError::NotFound));
    assert_eq!(repo.delete(bm.id()), Err(BudgetError::NotFound));
    let kept = repo.get(other.id()).unwrap();
    assert!(kept.transactions().iter().all(|t| t.budget_id() != bm.id()));
}

#[test]
fn in_memory_get_unknown_is_not_found() {
    let repo = InMemoryRepository::new();
    assert_eq!(repo.get("missing"), Err(BudgetError::NotFound));
}

#[test]
fn in_memory_add_replaces_stored_aggregate() {
    let mut repo = InMemoryRepository::new();
    let mut bm = build_budget_manager_with_tx();
    repo.add(&bm).unwrap();

    bm.add_tx(String::from("milk"), 1000).unwrap();
    repo.add(&bm).unwrap();

    let got = repo.get(bm.id()).unwrap();
    assert_eq!(got.available_funds(), 18601);
    assert_eq!(got.transactions().len(), 2);
}
