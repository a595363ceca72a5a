use budget::{
    AddTransaction, Budget, BudgetError, BudgetManager, CreateBudget, InMemoryRepository,
    RemoveTransaction, UpdateTransaction,
};

fn budget_name() -> String {
    String::from("my-budget")
}

fn budget_max() -> i64 {
    20000
}

fn make_empty_budget_manager() -> BudgetManager {
    BudgetManager::new(Budget::new(budget_name(), budget_max()), vec![])
}

#[test]
fn user_can_create_budget() {
    // Given
    let cmd = CreateBudget::new(budget_name(), budget_max());
    let mut repo = InMemoryRepository::new();

    // When
    let bdg = cmd.run(&mut repo).unwrap();

    // Then
    assert_eq!(bdg.name(), budget_name());
    assert_eq!(bdg.available_funds(), budget_max());

    assert_eq!(repo.get(bdg.id()).unwrap(), bdg);
}

#[test]
fn user_can_add_transaction() {
    let budget_manager = make_empty_budget_manager();
    let mut repo = InMemoryRepository::new();
    repo.add(&budget_manager).unwrap();

    let cmd = AddTransaction::new(
        budget_manager.id().to_string(),
        String::from("cheeseborger"),
        999,
    );

    cmd.run(&mut repo).unwrap();

    let bm = repo.get(budget_manager.id()).unwrap();
    assert_eq!(bm.available_funds(), 19001);
}

#[test]
fn user_can_remove_transaction() {
    let mut budget_manager = make_empty_budget_manager();
    let transaction_id = budget_manager.add_tx(String::from("cheeseborger"), 399).unwrap();

    let mut repo = InMemoryRepository::new();
    repo.add(&budget_manager).unwrap();

    let cmd = RemoveTransaction::new(budget_manager.id().to_string(), transaction_id);

    cmd.run(&mut repo).unwrap();

    let bm = repo.get(budget_manager.id()).unwrap();
    assert_eq!(bm.available_funds(), budget_max());
}

#[test]
fn user_can_update_transaction() {
    let mut budget_manager = make_empty_budget_manager();
    let transaction_id = budget_manager.add_tx(String::from("cheeseborger"), 399).unwrap();

    let mut repo = InMemoryRepository::new();
    repo.add(&budget_manager).unwrap();

    let cmd = UpdateTransaction::new(budget_manager.id().to_string(), transaction_id, 499);

    cmd.run(&mut repo).unwrap();

    let bm = repo.get(budget_manager.id()).unwrap();
    assert_eq!(bm.available_funds(), 19501);
}

#[test]
fn handlers_report_unknown_budget() {
    let mut repo = InMemoryRepository::new();
    let add = AddTransaction::new(String::from("nope"), String::from("x"), 1);
    assert_eq!(add.run(&mut repo), Err(BudgetError::NotFound));
    let remove = RemoveTransaction::new(String::from("nope"), String::from("t"));
    assert_eq!(remove.run(&mut repo), Err(BudgetError::NotFound));
    let update = UpdateTransaction::new(String::from("nope"), String::from("t"), 1);
    assert_eq!(update.run(&mut repo), Err(BudgetError::NotFound));
}

#[test]
fn failed_handler_leaves_store_unchanged() {
    let budget_manager = make_empty_budget_manager();
    let mut repo = InMemoryRepository::new();
    repo.add(&budget_manager).unwrap();

    let cmd = AddTransaction::new(budget_manager.id().to_string(), String::from("rent"), 25000);
    assert_eq!(cmd.run(&mut repo), Err(BudgetError::InsufficientFunds));
    let remove = RemoveTransaction::new(budget_manager.id().to_string(), String::from("t"));
    assert_eq!(remove.run(&mut repo), Err(BudgetError::NotFound));

    assert_eq!(repo.get(budget_manager.id()).unwrap(), budget_manager);
}

#[test]
fn apply_works_on_a_loaded_aggregate() {
    let mut m = BudgetManager::new(Budget::load(String::from("b1"), String::from("g"), 1000), vec![]);
    let add = AddTransaction::new(String::from("b1"), String::from("milk"), 300);
    let id = add.apply(&mut m).unwrap();
    assert_eq!(m.available_funds(), 700);

    let update = UpdateTransaction::new(String::from("b1"), id.clone(), 500);
    update.apply(&mut m).unwrap();
    assert_eq!(m.available_funds(), 500);

    let remove = RemoveTransaction::new(String::from("b1"), id);
    remove.apply(&mut m).unwrap();
    assert_eq!(m.available_funds(), 1000);
    assert!(m.transactions().is_empty());
}
