//! One handler per use case: each loads what it needs from a repository,
//! applies one change to the aggregate, and saves the result.
use vstd::prelude::*;

use crate::error::BudgetError;
use crate::ids::ID_LEN;
use crate::manager::BudgetManager;
use crate::models::Budget;
use crate::repository::Repository;

verus! {

/// Creates a budget with no transactions and saves it.
pub struct CreateBudget {
    pub budget_name: String,
    pub total: i64,
}

impl CreateBudget {
    pub fn new(budget_name: String, total: i64) -> (r: Self)
        ensures
            r.budget_name@ == budget_name@,
            r.total == total,
    {
        CreateBudget { budget_name, total }
    }

    /// Saves a new aggregate and returns it; whether the save succeeds is
    /// for the repository to say.
    pub fn run<T: Repository>(&self, repo: &mut T) -> (r: Result<BudgetManager, BudgetError>)
        ensures
            r matches Ok(m) ==> {
                &&& m@.budget.name == self.budget_name@
                &&& m@.budget.total == self.total
                &&& m@.budget.id.len() == ID_LEN
                &&& m@.transactions.len() == 0
            },
    {
        let budget = Budget::new(self.budget_name.clone(), self.total);
        let manager = BudgetManager::new(budget, Vec::new());
        match repo.add(&manager) {
            Ok(()) => Ok(manager),
            Err(e) => Err(e),
        }
    }
}

/// Records a transaction against a stored budget.
pub struct AddTransaction {
    pub budget_id: String,
    pub name: String,
    pub value: i64,
}

impl AddTransaction {
    pub fn new(budget_id: String, name: String, value: i64) -> (r: Self)
        ensures
            r.budget_id@ == budget_id@,
            r.name@ == name@,
            r.value == value,
    {
        AddTransaction { budget_id, name, value }
    }

    /// The change itself, on a loaded aggregate.
    pub fn apply(&self, manager: &mut BudgetManager) -> (r: Result<String, BudgetError>)
        ensures
            match r {
                Ok(id) => {
                    &&& old(manager)@.add_check(self.value as int) is Ok
                    &&& id@.len() == ID_LEN
                    &&& final(manager)@ == old(manager)@.with_added(
                        old(manager)@.new_tx(id@, self.name@, self.value as int),
                    )
                },
                Err(e) => old(manager)@.add_check(self.value as int) == Err::<(), BudgetError>(e)
                    && final(manager)@ == old(manager)@,
            },
    {
        manager.add_tx(self.name.clone(), self.value)
    }

    /// Loads the budget, records the transaction and saves the aggregate;
    /// returns the new transaction's identifier.
    pub fn run<T: Repository>(&self, repo: &mut T) -> (r: Result<String, BudgetError>)
        ensures
            r matches Ok(id) ==> id@.len() == ID_LEN,
    {
        let mut manager = match repo.get(self.budget_id.as_str()) {
            Ok(m) => m,
            Err(e) => return Err(e),
        };
        let id = match self.apply(&mut manager) {
            Ok(id) => id,
            Err(e) => return Err(e),
        };
        match repo.add(&manager) {
            Ok(()) => Ok(id),
            Err(e) => Err(e),
        }
    }
}

/// Removes a transaction from a stored budget.
pub struct RemoveTransaction {
    pub budget_id: String,
    pub transaction_id: String,
}

impl RemoveTransaction {
    pub fn new(budget_id: String, transaction_id: String) -> (r: Self)
        ensures
            r.budget_id@ == budget_id@,
            r.transaction_id@ == transaction_id@,
    {
        RemoveTransaction { budget_id, transaction_id }
    }

    /// The change itself, on a loaded aggregate.
    pub fn apply(&self, manager: &mut BudgetManager) -> (r: Result<(), BudgetError>)
        ensures
            r == old(manager)@.remove_check(self.transaction_id@),
            r is Ok ==> final(manager)@ == old(manager)@.with_removed(
                old(manager)@.first_index(self.transaction_id@),
            ),
            r is Err ==> final(manager)@ == old(manager)@,
    {
        manager.remove_tx(self.transaction_id.as_str())
    }

    /// Loads the budget, removes the transaction and saves the aggregate.
    pub fn run<T: Repository>(&self, repo: &mut T) -> (r: Result<(), BudgetError>) {
        let mut manager = match repo.get(self.budget_id.as_str()) {
            Ok(m) => m,
            Err(e) => return Err(e),
        };
        match self.apply(&mut manager) {
            Ok(()) => {},
            Err(e) => return Err(e),
        }
        repo.add(&manager)
    }
}

/// Gives a transaction of a stored budget a new value.
pub struct UpdateTransaction {
    pub budget_id: String,
    pub transaction_id: String,
    pub new_val: i64,
}

impl UpdateTransaction {
    pub fn new(budget_id: String, transaction_id: String, new_val: i64) -> (r: Self)
        ensures
            r.budget_id@ == budget_id@,
            r.transaction_id@ == transaction_id@,
            r.new_val == new_val,
    {
        UpdateTransaction { budget_id, transaction_id, new_val }
    }

    /// The change itself, on a loaded aggregate.
    pub fn apply(&self, manager: &mut BudgetManager) -> (r: Result<(), BudgetError>)
        ensures
            r == old(manager)@.update_check(self.transaction_id@, self.new_val as int),
            r is Ok ==> final(manager)@ == old(manager)@.with_updated(
                old(manager)@.first_index(self.transaction_id@),
                self.new_val as int,
            ),
            r is Err ==> final(manager)@ == old(manager)@,
    {
        manager.update_tx(self.transaction_id.as_str(), self.new_val)
    }

    /// Loads the budget, updates the transaction and saves the aggregate.
    pub fn run<T: Repository>(&self, repo: &mut T) -> (r: Result<(), BudgetError>) {
        let mut manager = match repo.get(self.budget_id.as_str()) {
            Ok(m) => m,
            Err(e) => return Err(e),
        };
        match self.apply(&mut manager) {
            Ok(()) => {},
            Err(e) => return Err(e),
        }
        repo.add(&manager)
    }
}

} // verus!
