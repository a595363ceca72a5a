use vstd::prelude::*;

use crate::error::BudgetError;
use crate::ids::{fresh_id, ID_LEN};

verus! {

/// Whether an amount of cents can be held in an `i64`.
pub open spec fn fits_i64(x: int) -> bool {
    i64::MIN <= x <= i64::MAX
}

/// What a `Budget` holds: its identifier, its name and its current total.
pub struct BudgetView {
    pub id: Seq<char>,
    pub name: Seq<char>,
    pub total: int,
}

impl BudgetView {
    /// The budget after `amount` has been taken out of it.
    pub open spec fn withdrawn(self, amount: int) -> BudgetView {
        BudgetView { id: self.id, name: self.name, total: self.total - amount }
    }

    /// The budget after `amount` has been put back into it.
    pub open spec fn deposited(self, amount: int) -> BudgetView {
        BudgetView { id: self.id, name: self.name, total: self.total + amount }
    }

    /// A withdrawal of `amount` is allowed when it leaves a positive total.
    pub open spec fn can_withdraw(self, amount: int) -> bool {
        self.total - amount > 0
    }
}

/// A named pool of funds. `total` is what is left to spend, in cents.
#[derive(Debug, PartialEq)]
pub struct Budget {
    id: String,
    name: String,
    total: i64,
}

impl View for Budget {
    type V = BudgetView;

    closed spec fn view(&self) -> BudgetView {
        BudgetView { id: self.id@, name: self.name@, total: self.total as int }
    }
}

impl Clone for Budget {
    fn clone(&self) -> (r: Self)
        ensures
            r@ == self@,
    {
        Budget { id: self.id.clone(), name: self.name.clone(), total: self.total }
    }
}

impl Budget {
    /// A new budget with a fresh identifier. The total is not checked: only
    /// withdrawals are constrained.
    pub fn new(name: String, total: i64) -> (r: Self)
        ensures
            r@.name == name@,
            r@.total == total,
            r@.id.len() == ID_LEN,
    {
        Budget { id: fresh_id(), name, total }
    }

    /// A budget rebuilt from stored fields, as they are.
    pub fn load(id: String, name: String, total: i64) -> (r: Self)
        ensures
            r@ == (BudgetView { id: id@, name: name@, total: total as int }),
    {
        Budget { id, name, total }
    }

    pub fn id(&self) -> (r: &str)
        ensures
            r@ == self@.id,
    {
        self.id.as_str()
    }

    pub fn name(&self) -> (r: &str)
        ensures
            r@ == self@.name,
    {
        self.name.as_str()
    }

    pub fn total(&self) -> (r: i64)
        ensures
            r == self@.total,
    {
        self.total
    }

    /// The funds that are left; the same as `total`.
    pub fn available_funds(&self) -> (r: i64)
        ensures
            r == self@.total,
    {
        self.total
    }

    /// Whether taking `amount` out would leave a positive total.
    pub fn can_withdraw(&self, amount: i64) -> (r: bool)
        ensures
            r == self@.can_withdraw(amount as int),
    {
        (self.total as i128) - (amount as i128) > 0
    }

    /// Takes `amount` out of the budget when that leaves a positive total;
    /// otherwise fails with `InsufficientFunds` and changes nothing.
    pub fn withdraw(&mut self, amount: i64) -> (r: Result<(), BudgetError>)
        requires
            old(self)@.total - amount <= i64::MAX,
        ensures
            r is Ok <==> old(self)@.can_withdraw(amount as int),
            r is Ok ==> final(self)@ == old(self)@.withdrawn(amount as int),
            r is Err ==> r == Err::<(), BudgetError>(BudgetError::InsufficientFunds) && final(self)@
                == old(self)@,
    {
        if self.can_withdraw(amount) {
            self.total = self.total - amount;
            Ok(())
        } else {
            Err(BudgetError::InsufficientFunds)
        }
    }

    /// Puts `amount` back into the budget. It cannot fail.
    pub fn deposit(&mut self, amount: i64)
        requires
            fits_i64(old(self)@.total + amount),
        ensures
            final(self)@ == old(self)@.deposited(amount as int),
    {
        self.total = self.total + amount;
    }
}

/// What a `Transaction` holds.
pub struct TransactionView {
    pub id: Seq<char>,
    pub name: Seq<char>,
    pub value: int,
    pub budget_id: Seq<char>,
}

/// An expenditure of `value` cents recorded against the budget `budget_id`.
#[derive(Debug, PartialEq)]
pub struct Transaction {
    id: String,
    name: String,
    value: i64,
    budget_id: String,
}

impl View for Transaction {
    type V = TransactionView;

    closed spec fn view(&self) -> TransactionView {
        TransactionView {
            id: self.id@,
            name: self.name@,
            value: self.value as int,
            budget_id: self.budget_id@,
        }
    }
}

impl Clone for Transaction {
    fn clone(&self) -> (r: Self)
        ensures
            r@ == self@,
    {
        Transaction {
            id: self.id.clone(),
            name: self.name.clone(),
            value: self.value,
            budget_id: self.budget_id.clone(),
        }
    }
}

impl Transaction {
    /// A new transaction with a fresh identifier.
    pub fn new(name: String, value: i64, budget_id: String) -> (r: Self)
        ensures
            r@.name == name@,
            r@.value == value,
            r@.budget_id == budget_id@,
            r@.id.len() == ID_LEN,
    {
        Transaction { id: fresh_id(), name, value, budget_id }
    }

    /// A transaction rebuilt from stored fields, as they are.
    pub fn load(id: String, name: String, value: i64, budget_id: String) -> (r: Self)
        ensures
            r@ == (TransactionView {
                id: id@,
                name: name@,
                value: value as int,
                budget_id: budget_id@,
            }),
    {
        Transaction { id, name, value, budget_id }
    }

    pub fn id(&self) -> (r: &str)
        ensures
            r@ == self@.id,
    {
        self.id.as_str()
    }

    pub fn name(&self) -> (r: &str)
        ensures
            r@ == self@.name,
    {
        self.name.as_str()
    }

    pub fn value(&self) -> (r: i64)
        ensures
            r == self@.value,
    {
        self.value
    }

    pub fn budget_id(&self) -> (r: &str)
        ensures
            r@ == self@.budget_id,
    {
        self.budget_id.as_str()
    }

    /// Whether the transaction has the identifier `id`.
    pub(crate) fn has_id(&self, id: &String) -> (r: bool)
        ensures
            r == (self@.id == id@),
    {
        self.id == *id
    }

    /// Gives the transaction a new name; nothing else changes.
    pub fn rename(&mut self, name: String)
        ensures
            final(self)@ == (TransactionView { name: name@, ..old(self)@ }),
    {
        self.name = name;
    }

    /// Gives the transaction a new value; no budget is touched.
    pub fn update_value(&mut self, value: i64)
        ensures
            final(self)@ == (TransactionView { value: value as int, ..old(self)@ }),
    {
        self.value = value;
    }
}

} // verus!
