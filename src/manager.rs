use vstd::prelude::*;

use crate::error::BudgetError;
use crate::ids::{fresh_id, ID_LEN};
use crate::models::{fits_i64, Budget, BudgetView, Transaction, TransactionView};

verus! {

/// What a `BudgetManager` holds: its budget and its transactions, in order.
pub struct ManagerView {
    pub budget: BudgetView,
    pub transactions: Seq<TransactionView>,
}

impl ManagerView {
    /// Every transaction belongs to the budget.
    pub open spec fn wf(self) -> bool {
        forall|i: int|
            0 <= i < self.transactions.len() ==> #[trigger] self.transactions[i].budget_id
                == self.budget.id
    }

    pub open spec fn available_funds(self) -> int {
        self.budget.total
    }

    /// Some transaction has the identifier `id`.
    pub open spec fn contains_tx(self, id: Seq<char>) -> bool {
        exists|i: int| 0 <= i < self.transactions.len() && #[trigger] self.transactions[i].id == id
    }

    /// `i` is the position of the first transaction with the identifier `id`.
    pub open spec fn is_first_match(self, id: Seq<char>, i: int) -> bool {
        &&& 0 <= i < self.transactions.len()
        &&& self.transactions[i].id == id
        &&& forall|j: int| 0 <= j < i ==> #[trigger] self.transactions[j].id != id
    }

    /// The position of the first transaction with the identifier `id`, where
    /// `contains_tx(id)`.
    pub open spec fn first_index(self, id: Seq<char>) -> int {
        choose|i: int| self.is_first_match(id, i)
    }

    /// The transaction that `add_tx` records, for identifier `id`.
    pub open spec fn new_tx(self, id: Seq<char>, name: Seq<char>, value: int) -> TransactionView {
        TransactionView { id, name, value, budget_id: self.budget.id }
    }

    /// What adding a transaction of `value` decides: the withdrawal must
    /// leave a positive total that fits in an `i64`.
    pub open spec fn add_check(self, value: int) -> Result<(), BudgetError> {
        let remaining = self.budget.total - value;
        if remaining > i64::MAX {
            Err(BudgetError::Overflow)
        } else if remaining <= 0 {
            Err(BudgetError::InsufficientFunds)
        } else {
            Ok(())
        }
    }

    /// What removing the transaction `id` decides: it must be there, and its
    /// value, put back, must leave a total that fits in an `i64`.
    pub open spec fn remove_check(self, id: Seq<char>) -> Result<(), BudgetError> {
        if !self.contains_tx(id) {
            Err(BudgetError::NotFound)
        } else if !fits_i64(self.budget.total + self.transactions[self.first_index(id)].value) {
            Err(BudgetError::Overflow)
        } else {
            Ok(())
        }
    }

    /// What giving the transaction `id` the value `value` decides: it must be
    /// there, its old value put back must fit, and withdrawing the new value
    /// from that must leave a positive total that fits.
    pub open spec fn update_check(self, id: Seq<char>, value: int) -> Result<(), BudgetError> {
        if !self.contains_tx(id) {
            Err(BudgetError::NotFound)
        } else {
            let refunded = self.budget.total + self.transactions[self.first_index(id)].value;
            if !fits_i64(refunded) || refunded - value > i64::MAX {
                Err(BudgetError::Overflow)
            } else if refunded - value <= 0 {
                Err(BudgetError::InsufficientFunds)
            } else {
                Ok(())
            }
        }
    }

    /// `tx` appended, its value withdrawn from the budget.
    pub open spec fn with_added(self, tx: TransactionView) -> ManagerView {
        ManagerView {
            budget: self.budget.withdrawn(tx.value),
            transactions: self.transactions.push(tx),
        }
    }

    /// The transaction at `i` taken out, its value deposited back.
    pub open spec fn with_removed(self, i: int) -> ManagerView {
        ManagerView {
            budget: self.budget.deposited(self.transactions[i].value),
            transactions: self.transactions.remove(i),
        }
    }

    /// The transaction at `i` given the value `value`: its old value deposited,
    /// then the new one withdrawn.
    pub open spec fn with_updated(self, i: int, value: int) -> ManagerView {
        ManagerView {
            budget: self.budget.deposited(self.transactions[i].value).withdrawn(value),
            transactions: self.transactions.update(
                i,
                TransactionView { value, ..self.transactions[i] },
            ),
        }
    }
}

/// Where a transaction with identifier `id` is in `m`, there is a first one.
pub proof fn lemma_first_match_exists(m: ManagerView, id: Seq<char>, k: int)
    requires
        0 <= k < m.transactions.len(),
        m.transactions[k].id == id,
    ensures
        m.is_first_match(id, m.first_index(id)),
    decreases k,
{
    if exists|j: int| 0 <= j < k && #[trigger] m.transactions[j].id == id {
        let j = choose|j: int| 0 <= j < k && #[trigger] m.transactions[j].id == id;
        lemma_first_match_exists(m, id, j);
    } else {
        assert(m.is_first_match(id, k));
    }
}

/// There is at most one first match, so `first_index` names it.
pub proof fn lemma_first_match_unique(m: ManagerView, id: Seq<char>, i: int)
    requires
        m.is_first_match(id, i),
    ensures
        m.first_index(id) == i,
{
    lemma_first_match_exists(m, id, i);
    let k = m.first_index(id);
    if k < i {
        assert(m.transactions[k].id != id);
    } else if i < k {
        assert(m.transactions[i].id != id);
    }
}

/// The views of a sequence of transactions.
pub open spec fn views_of(txs: Seq<Transaction>) -> Seq<TransactionView> {
    txs.map_values(|t: Transaction| t@)
}

/// Removing the transaction that was just added, under an identifier that
/// no earlier transaction has, succeeds and gives back the aggregate as it
/// was, funds included.
pub proof fn lemma_add_then_remove(m: ManagerView, id: Seq<char>, name: Seq<char>, value: int)
    requires
        fits_i64(m.budget.total),
        !m.contains_tx(id),
    ensures
        ({
            let added = m.with_added(m.new_tx(id, name, value));
            &&& added.contains_tx(id)
            &&& added.first_index(id) == m.transactions.len()
            &&& added.remove_check(id) is Ok
            &&& added.with_removed(added.first_index(id)) == m
            &&& added.with_removed(added.first_index(id)).available_funds() == m.available_funds()
        }),
{
    let added = m.with_added(m.new_tx(id, name, value));
    let n = m.transactions.len() as int;
    assert(added.transactions[n].id == id);
    assert(added.is_first_match(id, n)) by {
        assert forall|j: int| 0 <= j < n implies #[trigger] added.transactions[j].id != id by {
            assert(added.transactions[j] == m.transactions[j]);
        }
    }
    lemma_first_match_unique(added, id, n);
    assert(added.transactions.remove(n) =~= m.transactions);
}

/// A budget together with the transactions recorded against it. Adding,
/// updating and removing a transaction moves its value out of or back into
/// the budget, so that the total stays the starting total minus the values
/// of the transactions that are there.
#[derive(Debug, PartialEq)]
pub struct BudgetManager {
    budget: Budget,
    transactions: Vec<Transaction>,
}

impl View for BudgetManager {
    type V = ManagerView;

    closed spec fn view(&self) -> ManagerView {
        ManagerView {
            budget: self.budget@,
            transactions: views_of(self.transactions@),
        }
    }
}

impl Clone for BudgetManager {
    fn clone(&self) -> (r: Self)
        ensures
            r@ == self@,
    {
        let mut transactions: Vec<Transaction> = Vec::new();
        let mut i: usize = 0;
        while i < self.transactions.len()
            invariant
                i <= self.transactions@.len(),
                transactions@.len() == i,
                forall|j: int| 0 <= j < i ==> #[trigger] transactions@[j]@ == self.transactions@[j]@,
            decreases self.transactions@.len() - i,
        {
            let t = self.transactions[i].clone();
            transactions.push(t);
            i = i + 1;
        }
        assert(views_of(transactions@) =~= views_of(self.transactions@));
        BudgetManager { budget: self.budget.clone(), transactions }
    }
}

impl BudgetManager {
    /// Wraps a budget and its transactions: an empty list for a new budget,
    /// or what was stored for one that is reloaded.
    pub fn new(budget: Budget, transactions: Vec<Transaction>) -> (r: Self)
        requires
            forall|i: int|
                0 <= i < transactions@.len() ==> #[trigger] transactions@[i]@.budget_id
                    == budget@.id,
        ensures
            r@ == (ManagerView { budget: budget@, transactions: views_of(transactions@) }),
            r@.wf(),
    {
        BudgetManager { budget, transactions }
    }

    pub fn available_funds(&self) -> (r: i64)
        ensures
            r == self@.available_funds(),
    {
        self.budget.available_funds()
    }

    pub fn name(&self) -> (r: &str)
        ensures
            r@ == self@.budget.name,
    {
        self.budget.name()
    }

    pub fn id(&self) -> (r: &str)
        ensures
            r@ == self@.budget.id,
    {
        self.budget.id()
    }

    pub fn budget(&self) -> (r: &Budget)
        ensures
            r@ == self@.budget,
    {
        &self.budget
    }

    pub fn transactions(&self) -> (r: &Vec<Transaction>)
        ensures
            views_of(r@) == self@.transactions,
    {
        &self.transactions
    }

    /// The position of the first transaction with the identifier `id`, or
    /// `NotFound`.
    pub fn find_tx_index(&self, id: &str) -> (r: Result<usize, BudgetError>)
        ensures
            match r {
                Ok(i) => self@.is_first_match(id@, i as int) && self@.first_index(id@) == i,
                Err(e) => e == BudgetError::NotFound && !self@.contains_tx(id@),
            },
    {
        let target = id.to_owned();
        let mut i: usize = 0;
        while i < self.transactions.len()
            invariant
                i <= self.transactions@.len(),
                target@ == id@,
                forall|j: int| 0 <= j < i ==> #[trigger] self@.transactions[j].id != id@,
            decreases self.transactions@.len() - i,
        {
            if self.transactions[i].has_id(&target) {
                proof {
                    lemma_first_match_unique(self@, id@, i as int);
                }
                return Ok(i);
            }
            i = i + 1;
        }
        Err(BudgetError::NotFound)
    }

    /// Records a transaction with the identifier `id`: withdraws `value` from
    /// the budget, then appends the transaction. Where the withdrawal is
    /// refused, nothing changes.
    pub fn add_tx_with_id(&mut self, id: String, name: String, value: i64) -> (r: Result<
        (),
        BudgetError,
    >)
        ensures
            r == old(self)@.add_check(value as int),
            r is Ok ==> final(self)@ == old(self)@.with_added(
                old(self)@.new_tx(id@, name@, value as int),
            ),
            r is Ok ==> final(self)@.available_funds() == old(self)@.available_funds() - value,
            r is Err ==> final(self)@ == old(self)@,
            old(self)@.wf() ==> final(self)@.wf(),
    {
        let remaining = (self.budget.total() as i128) - (value as i128);
        if remaining > i64::MAX as i128 {
            return Err(BudgetError::Overflow);
        }
        let tx = Transaction::load(id, name, value, self.id().to_owned());
        match self.budget.withdraw(value) {
            Ok(()) => {
                self.transactions.push(tx);
                assert(views_of(self.transactions@) =~= views_of(old(self).transactions@).push(
                    tx@,
                ));
                assert(old(self)@.wf() ==> self@.wf()) by {
                    if old(self)@.wf() {
                        assert forall|i: int| 0 <= i < self@.transactions.len() implies #[trigger] self@.transactions[i].budget_id
                            == self@.budget.id by {
                            if i < old(self)@.transactions.len() {
                                assert(self@.transactions[i] == old(self)@.transactions[i]);
                            }
                        }
                    }
                }
                Ok(())
            },
            Err(e) => Err(e),
        }
    }

    /// Records a transaction under a fresh identifier, as `add_tx_with_id`
    /// does, and returns that identifier.
    pub fn add_tx(&mut self, name: String, value: i64) -> (r: Result<String, BudgetError>)
        ensures
            match r {
                Ok(id) => {
                    &&& old(self)@.add_check(value as int) is Ok
                    &&& id@.len() == ID_LEN
                    &&& final(self)@ == old(self)@.with_added(
                        old(self)@.new_tx(id@, name@, value as int),
                    )
                },
                Err(e) => old(self)@.add_check(value as int) == Err::<(), BudgetError>(e)
                    && final(self)@ == old(self)@,
            },
            r is Ok ==> final(self)@.available_funds() == old(self)@.available_funds() - value,
            old(self)@.available_funds() - value <= 0 ==> r == Err::<String, BudgetError>(
                BudgetError::InsufficientFunds,
            ) && final(self)@.available_funds() == old(self)@.available_funds(),
            old(self)@.wf() ==> final(self)@.wf(),
    {
        let id = fresh_id();
        match self.add_tx_with_id(id.clone(), name, value) {
            Ok(()) => Ok(id),
            Err(e) => Err(e),
        }
    }

    /// Takes out the first transaction with the identifier `id` and deposits
    /// its value back into the budget; the others keep their order.
    pub fn remove_tx(&mut self, id: &str) -> (r: Result<(), BudgetError>)
        ensures
            r == old(self)@.remove_check(id@),
            r is Ok ==> final(self)@ == old(self)@.with_removed(old(self)@.first_index(id@)),
            r is Err ==> final(self)@ == old(self)@,
            old(self)@.wf() ==> final(self)@.wf(),
    {
        let idx = match self.find_tx_index(id) {
            Ok(i) => i,
            Err(e) => return Err(e),
        };
        let value = self.transactions[idx].value();
        let total = (self.budget.total() as i128) + (value as i128);
        if total < i64::MIN as i128 || total > i64::MAX as i128 {
            return Err(BudgetError::Overflow);
        }
        self.budget.deposit(value);
        self.transactions.remove(idx);
        assert(views_of(self.transactions@) =~= views_of(old(self).transactions@).remove(
            idx as int,
        ));
        Ok(())
    }

    /// Gives the first transaction with the identifier `id` the value
    /// `value`: deposits its old value, sets the new one, then withdraws it.
    /// Both steps are checked before anything changes, so on failure nothing
    /// has changed.
    pub fn update_tx(&mut self, id: &str, value: i64) -> (r: Result<(), BudgetError>)
        ensures
            r == old(self)@.update_check(id@, value as int),
            r is Ok ==> final(self)@ == old(self)@.with_updated(
                old(self)@.first_index(id@),
                value as int,
            ),
            r is Ok ==> final(self)@.available_funds() == old(self)@.available_funds() + (old(
                self,
            )@.transactions[old(self)@.first_index(id@)].value - value),
            r is Err ==> final(self)@ == old(self)@,
            old(self)@.wf() ==> final(self)@.wf(),
    {
        let idx = match self.find_tx_index(id) {
            Ok(i) => i,
            Err(e) => return Err(e),
        };
        let old_value = self.transactions[idx].value();
        let refunded = (self.budget.total() as i128) + (old_value as i128);
        if refunded < i64::MIN as i128 || refunded > i64::MAX as i128 {
            return Err(BudgetError::Overflow);
        }
        let remaining = refunded - (value as i128);
        if remaining > i64::MAX as i128 {
            return Err(BudgetError::Overflow);
        }
        if remaining <= 0 {
            return Err(BudgetError::InsufficientFunds);
        }
        self.budget.deposit(old_value);
        self.transactions[idx].update_value(value);
        let withdrawn = self.budget.withdraw(value);
        assert(withdrawn is Ok);
        assert(views_of(self.transactions@) =~= views_of(old(self).transactions@).update(
            idx as int,
            TransactionView { value: value as int, ..old(self)@.transactions[idx as int] },
        ));
        Ok(())
    }
}

} // verus!
