use vstd::hash_map::StringHashMap;
use vstd::prelude::*;

use crate::error::BudgetError;
use crate::manager::{BudgetManager, ManagerView};

verus! {

/// Where aggregates are kept between commands, each under its budget's
/// identifier. `add` stores an aggregate, `get` reloads it, `delete` removes
/// a budget together with its transactions.
pub trait Repository {
    fn add(&mut self, item: &BudgetManager) -> Result<(), BudgetError>;

    fn get(&self, id: &str) -> Result<BudgetManager, BudgetError>;

    fn delete(&mut self, id: &str) -> Result<(), BudgetError>;
}

/// A store of aggregates, keyed by budget identifier.
pub type StoreView = Map<Seq<char>, ManagerView>;

/// The store after `item` has been saved under its budget's identifier,
/// replacing whatever was there.
pub open spec fn stored_with(store: StoreView, item: ManagerView) -> StoreView {
    store.insert(item.budget.id, item)
}

/// The store after the budget `id` and its transactions have gone.
pub open spec fn stored_without(store: StoreView, id: Seq<char>) -> StoreView {
    store.remove(id)
}

/// Each aggregate sits under its own budget's identifier, and each is well
/// formed.
pub open spec fn store_wf(store: StoreView) -> bool {
    forall|k: Seq<char>|
        #[trigger] store.contains_key(k) ==> store[k].budget.id == k && store[k].wf()
}

/// Reloading an aggregate right after saving it gives it back as it was:
/// the same funds and the same transactions.
pub proof fn lemma_round_trip(store: StoreView, item: ManagerView)
    ensures
        stored_with(store, item).contains_key(item.budget.id),
        stored_with(store, item)[item.budget.id] == item,
        stored_with(store, item)[item.budget.id].available_funds() == item.available_funds(),
        stored_with(store, item)[item.budget.id].transactions.to_multiset()
            == item.transactions.to_multiset(),
{
}

/// After a delete the budget is gone, and no transaction that the store
/// still holds refers to it.
pub proof fn lemma_delete_cascades(store: StoreView, id: Seq<char>)
    requires
        store_wf(store),
    ensures
        !stored_without(store, id).contains_key(id),
        forall|k: Seq<char>, i: int|
            #[trigger] stored_without(store, id).contains_key(k) && 0 <= i
                < stored_without(store, id)[k].transactions.len() ==> #[trigger] stored_without(
                store,
                id,
            )[k].transactions[i].budget_id != id,
{
    let rest = stored_without(store, id);
    assert forall|k: Seq<char>, i: int|
        #[trigger] rest.contains_key(k) && 0 <= i < rest[k].transactions.len() implies #[trigger] rest[k].transactions[i].budget_id
        != id by {
        assert(store.contains_key(k));
        assert(rest[k] == store[k]);
    }
}

/// A repository that keeps aggregates in memory, for tests and for hosts
/// that need no persistence.
pub struct InMemoryRepository {
    budgets: StringHashMap<BudgetManager>,
}

impl View for InMemoryRepository {
    type V = StoreView;

    closed spec fn view(&self) -> StoreView {
        self.budgets@.map_values(|m: BudgetManager| m@)
    }
}

impl InMemoryRepository {
    pub fn new() -> (r: Self)
        ensures
            r@ == StoreView::empty(),
    {
        let r = InMemoryRepository { budgets: StringHashMap::new() };
        assert(r@ =~= StoreView::empty());
        r
    }

    /// Saves a copy of `item` under its budget's identifier, replacing any
    /// aggregate stored there.
    pub fn add(&mut self, item: &BudgetManager) -> (r: Result<(), BudgetError>)
        ensures
            r is Ok,
            final(self)@ == stored_with(old(self)@, item@),
            store_wf(old(self)@) && item@.wf() ==> store_wf(final(self)@),
    {
        let copy = item.clone();
        self.budgets.insert(item.id().to_owned(), copy);
        assert(self@ =~= stored_with(old(self)@, item@));
        Ok(())
    }

    /// A copy of the aggregate stored under `id`, or `NotFound`.
    pub fn get(&self, id: &str) -> (r: Result<BudgetManager, BudgetError>)
        ensures
            match r {
                Ok(m) => self@.contains_key(id@) && m@ == self@[id@],
                Err(e) => e == BudgetError::NotFound && !self@.contains_key(id@),
            },
    {
        match self.budgets.get(id) {
            Some(m) => Ok(m.clone()),
            None => Err(BudgetError::NotFound),
        }
    }

    /// Removes the aggregate stored under `id`, transactions and all, or
    /// fails with `NotFound` when there is none.
    pub fn delete(&mut self, id: &str) -> (r: Result<(), BudgetError>)
        ensures
            r is Ok <==> old(self)@.contains_key(id@),
            r is Ok ==> final(self)@ == stored_without(old(self)@, id@),
            r is Err ==> r == Err::<(), BudgetError>(BudgetError::NotFound) && final(self)@ == old(
                self,
            )@,
            store_wf(old(self)@) ==> store_wf(final(self)@),
    {
        if self.budgets.contains_key(id) {
            self.budgets.remove(id);
            assert(self@ =~= stored_without(old(self)@, id@));
            Ok(())
        } else {
            Err(BudgetError::NotFound)
        }
    }
}

impl Repository for InMemoryRepository {
    fn add(&mut self, item: &BudgetManager) -> Result<(), BudgetError> {
        InMemoryRepository::add(self, item)
    }

    fn get(&self, id: &str) -> Result<BudgetManager, BudgetError> {
        InMemoryRepository::get(self, id)
    }

    fn delete(&mut self, id: &str) -> Result<(), BudgetError> {
        InMemoryRepository::delete(self, id)
    }
}

} // verus!
