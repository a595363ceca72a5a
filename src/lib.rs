//! Budgets and the transactions recorded against them.
//!
//! Amounts are whole numbers of cents (hundredths of a currency unit), held
//! in `i64`, so that every balance change is exact.

pub mod error;
pub mod handlers;
pub mod ids;
pub mod manager;
pub mod models;
pub mod repository;

pub use error::BudgetError;
pub use handlers::{AddTransaction, CreateBudget, RemoveTransaction, UpdateTransaction};
pub use manager::BudgetManager;
pub use models::{Budget, Transaction};
pub use repository::{InMemoryRepository, Repository};
