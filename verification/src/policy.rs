//! Policy (SPD entry) operations: add, update, delete, and policy-database
//! statistics.

pub mod delete;
pub mod modify;
pub mod spdinfo;
