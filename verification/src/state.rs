//! State (SA) operations: add, update, delete, get, dump, flush, SPI
//! allocation, and state-database statistics.

pub mod allocspi;
pub mod delete;
pub mod flush;
pub mod get;
pub mod handle;
pub mod modify;
pub mod sadinfo;
