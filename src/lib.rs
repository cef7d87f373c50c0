//! Runtime-checked loans on memory regions owned by a managed host runtime.

pub mod borrow;
pub mod context;
pub mod host;
pub mod ledger;
