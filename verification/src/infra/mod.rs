//! Supporting stores.

pub mod ticket_store;
