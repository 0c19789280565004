//! A deterministic state-transition module: a singleton counter record
//! with owner-gated reset, and a keyed member registry with
//! existence-checked add, update and delete. The host runtime supplies
//! the caller identity, the timestamp and the transactional store; the
//! handlers here interpret one message against an in-memory image of
//! that store and either complete their whole mutation or return an
//! error with the store untouched.

pub mod contract;
pub mod decimal;
pub mod error;
pub mod laws;
pub mod msg;
pub mod state;
