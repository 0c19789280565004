//! The failure taxonomy of the contract. Every handler either finishes
//! its whole load-mutate-store cycle or returns one of these before any
//! mutation is visible.

use vstd::prelude::*;

verus! {

#[derive(Clone, Copy, Debug, PartialEq, Eq, Structural)]
pub enum ContractError {
    /// The caller of a privileged mutation is not the recorded owner.
    Unauthorized,
    /// An update or delete was aimed at a key with no member under it.
    MemberNotFound,
    /// An add was aimed at a key that already holds a member.
    AlreadyExists,
    /// The counter record was asked for before initialization.
    StoreNotInitialized,
}

} // verus!
