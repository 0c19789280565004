//! The laws of the contract, proved once over the spec-level
//! transitions that every handler's own contract is stated against.
//! Each handler additionally guarantees that a failing step leaves the
//! store exactly as it was, so a law about a step's error is also a
//! law about the store.

use vstd::prelude::*;
use crate::contract::{spec_add_member, spec_delete_member, spec_execute, spec_increment,
    spec_instantiate, spec_query_count, spec_query_member, spec_reset, spec_update_member};
use crate::error::ContractError;
use crate::msg::ExecuteMsg;
use crate::state::StoreModel;

verus! {

/// Initializing with any count and then querying answers exactly that
/// count, with the initializer as owner.
pub proof fn law_initialize_then_query(s: StoreModel, sender: Seq<char>, time: u64, count: i32)
    ensures
        spec_query_count(spec_instantiate(s, sender, time, count)) matches Ok(c) && c.count == count
            && c.owner == sender,
{
}

/// `n` increments raise the count by exactly `n` and touch neither the
/// owner nor the registry. The increment step takes no caller
/// identity, so no caller is privileged.
pub open spec fn spec_increment_n(s: StoreModel, time: u64, n: nat) -> Result<
    StoreModel,
    ContractError,
>
    decreases n,
{
    if n == 0 {
        Ok(s)
    } else {
        match spec_increment_n(s, time, (n - 1) as nat) {
            Ok(s2) => spec_increment(s2, time),
            Err(e) => Err(e),
        }
    }
}

/// The counter is monotonic under increments: from a record at count
/// `C`, `n` increments that stay within `i32` reach exactly `C + n`.
pub proof fn law_increment_monotonic(s: StoreModel, time: u64, n: nat)
    requires
        s.state matches Some(st) && st.count + n <= i32::MAX,
    ensures
        spec_increment_n(s, time, n) matches Ok(s2) && s2.state matches Some(st2) && st2.count
            == s.state->Some_0.count + n && st2.owner == s.state->Some_0.owner && s2.members
            == s.members,
    decreases n,
{
    if n != 0 {
        law_increment_monotonic(s, time, (n - 1) as nat);
    }
}

/// A reset attempted by anyone but the recorded owner fails with
/// `Unauthorized`; the handler then returns the store unchanged.
pub proof fn law_reset_requires_owner(s: StoreModel, sender: Seq<char>, time: u64, count: i32)
    requires
        s.state matches Some(st) && sender != st.owner,
    ensures
        spec_reset(s, sender, time, count) matches Err(e) && e == ContractError::Unauthorized,
{
}

/// A reset by the owner sets the count to exactly the requested value
/// and keeps the owner and the registry.
pub proof fn law_reset_by_owner(s: StoreModel, sender: Seq<char>, time: u64, count: i32)
    requires
        s.state matches Some(st) && sender == st.owner,
    ensures
        spec_reset(s, sender, time, count) matches Ok(s2) && s2.state matches Some(st2)
            && st2.count == count && st2.owner == sender && s2.members == s.members,
{
}

/// Adding a member under a free key succeeds, and a query for that key
/// then finds a record with exactly the given fields and this call's
/// timestamp.
pub proof fn law_add_then_query(s: StoreModel, time: u64, key: Seq<char>, name: Seq<char>, age: i8)
    requires
        !s.members.contains_key(key),
    ensures
        spec_add_member(s, time, key, name, age) matches Ok(s2) && spec_query_member(s2, key)
            matches Some(m) && m.name == name && m.age == age && m.date_joined == time,
{
}

/// A query for a key that holds no member answers `found == false`
/// with no record, and is never an error.
pub proof fn law_query_unused_key(s: StoreModel, key: Seq<char>)
    requires
        !s.members.contains_key(key),
    ensures
        spec_query_member(s, key) is None,
{
}

/// An update aimed at a free key fails with `MemberNotFound`.
pub proof fn law_update_missing_member(
    s: StoreModel,
    time: u64,
    key: Seq<char>,
    name: Seq<char>,
    age: i8,
)
    requires
        !s.members.contains_key(key),
    ensures
        spec_update_member(s, time, key, name, age) matches Err(e) && e
            == ContractError::MemberNotFound,
{
}

/// A delete aimed at a free key fails with `MemberNotFound`.
pub proof fn law_delete_missing_member(s: StoreModel, key: Seq<char>)
    requires
        !s.members.contains_key(key),
    ensures
        spec_delete_member(s, key) matches Err(e) && e == ContractError::MemberNotFound,
{
}

/// The owner recorded at initialization survives every successful
/// message: no step of the dispatch alphabet rewrites it.
pub proof fn law_owner_immutable(s: StoreModel, sender: Seq<char>, time: u64, msg: ExecuteMsg)
    requires
        s.state is Some,
    ensures
        spec_execute(s, sender, time, msg) matches Ok(s2) ==> s2.state matches Some(st2)
            && st2.owner == s.state->Some_0.owner,
{
}

} // verus!
