//! The dispatch layer and the handlers: initialization, counter
//! increment and owner-gated reset, member add/update/delete, and the
//! two read-only queries. Each handler's contract is stated against a
//! spec-level transition on the store image, so that one step of the
//! whole contract is a single mathematical function.

use vstd::prelude::*;
use crate::decimal::{dec_int, i32_to_decimal};
use crate::error::ContractError;
use crate::msg::{CountModel, CountResponse, ExecuteMsg, InstantiateMsg, MemberResponse, QueryMsg,
    Response};
use crate::state::{lemma_member_views_insert, lemma_member_views_remove, Member, MemberModel,
    State, StateModel, Store, StoreModel};

verus! {

/// The fixed status string written at initialization.
pub open spec fn initial_message() -> Seq<char> {
    "This is a state 1"@
}

/// The status string written by an increment that reached `count`.
pub open spec fn increment_message(count: int) -> Seq<char> {
    "Counter incremented "@ + dec_int(count)
}

/// The status string written by a reset to `count`.
pub open spec fn reset_message(count: int) -> Seq<char> {
    "Counter reset :"@ + dec_int(count)
}

/// One initialization step: the counter record is written
/// unconditionally, so a repeated initialization silently overwrites
/// the record, owner included. The registry is untouched.
pub open spec fn spec_instantiate(s: StoreModel, sender: Seq<char>, time: u64, count: i32) -> StoreModel {
    StoreModel {
        state: Some(
            StateModel { count, owner: sender, message: initial_message(), updated: time },
        ),
        members: s.members,
    }
}

/// One increment step: any caller may increment; the count rises by
/// exactly one and the message and timestamp are rewritten.
pub open spec fn spec_increment(s: StoreModel, time: u64) -> Result<StoreModel, ContractError> {
    match s.state {
        None => Err(ContractError::StoreNotInitialized),
        Some(st) => Ok(
            StoreModel {
                state: Some(
                    StateModel {
                        count: (st.count + 1) as i32,
                        owner: st.owner,
                        message: increment_message(st.count + 1),
                        updated: time,
                    },
                ),
                members: s.members,
            },
        ),
    }
}

/// One reset step: only the recorded owner may reset; the count is set
/// to exactly the requested value.
pub open spec fn spec_reset(s: StoreModel, sender: Seq<char>, time: u64, count: i32) -> Result<
    StoreModel,
    ContractError,
> {
    match s.state {
        None => Err(ContractError::StoreNotInitialized),
        Some(st) => if sender != st.owner {
            Err(ContractError::Unauthorized)
        } else {
            Ok(
                StoreModel {
                    state: Some(
                        StateModel {
                            count,
                            owner: st.owner,
                            message: reset_message(count as int),
                            updated: time,
                        },
                    ),
                    members: s.members,
                },
            )
        },
    }
}

/// One add step: refused when the key is taken; otherwise the new
/// record joins the registry with `date_joined` stamped from the call.
pub open spec fn spec_add_member(
    s: StoreModel,
    time: u64,
    key: Seq<char>,
    name: Seq<char>,
    age: i8,
) -> Result<StoreModel, ContractError> {
    if s.members.contains_key(key) {
        Err(ContractError::AlreadyExists)
    } else {
        Ok(
            StoreModel {
                state: s.state,
                members: s.members.insert(key, MemberModel { name, age, date_joined: time }),
            },
        )
    }
}

/// One update step: refused when the key is free; otherwise the stored
/// record is replaced whole, `date_joined` stamped anew from the call.
pub open spec fn spec_update_member(
    s: StoreModel,
    time: u64,
    key: Seq<char>,
    name: Seq<char>,
    age: i8,
) -> Result<StoreModel, ContractError> {
    if !s.members.contains_key(key) {
        Err(ContractError::MemberNotFound)
    } else {
        Ok(
            StoreModel {
                state: s.state,
                members: s.members.insert(key, MemberModel { name, age, date_joined: time }),
            },
        )
    }
}

/// One delete step: refused when the key is free; otherwise the record
/// leaves the registry.
pub open spec fn spec_delete_member(s: StoreModel, key: Seq<char>) -> Result<
    StoreModel,
    ContractError,
> {
    if !s.members.contains_key(key) {
        Err(ContractError::MemberNotFound)
    } else {
        Ok(StoreModel { state: s.state, members: s.members.remove(key) })
    }
}

/// What a counter query answers: the record's fields, the timestamp
/// scaled from nanoseconds to milliseconds.
pub open spec fn spec_query_count(s: StoreModel) -> Result<CountModel, ContractError> {
    match s.state {
        None => Err(ContractError::StoreNotInitialized),
        Some(st) => Ok(
            CountModel {
                count: st.count,
                message: st.message,
                owner: st.owner,
                updated: st.updated / 1_000_000,
            },
        ),
    }
}

/// What a member query answers: the record under the key, if any.
pub open spec fn spec_query_member(s: StoreModel, key: Seq<char>) -> Option<MemberModel> {
    if s.members.contains_key(key) {
        Some(s.members[key])
    } else {
        None
    }
}

/// One dispatch step over the whole message alphabet.
pub open spec fn spec_execute(s: StoreModel, sender: Seq<char>, time: u64, msg: ExecuteMsg) -> Result<
    StoreModel,
    ContractError,
> {
    match msg {
        ExecuteMsg::Increment {  } => spec_increment(s, time),
        ExecuteMsg::Reset { count } => spec_reset(s, sender, time, count),
        ExecuteMsg::AddNewMember { key, name, age } => spec_add_member(s, time, key@, name@, age),
        ExecuteMsg::UpdateMember { key, name, age } => spec_update_member(s, time, key@, name@, age),
        ExecuteMsg::DeleteMember { key } => spec_delete_member(s, key@),
    }
}

/// The `method` attribute that each message's success event carries.
pub open spec fn method_attr(msg: ExecuteMsg) -> Seq<char> {
    match msg {
        ExecuteMsg::Increment {  } => "try_increment"@,
        ExecuteMsg::Reset { .. } => "reset"@,
        ExecuteMsg::AddNewMember { .. } => "add_member"@,
        ExecuteMsg::UpdateMember { .. } => "member updated!"@,
        ExecuteMsg::DeleteMember { .. } => "member.deleted!"@,
    }
}

/// How a handler's outcome relates the store after the call to the
/// store before it: on success the step's new store stands and the
/// event names the method; on failure the step's error is returned and
/// the store is exactly what it was.
pub open spec fn step_applied(
    pre: StoreModel,
    post: StoreModel,
    r: Result<Response, ContractError>,
    step: Result<StoreModel, ContractError>,
    method: Seq<char>,
) -> bool {
    match step {
        Ok(s2) => post == s2 && (r matches Ok(resp) && resp.pairs() == seq![("method"@, method)]),
        Err(e) => post == pre && (r matches Err(e2) && e2 == e),
    }
}

/// Creates the counter record unconditionally and reports the owner
/// and the initial count as event attributes.
pub fn instantiate(store: &mut Store, sender: String, time: u64, msg: InstantiateMsg) -> (r:
    Response)
    ensures
        final(store)@ == spec_instantiate(old(store)@, sender@, time, msg.count),
        r.pairs() == seq![
            ("method"@, "instantiate"@),
            ("owner"@, sender@),
            ("count"@, dec_int(msg.count as int)),
        ],
{
    let owner_attr = sender.clone();
    let count_attr = i32_to_decimal(msg.count);
    store.state = Some(
        State {
            count: msg.count,
            owner: sender,
            message: String::from_str("This is a state 1"),
            updated: time,
        },
    );
    Response::new().add_attribute("method", String::from_str("instantiate")).add_attribute(
        "owner",
        owner_attr,
    ).add_attribute("count", count_attr)
}

/// Routes one message to its handler. No side effects of its own: the
/// outcome is exactly the routed handler's.
pub fn execute(store: &mut Store, sender: String, time: u64, msg: ExecuteMsg) -> (r: Result<
    Response,
    ContractError,
>)
    requires
        msg is Increment ==> (old(store)@.state matches Some(st) ==> st.count < i32::MAX),
    ensures
        step_applied(
            old(store)@,
            final(store)@,
            r,
            spec_execute(old(store)@, sender@, time, msg),
            method_attr(msg),
        ),
{
    match msg {
        ExecuteMsg::Increment {  } => try_increment(store, time),
        ExecuteMsg::Reset { count } => try_reset(store, sender, time, count),
        ExecuteMsg::AddNewMember { key, name, age } => add_member(store, time, key, name, age),
        ExecuteMsg::UpdateMember { key, name, age } => update_member(store, time, key, name, age),
        ExecuteMsg::DeleteMember { key } => delete_member(store, key),
    }
}

/// Raises the count by exactly one; open to any caller.
pub fn try_increment(store: &mut Store, time: u64) -> (r: Result<Response, ContractError>)
    requires
        old(store)@.state matches Some(st) ==> st.count < i32::MAX,
    ensures
        step_applied(
            old(store)@,
            final(store)@,
            r,
            spec_increment(old(store)@, time),
            "try_increment"@,
        ),
{
    match &store.state {
        None => Err(ContractError::StoreNotInitialized),
        Some(st) => {
            let new_count = st.count + 1;
            let mut message = String::from_str("Counter incremented ");
            let digits = i32_to_decimal(new_count);
            message.append(digits.as_str());
            let owner = st.owner.clone();
            store.state = Some(State { count: new_count, owner, message, updated: time });
            Ok(Response::new().add_attribute("method", String::from_str("try_increment")))
        },
    }
}

/// Sets the count to the requested value, for the recorded owner
/// alone; any other caller is refused with no change to the store.
pub fn try_reset(store: &mut Store, sender: String, time: u64, count: i32) -> (r: Result<
    Response,
    ContractError,
>)
    ensures
        step_applied(
            old(store)@,
            final(store)@,
            r,
            spec_reset(old(store)@, sender@, time, count),
            "reset"@,
        ),
{
    match &store.state {
        None => Err(ContractError::StoreNotInitialized),
        Some(st) => {
            if !sender.eq(&st.owner) {
                Err(ContractError::Unauthorized)
            } else {
                let mut message = String::from_str("Counter reset :");
                let digits = i32_to_decimal(count);
                message.append(digits.as_str());
                let owner = st.owner.clone();
                store.state = Some(State { count, owner, message, updated: time });
                Ok(Response::new().add_attribute("method", String::from_str("reset")))
            }
        },
    }
}

/// Stores a new member under a free key; a taken key is refused with a
/// recoverable error and no change to the store.
pub fn add_member(store: &mut Store, time: u64, key: String, name: String, age: i8) -> (r: Result<
    Response,
    ContractError,
>)
    ensures
        step_applied(
            old(store)@,
            final(store)@,
            r,
            spec_add_member(old(store)@, time, key@, name@, age),
            "add_member"@,
        ),
{
    if store.members.contains_key(key.as_str()) {
        Err(ContractError::AlreadyExists)
    } else {
        let member = Member { name, age, date_joined: time };
        let ghost member_snap = member;
        let ghost key_view = key@;
        let ghost pre_members = store.members@;
        store.members.insert(key, member);
        proof {
            lemma_member_views_insert(pre_members, key_view, member_snap);
        }
        Ok(Response::new().add_attribute("method", String::from_str("add_member")))
    }
}

/// Replaces the member under a taken key; a free key is refused. The
/// replacement stamps `date_joined` anew from this call.
pub fn update_member(store: &mut Store, time: u64, key: String, name: String, age: i8) -> (r:
    Result<Response, ContractError>)
    ensures
        step_applied(
            old(store)@,
            final(store)@,
            r,
            spec_update_member(old(store)@, time, key@, name@, age),
            "member updated!"@,
        ),
{
    if !store.members.contains_key(key.as_str()) {
        Err(ContractError::MemberNotFound)
    } else {
        let member = Member { name, age, date_joined: time };
        let ghost member_snap = member;
        let ghost key_view = key@;
        let ghost pre_members = store.members@;
        store.members.insert(key, member);
        proof {
            lemma_member_views_insert(pre_members, key_view, member_snap);
        }
        Ok(Response::new().add_attribute("method", String::from_str("member updated!")))
    }
}

/// Removes the member under a taken key; a free key is refused.
pub fn delete_member(store: &mut Store, key: String) -> (r: Result<Response, ContractError>)
    ensures
        step_applied(
            old(store)@,
            final(store)@,
            r,
            spec_delete_member(old(store)@, key@),
            "member.deleted!"@,
        ),
{
    if !store.members.contains_key(key.as_str()) {
        Err(ContractError::MemberNotFound)
    } else {
        let ghost pre_members = store.members@;
        store.members.remove(key.as_str());
        proof {
            lemma_member_views_remove(pre_members, key@);
        }
        Ok(Response::new().add_attribute("method", String::from_str("member.deleted!")))
    }
}

/// Answer to a read-only query: the counter record or one member.
pub enum QueryAnswer {
    Count(CountResponse),
    Member(MemberResponse),
}

/// Routes a read-only query; the store is never changed.
pub fn query(store: &Store, msg: QueryMsg) -> (r: Result<QueryAnswer, ContractError>)
    ensures
        match msg {
            QueryMsg::GetCount {  } => match spec_query_count(store@) {
                Ok(c) => r matches Ok(QueryAnswer::Count(cr)) && cr@ == c,
                Err(e) => r matches Err(e2) && e2 == e,
            },
            QueryMsg::GetMember { key } => r matches Ok(QueryAnswer::Member(mr))
                && mr.found == (spec_query_member(store@, key@) is Some) && (match spec_query_member(
                store@,
                key@,
            ) {
                Some(m) => mr.member matches Some(mm) && mm@ == m,
                None => mr.member is None,
            }),
        },
{
    match msg {
        QueryMsg::GetCount {  } => match query_count(store) {
            Ok(c) => Ok(QueryAnswer::Count(c)),
            Err(e) => Err(e),
        },
        QueryMsg::GetMember { key } => Ok(QueryAnswer::Member(query_member(store, key))),
    }
}

/// Reads the counter record; fails only before initialization.
pub fn query_count(store: &Store) -> (r: Result<CountResponse, ContractError>)
    ensures
        match spec_query_count(store@) {
            Ok(c) => r matches Ok(cr) && cr@ == c,
            Err(e) => r matches Err(e2) && e2 == e,
        },
{
    match &store.state {
        None => Err(ContractError::StoreNotInitialized),
        Some(st) => Ok(
            CountResponse {
                count: st.count,
                message: st.message.clone(),
                owner: st.owner.clone(),
                updated: st.updated / 1_000_000,
            },
        ),
    }
}

/// Reads one member; absence is a successful `found == false` answer.
pub fn query_member(store: &Store, key: String) -> (r: MemberResponse)
    ensures
        r.found == (spec_query_member(store@, key@) is Some),
        match spec_query_member(store@, key@) {
            Some(m) => r.member matches Some(mm) && mm@ == m,
            None => r.member is None,
        },
{
    match store.members.get(key.as_str()) {
        None => MemberResponse { found: false, member: None },
        Some(m) => MemberResponse { found: true, member: Some(m.duplicate()) },
    }
}

} // verus!
