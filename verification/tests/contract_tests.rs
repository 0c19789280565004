use counter::contract::{
    add_member, execute, instantiate, query, query_count, query_member, QueryAnswer,
};
use counter::error::ContractError;
use counter::msg::{ExecuteMsg, InstantiateMsg, QueryMsg};
use counter::state::Store;

// The timestamp a host would hand to a call, in nanoseconds.
const MOCK_TIME: u64 = 1_571_797_419_879_305_533;

fn get_count(store: &Store) -> counter::msg::CountResponse {
    match query(store, QueryMsg::GetCount {}).unwrap() {
        QueryAnswer::Count(c) => c,
        QueryAnswer::Member(_) => panic!("count query answered with a member"),
    }
}

fn get_member(store: &Store, key: &str) -> counter::msg::MemberResponse {
    match query(store, QueryMsg::GetMember { key: key.to_string() }).unwrap() {
        QueryAnswer::Member(m) => m,
        QueryAnswer::Count(_) => panic!("member query answered with a count"),
    }
}

#[test]
fn proper_initialization() {
    let mut store = Store::new();

    let msg = InstantiateMsg { count: 17 };
    let res = instantiate(&mut store, "creator".to_string(), MOCK_TIME, msg);
    assert_eq!(3, res.attributes.len());

    // it worked, let's query the state
    let value = get_count(&store);
    assert_eq!(17, value.count);

    println!("init.test.mesg:: {}", value.message);
}

#[test]
fn increment() {
    let mut store = Store::new();

    let msg = InstantiateMsg { count: 17 };
    let _res = instantiate(&mut store, "creator".to_string(), MOCK_TIME, msg);

    // anyone may increment
    let msg = ExecuteMsg::Increment {};
    let _res = execute(&mut store, "anyone".to_string(), MOCK_TIME, msg).unwrap();

    // should increase counter by 1
    let value = get_count(&store);
    assert_eq!(18, value.count);

    println!("increment.test.mesg:: {}", value.message);
}

#[test]
fn reset() {
    let mut store = Store::new();

    let msg = InstantiateMsg { count: 17 };
    let _res = instantiate(&mut store, "creator".to_string(), MOCK_TIME, msg);

    // a stranger may not reset
    let msg = ExecuteMsg::Reset { count: 5 };
    let res = execute(&mut store, "anyone".to_string(), MOCK_TIME, msg);
    match res {
        Err(ContractError::Unauthorized) => {}
        _ => panic!("Must return unauthorized error"),
    }

    // only the original creator can reset the counter
    let msg = ExecuteMsg::Reset { count: 5 };
    let _res = execute(&mut store, "creator".to_string(), MOCK_TIME, msg).unwrap();

    // should now be 5
    let value = get_count(&store);
    assert_eq!(5, value.count);
    println!("reset.test.mesg : {}", value.message);
    println!("owner : {:?}", value.owner);
}

#[test]
fn add_new_member() {
    let mut store = Store::new();

    let msg = ExecuteMsg::AddNewMember {
        key: "mem-0001".to_string(),
        name: "Katherine Tey".to_string(),
        age: 44,
    };

    let res = execute(&mut store, "creator".to_string(), MOCK_TIME, msg);

    match res {
        Err(e) => println!("Error!!! :{:?}", e),
        Ok(v) => println!("member...Added :{:?}", v.attributes.len()),
    }
    assert!(get_member(&store, "mem-0001").found);
}

#[test]
fn counter_scenario() {
    let mut store = Store::new();
    instantiate(&mut store, "creator".to_string(), MOCK_TIME, InstantiateMsg { count: 17 });
    assert_eq!(17, get_count(&store).count);

    execute(&mut store, "anyone".to_string(), MOCK_TIME, ExecuteMsg::Increment {}).unwrap();
    assert_eq!(18, get_count(&store).count);

    execute(&mut store, "creator".to_string(), MOCK_TIME, ExecuteMsg::Reset { count: 5 }).unwrap();
    assert_eq!(5, get_count(&store).count);

    let res = execute(&mut store, "anyone".to_string(), MOCK_TIME, ExecuteMsg::Reset { count: 99 });
    assert_eq!(Err(ContractError::Unauthorized), res.map(|_| ()));
    assert_eq!(5, get_count(&store).count);
}

#[test]
fn member_scenario() {
    let mut store = Store::new();
    execute(
        &mut store,
        "creator".to_string(),
        MOCK_TIME,
        ExecuteMsg::AddNewMember {
            key: "mem-0001".to_string(),
            name: "Katherine Tey".to_string(),
            age: 44,
        },
    )
    .unwrap();

    let found = get_member(&store, "mem-0001");
    assert!(found.found);
    let member = found.member.unwrap();
    assert_eq!("Katherine Tey", member.name);
    assert_eq!(44, member.age);

    execute(
        &mut store,
        "creator".to_string(),
        MOCK_TIME,
        ExecuteMsg::DeleteMember { key: "mem-0001".to_string() },
    )
    .unwrap();

    let gone = get_member(&store, "mem-0001");
    assert!(!gone.found);
    assert!(gone.member.is_none());
}

#[test]
fn query_unused_key_is_not_found() {
    let store = Store::new();
    let res = get_member(&store, "mem-9999");
    assert!(!res.found);
    assert!(res.member.is_none());
}

#[test]
fn add_duplicate_key_fails() {
    let mut store = Store::new();
    add_member(&mut store, 100, "k".to_string(), "Ann".to_string(), 30).unwrap();
    let res = add_member(&mut store, 200, "k".to_string(), "Bob".to_string(), 31);
    assert_eq!(Err(ContractError::AlreadyExists), res.map(|_| ()));

    // the first record is untouched
    let m = get_member(&store, "k").member.unwrap();
    assert_eq!("Ann", m.name);
    assert_eq!(30, m.age);
    assert_eq!(100, m.date_joined);
}

#[test]
fn update_missing_member_fails() {
    let mut store = Store::new();
    let res = execute(
        &mut store,
        "creator".to_string(),
        MOCK_TIME,
        ExecuteMsg::UpdateMember { key: "nobody".to_string(), name: "X".to_string(), age: 1 },
    );
    assert_eq!(Err(ContractError::MemberNotFound), res.map(|_| ()));
}

#[test]
fn delete_missing_member_fails() {
    let mut store = Store::new();
    let res = execute(
        &mut store,
        "creator".to_string(),
        MOCK_TIME,
        ExecuteMsg::DeleteMember { key: "nobody".to_string() },
    );
    assert_eq!(Err(ContractError::MemberNotFound), res.map(|_| ()));
}

#[test]
fn update_stamps_new_join_date() {
    let mut store = Store::new();
    execute(
        &mut store,
        "creator".to_string(),
        1_000,
        ExecuteMsg::AddNewMember { key: "k".to_string(), name: "Ann".to_string(), age: 30 },
    )
    .unwrap();
    execute(
        &mut store,
        "creator".to_string(),
        2_000,
        ExecuteMsg::UpdateMember { key: "k".to_string(), name: "Anna".to_string(), age: 31 },
    )
    .unwrap();

    let m = get_member(&store, "k").member.unwrap();
    assert_eq!("Anna", m.name);
    assert_eq!(31, m.age);
    // the update replaces the record whole: the join date is this call's
    assert_eq!(2_000, m.date_joined);
}

#[test]
fn counter_calls_before_initialization_fail() {
    let mut store = Store::new();
    assert_eq!(
        Err(ContractError::StoreNotInitialized),
        query_count(&store).map(|_| ())
    );
    assert_eq!(
        Err(ContractError::StoreNotInitialized),
        execute(&mut store, "a".to_string(), 1, ExecuteMsg::Increment {}).map(|_| ())
    );
    assert_eq!(
        Err(ContractError::StoreNotInitialized),
        execute(&mut store, "a".to_string(), 1, ExecuteMsg::Reset { count: 1 }).map(|_| ())
    );
}

#[test]
fn reinitialization_overwrites() {
    let mut store = Store::new();
    instantiate(&mut store, "creator".to_string(), 100, InstantiateMsg { count: 17 });
    instantiate(&mut store, "other".to_string(), 200, InstantiateMsg { count: 3 });
    let value = get_count(&store);
    assert_eq!(3, value.count);
    assert_eq!("other", value.owner);
}

#[test]
fn status_messages_and_attributes() {
    let mut store = Store::new();
    let res = instantiate(&mut store, "creator".to_string(), MOCK_TIME, InstantiateMsg {
        count: 17,
    });
    assert_eq!("method", res.attributes[0].key);
    assert_eq!("instantiate", res.attributes[0].value);
    assert_eq!("owner", res.attributes[1].key);
    assert_eq!("creator", res.attributes[1].value);
    assert_eq!("count", res.attributes[2].key);
    assert_eq!("17", res.attributes[2].value);

    let value = get_count(&store);
    assert_eq!("This is a state 1", value.message);
    assert_eq!("creator", value.owner);
    // nanoseconds scaled to milliseconds
    assert_eq!(1_571_797_419_879, value.updated);

    let res = execute(&mut store, "anyone".to_string(), MOCK_TIME, ExecuteMsg::Increment {})
        .unwrap();
    assert_eq!("try_increment", res.attributes[0].value);
    assert_eq!("Counter incremented 18", get_count(&store).message);

    let res = execute(&mut store, "creator".to_string(), MOCK_TIME, ExecuteMsg::Reset {
        count: -5,
    })
    .unwrap();
    assert_eq!("reset", res.attributes[0].value);
    assert_eq!("Counter reset :-5", get_count(&store).message);
}

#[test]
fn member_query_does_not_touch_counter() {
    let mut store = Store::new();
    instantiate(&mut store, "creator".to_string(), 100, InstantiateMsg { count: 7 });
    execute(
        &mut store,
        "creator".to_string(),
        200,
        ExecuteMsg::AddNewMember { key: "k".to_string(), name: "Ann".to_string(), age: 30 },
    )
    .unwrap();
    let _ = query_member(&store, "k".to_string());
    assert_eq!(7, get_count(&store).count);
}
