//! The persisted data: the singleton counter record, the member
//! registry, and an in-memory image of the transactional key-value
//! store that the host hands to each call.

use vstd::prelude::*;
use vstd::hash_map::StringHashMap;

verus! {

/// The singleton counter record. `owner` is fixed at initialization;
/// `message` and `updated` are overwritten on every mutation.
pub struct State {
    pub count: i32,
    pub owner: String,
    pub message: String,
    pub updated: u64,
}

/// Spec-level image of [`State`].
pub struct StateModel {
    pub count: i32,
    pub owner: Seq<char>,
    pub message: Seq<char>,
    pub updated: u64,
}

impl View for State {
    type V = StateModel;

    open spec fn view(&self) -> StateModel {
        StateModel {
            count: self.count,
            owner: self.owner@,
            message: self.message@,
            updated: self.updated,
        }
    }
}

/// One record of the member registry. `date_joined` is stamped with the
/// call's timestamp whenever the record is written.
pub struct Member {
    pub name: String,
    pub age: i8,
    pub date_joined: u64,
}

/// Spec-level image of [`Member`].
pub struct MemberModel {
    pub name: Seq<char>,
    pub age: i8,
    pub date_joined: u64,
}

impl View for Member {
    type V = MemberModel;

    open spec fn view(&self) -> MemberModel {
        MemberModel { name: self.name@, age: self.age, date_joined: self.date_joined }
    }
}

impl Member {
    /// An owned copy whose spec-level image equals this record's.
    pub fn duplicate(&self) -> (m: Member)
        ensures
            m@ == self@,
    {
        Member { name: self.name.clone(), age: self.age, date_joined: self.date_joined }
    }
}

/// The spec-level images of every member held in a registry map.
pub open spec fn member_views(m: Map<Seq<char>, Member>) -> Map<Seq<char>, MemberModel> {
    Map::new(|k: Seq<char>| m.dom().contains(k), |k: Seq<char>| m[k]@)
}

pub proof fn lemma_member_views_insert(m: Map<Seq<char>, Member>, k: Seq<char>, v: Member)
    ensures
        member_views(m.insert(k, v)) == member_views(m).insert(k, v@),
{
    assert(member_views(m.insert(k, v)) =~= member_views(m).insert(k, v@));
}

pub proof fn lemma_member_views_remove(m: Map<Seq<char>, Member>, k: Seq<char>)
    ensures
        member_views(m.remove(k)) == member_views(m).remove(k),
{
    assert(member_views(m.remove(k)) =~= member_views(m).remove(k));
}

/// In-memory image of the host's transactional key-value store: the
/// counter record under its fixed key, and the member registry.
pub struct Store {
    pub state: Option<State>,
    pub members: StringHashMap<Member>,
}

/// Spec-level image of [`Store`].
#[verifier::ext_equal]
pub struct StoreModel {
    pub state: Option<StateModel>,
    pub members: Map<Seq<char>, MemberModel>,
}

impl View for Store {
    type V = StoreModel;

    open spec fn view(&self) -> StoreModel {
        StoreModel {
            state: match self.state {
                Some(s) => Some(s@),
                None => None,
            },
            members: member_views(self.members@),
        }
    }
}

impl Store {
    /// A store in which nothing has been persisted yet.
    pub fn new() -> (s: Store)
        ensures
            s@.state is None,
            s@.members == Map::<Seq<char>, MemberModel>::empty(),
    {
        let s = Store { state: None, members: StringHashMap::new() };
        proof {
            assert(s@.members =~= Map::<Seq<char>, MemberModel>::empty());
        }
        s
    }
}

} // verus!
