//! The message and response shapes exchanged with the host, and the
//! result event returned after a successful mutation.

use vstd::prelude::*;
use crate::state::Member;

verus! {

pub struct InstantiateMsg {
    pub count: i32,
}

pub enum ExecuteMsg {
    Increment {},
    Reset { count: i32 },
    AddNewMember { key: String, name: String, age: i8 },
    UpdateMember { key: String, name: String, age: i8 },
    DeleteMember { key: String },
}

pub enum QueryMsg {
    GetCount {},
    GetMember { key: String },
}

/// Answer to [`QueryMsg::GetCount`].
pub struct CountResponse {
    pub count: i32,
    pub message: String,
    pub owner: String,
    pub updated: u64,
}

/// Spec-level image of [`CountResponse`].
pub struct CountModel {
    pub count: i32,
    pub message: Seq<char>,
    pub owner: Seq<char>,
    pub updated: u64,
}

impl View for CountResponse {
    type V = CountModel;

    open spec fn view(&self) -> CountModel {
        CountModel {
            count: self.count,
            message: self.message@,
            owner: self.owner@,
            updated: self.updated,
        }
    }
}

/// Answer to [`QueryMsg::GetMember`]. Absence is a successful result
/// with `found == false`, never an error.
pub struct MemberResponse {
    pub found: bool,
    pub member: Option<Member>,
}

/// One named attribute of a result event, for host-side observability.
pub struct Attribute {
    pub key: String,
    pub value: String,
}

/// Result event returned to the host after a successful mutation.
pub struct Response {
    pub attributes: Vec<Attribute>,
}

impl Response {
    /// The attribute list as key/value character sequences.
    pub open spec fn pairs(&self) -> Seq<(Seq<char>, Seq<char>)> {
        Seq::new(self.attributes@.len(), |i: int| (self.attributes@[i].key@, self.attributes@[i].value@))
    }

    pub fn new() -> (r: Response)
        ensures
            r.pairs() == Seq::<(Seq<char>, Seq<char>)>::empty(),
    {
        let r = Response { attributes: Vec::new() };
        proof {
            assert(r.pairs() =~= Seq::<(Seq<char>, Seq<char>)>::empty());
        }
        r
    }

    pub fn add_attribute(self, key: &str, value: String) -> (r: Response)
        ensures
            r.pairs() == self.pairs().push((key@, value@)),
    {
        let ghost pre = self.pairs();
        let ghost kv = (key@, value@);
        let mut attributes = self.attributes;
        attributes.push(Attribute { key: String::from_str(key), value });
        let r = Response { attributes };
        proof {
            assert(r.pairs() =~= pre.push(kv));
        }
        r
    }
}

} // verus!
