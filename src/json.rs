//! A JSON value as the wire form holds it, and its mathematical model.
use vstd::prelude::*;

verus! {

broadcast use vstd::std_specs::vec::group_vec_axioms;

/// The model of a JSON value: strings as character sequences.
pub ghost enum Json {
    Null,
    Bool(bool),
    Number(int),
    Str(Seq<char>),
    Array(Seq<Json>),
    Object(Seq<(Seq<char>, Json)>),
}

/// A JSON value. An object keeps its members in order.
#[derive(Debug)]
pub enum JsonValue {
    Null,
    Bool(bool),
    Number(i128),
    Str(String),
    Array(Vec<JsonValue>),
    Object(Vec<(String, JsonValue)>),
}

impl JsonValue {
    pub open spec fn view(&self) -> Json
        decreases self,
    {
        match self {
            JsonValue::Null => Json::Null,
            JsonValue::Bool(b) => Json::Bool(*b),
            JsonValue::Number(n) => Json::Number(*n as int),
            JsonValue::Str(s) => Json::Str(s@),
            JsonValue::Array(items) => Json::Array(
                Seq::new(items.len() as nat, |i: int|
                    if 0 <= i < items.len() { items[i].view() } else { Json::Null },
                ),
            ),
            JsonValue::Object(members) => Json::Object(
                Seq::new(members.len() as nat, |i: int|
                    if 0 <= i < members.len() {
                        (members[i].0@, members[i].1.view())
                    } else {
                        (Seq::empty(), Json::Null)
                    },
                ),
            ),
        }
    }

    /// A copy of this value, member for member.
    pub fn duplicate(&self) -> (r: JsonValue)
        ensures
            r@ == self@,
        decreases self,
    {
        match self {
            JsonValue::Null => JsonValue::Null,
            JsonValue::Bool(b) => JsonValue::Bool(*b),
            JsonValue::Number(n) => JsonValue::Number(*n),
            JsonValue::Str(s) => JsonValue::Str(s.clone()),
            JsonValue::Array(items) => {
                let out = duplicate_items(items);
                let ghost out_view = out@;
                let r = JsonValue::Array(out);
                proof {
                    if let Json::Array(a) = r@ {
                        if let Json::Array(b) = self@ {
                            assert(a =~= items_view(out_view));
                            assert(b =~= items_view(items@));
                        }
                    }
                }
                r
            },
            JsonValue::Object(members) => {
                let out = duplicate_members(members);
                let ghost out_view = out@;
                let r = JsonValue::Object(out);
                proof {
                    if let Json::Object(a) = r@ {
                        if let Json::Object(b) = self@ {
                            assert(a =~= members_view(out_view));
                            assert(b =~= members_view(members@));
                        }
                    }
                }
                r
            },
        }
    }
}

/// The model of an array's items.
pub open spec fn items_view(items: Seq<JsonValue>) -> Seq<Json> {
    Seq::new(items.len(), |i: int| items[i]@)
}

/// A copy of an array's items, in order.
pub fn duplicate_items(items: &Vec<JsonValue>) -> (r: Vec<JsonValue>)
    ensures
        items_view(r@) == items_view(items@),
    decreases items,
{
    let mut out: Vec<JsonValue> = Vec::new();
    let mut i: usize = 0;
    while i < items.len()
        invariant
            i <= items.len(),
            out.len() == i,
            forall|j: int| 0 <= j < i ==> out[j]@ == items[j]@,
        decreases items.len() - i,
    {
        proof {
            assert(decreases_to!(items => items[i as int]));
        }
        out.push(items[i].duplicate());
        i += 1;
    }
    assert(items_view(out@) =~= items_view(items@));
    out
}

/// The model of an object's members.
pub open spec fn members_view(members: Seq<(String, JsonValue)>) -> Seq<(Seq<char>, Json)> {
    Seq::new(members.len(), |i: int| (members[i].0@, members[i].1@))
}

/// A copy of an object's members, in order.
pub fn duplicate_members(members: &Vec<(String, JsonValue)>) -> (r: Vec<(String, JsonValue)>)
    ensures
        members_view(r@) == members_view(members@),
    decreases members,
{
    let mut out: Vec<(String, JsonValue)> = Vec::new();
    let mut i: usize = 0;
    while i < members.len()
        invariant
            i <= members.len(),
            out.len() == i,
            forall|j: int| 0 <= j < i ==> out[j].0@ == members[j].0@ && out[j].1@ == members[j].1@,
        decreases members.len() - i,
    {
        proof {
            assert(decreases_to!(members => members[i as int]));
        }
        let key = members[i].0.clone();
        let value = members[i].1.duplicate();
        out.push((key, value));
        i += 1;
    }
    assert(members_view(out@) =~= members_view(members@));
    out
}

impl Clone for JsonValue {
    fn clone(&self) -> (r: JsonValue)
        ensures
            r@ == self@,
    {
        self.duplicate()
    }
}

} // verus!
