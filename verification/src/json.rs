//! JSON values as the library holds them, and their compact encoding.

use crate::text::str_eq;
use vstd::prelude::*;

verus! {

/// A JSON value. A number is held by its literal text, so that no value changes on its
/// way through the library; an object holds its members in the order they were given.
#[derive(Debug)]
pub enum Json {
    Null,
    Bool(bool),
    Number(String),
    Str(String),
    Array(Vec<Json>),
    Object(Vec<(String, Json)>),
}

/// What a [`Json`] value stands for.
#[verifier::ext_equal]
pub enum JsonView {
    Null,
    Bool(bool),
    Number(Seq<char>),
    Str(Seq<char>),
    Array(Seq<JsonView>),
    Object(Seq<(Seq<char>, JsonView)>),
}

impl View for Json {
    type V = JsonView;

    open spec fn view(&self) -> JsonView
        decreases self,
    {
        match self {
            Json::Null => JsonView::Null,
            Json::Bool(b) => JsonView::Bool(*b),
            Json::Number(n) => JsonView::Number(n@),
            Json::Str(s) => JsonView::Str(s@),
            Json::Array(items) => JsonView::Array(
                Seq::new(
                    items@.len(),
                    |i: int|
                        if 0 <= i < items@.len() {
                            items@[i].view()
                        } else {
                            JsonView::Null
                        },
                ),
            ),
            Json::Object(members) => {
                let values = Seq::new(
                    members@.len(),
                    |i: int|
                        if 0 <= i < members@.len() {
                            members@[i].1.view()
                        } else {
                            JsonView::Null
                        },
                );
                JsonView::Object(Seq::new(members@.len(), |i: int| (members@[i].0@, values[i])))
            },
        }
    }
}

/// The views of a run of values.
pub open spec fn views_of(items: Seq<Json>) -> Seq<JsonView> {
    Seq::new(items.len(), |i: int| items[i]@)
}

/// The views of a run of members.
pub open spec fn member_views(members: Seq<(String, Json)>) -> Seq<(Seq<char>, JsonView)> {
    Seq::new(members.len(), |i: int| (members[i].0@, members[i].1@))
}

pub proof fn lemma_array_view(items: Vec<Json>)
    ensures
        Json::Array(items)@ == JsonView::Array(views_of(items@)),
{
    let a = Json::Array(items)@->Array_0;
    let b = views_of(items@);
    assert(a.len() == b.len());
    assert forall|i: int| 0 <= i < a.len() implies a[i] == b[i] by {
        assert(a[i] == items@[i]@);
    }
    assert(a =~= b);
}

pub proof fn lemma_object_view(members: Vec<(String, Json)>)
    ensures
        Json::Object(members)@ == JsonView::Object(member_views(members@)),
{
    let a = Json::Object(members)@->Object_0;
    let b = member_views(members@);
    assert(a.len() == b.len());
    assert forall|i: int| 0 <= i < a.len() implies a[i] == b[i] by {
        assert(a[i].0 == members@[i].0@);
        assert(a[i].1 == members@[i].1@);
    }
    assert(a =~= b);
}

/// The first place at or behind `i` where a member named `key` stands, or the length.
pub open spec fn member_index(members: Seq<(Seq<char>, JsonView)>, key: Seq<char>, i: int) -> int
    decreases members.len() - i,
{
    if 0 <= i < members.len() && members[i].0 != key {
        member_index(members, key, i + 1)
    } else {
        i
    }
}

/// The first member of an object that is named `key`; `None` for what is no object or
/// has no such member.
pub open spec fn field(v: JsonView, key: Seq<char>) -> Option<JsonView> {
    match v {
        JsonView::Object(members) => {
            let i = member_index(members, key, 0);
            if 0 <= i < members.len() {
                Some(members[i].1)
            } else {
                None
            }
        },
        _ => None,
    }
}

pub proof fn lemma_member_index(members: Seq<(Seq<char>, JsonView)>, key: Seq<char>, i: int)
    requires
        0 <= i <= members.len(),
    ensures
        i <= member_index(members, key, i) <= members.len(),
        forall|j: int| i <= j < member_index(members, key, i) ==> (#[trigger] members[j]).0 != key,
        member_index(members, key, i) < members.len() ==> members[member_index(
            members,
            key,
            i,
        )].0 == key,
    decreases members.len() - i,
{
    if i < members.len() && members[i].0 != key {
        lemma_member_index(members, key, i + 1);
    }
}

impl Json {
    /// The string value with the characters of `s`.
    pub fn text(s: &str) -> (r: Json)
        ensures
            r@ == JsonView::Str(s@),
    {
        Json::Str(s.to_owned())
    }

    /// The array of the given values.
    pub fn array(items: Vec<Json>) -> (r: Json)
        ensures
            r@ == JsonView::Array(views_of(items@)),
    {
        proof {
            lemma_array_view(items);
        }
        Json::Array(items)
    }

    /// The object of the given members, in their order.
    pub fn object(members: Vec<(String, Json)>) -> (r: Json)
        ensures
            r@ == JsonView::Object(member_views(members@)),
    {
        proof {
            lemma_object_view(members);
        }
        Json::Object(members)
    }

    /// The first member named `key`, where this is an object that has one.
    pub fn get(&self, key: &str) -> (r: Option<&Json>)
        ensures
            r is Some <==> field(self@, key@) is Some,
            r matches Some(v) ==> field(self@, key@) == Some(v@),
    {
        match self {
            Json::Object(members) => {
                proof {
                    lemma_object_view(*members);
                }
                let mut i: usize = 0;
                while i < members.len()
                    invariant
                        i <= members.len(),
                        self@ == JsonView::Object(member_views(members@)),
                        member_index(member_views(members@), key@, 0) == member_index(
                            member_views(members@),
                            key@,
                            i as int,
                        ),
                    decreases members.len() - i,
                {
                    if str_eq(members[i].0.as_str(), key) {
                        return Some(&members[i].1);
                    }
                    i += 1;
                }
                None
            },
            _ => None,
        }
    }

    /// A value equal to this one.
    #[verifier::loop_isolation(false)]
    pub fn copy(&self) -> (r: Json)
        ensures
            r@ == self@,
        decreases self,
    {
        match self {
            Json::Null => Json::Null,
            Json::Bool(b) => Json::Bool(*b),
            Json::Number(n) => Json::Number(n.clone()),
            Json::Str(s) => Json::Str(s.clone()),
            Json::Array(items) => {
                let mut out: Vec<Json> = Vec::new();
                let mut i: usize = 0;
                while i < items.len()
                    invariant
                        i <= items.len(),
                        out@.len() == i,
                        forall|j: int| 0 <= j < i ==> out@[j]@ == items@[j]@,
                    decreases items.len() - i,
                {
                    let c = items[i].copy();
                    out.push(c);
                    i += 1;
                }
                proof {
                    lemma_array_view(out);
                    lemma_array_view(*items);
                    assert(views_of(out@) =~= views_of(items@));
                }
                Json::Array(out)
            },
            Json::Object(members) => {
                let mut out: Vec<(String, Json)> = Vec::new();
                let mut i: usize = 0;
                while i < members.len()
                    invariant
                        i <= members.len(),
                        out@.len() == i,
                        forall|j: int|
                            0 <= j < i ==> out@[j].0@ == members@[j].0@ && out@[j].1@
                                == members@[j].1@,
                    decreases members.len() - i,
                {
                    let c = members[i].1.copy();
                    out.push((members[i].0.clone(), c));
                    i += 1;
                }
                proof {
                    lemma_object_view(out);
                    lemma_object_view(*members);
                    assert(member_views(out@) =~= member_views(members@));
                }
                Json::Object(out)
            },
        }
    }
}

/// An object in the making: members are added one behind the other.
#[derive(Debug)]
pub struct ObjectBuilder {
    members: Vec<(String, Json)>,
}

impl View for ObjectBuilder {
    type V = Seq<(Seq<char>, JsonView)>;

    closed spec fn view(&self) -> Self::V {
        member_views(self.members@)
    }
}

impl ObjectBuilder {
    /// The builder that holds no member yet.
    pub fn new() -> (r: Self)
        ensures
            r@ == Seq::<(Seq<char>, JsonView)>::empty(),
    {
        let r = ObjectBuilder { members: Vec::new() };
        assert(r@ =~= Seq::<(Seq<char>, JsonView)>::empty());
        r
    }

    /// The builder with one more member, `value` under `key`, behind the others.
    pub fn with(self, key: &str, value: Json) -> (r: Self)
        ensures
            r@ == self@.push((key@, value@)),
    {
        let mut members = self.members;
        members.push((key.to_owned(), value));
        let r = ObjectBuilder { members };
        assert(r@ =~= self@.push((key@, value@)));
        r
    }

    /// The object of the members added.
    pub fn build(self) -> (r: Json)
        ensures
            r@ == JsonView::Object(self@),
    {
        Json::object(self.members)
    }
}

} // verus!
