//! JSON values as the plugin reads and builds them.

use serde_json::Value;
use vstd::prelude::*;

use crate::assoc;

verus! {

/// `serde_json::Number`, carried through unread: the form of a number that is no integer.
#[verifier::external_type_specification]
#[verifier::external_body]
pub struct ExNumber(serde_json::Number);

/// `serde_json::Value`, the form in which a JSON value is printed.
#[verifier::external_type_specification]
#[verifier::external_body]
pub struct ExValue(serde_json::Value);

/// Does the `serde_json::Value` hold what `j` means: the same variant with the same contents, an
/// object's members by name?
pub uninterp spec fn holds(v: serde_json::Value, j: JsonView) -> bool;

/// The compact notation that `<serde_json::Value as Display>::fmt` gives of a value, without
/// blanks between its parts.
pub uninterp spec fn compact_text(v: JsonView) -> Seq<char>;

/// A JSON number.
#[derive(Debug)]
pub enum JsonNumber {
    /// An integer from zero up.
    PosInt(u64),
    /// An integer below zero.
    NegInt(i64),
    /// A number that is no integer.
    Float(serde_json::Number),
}

/// A JSON value.
#[derive(Debug)]
pub enum Json {
    Null,
    Bool(bool),
    Number(JsonNumber),
    String(String),
    Array(Vec<Json>),
    Object(JsonMap),
}

/// The members of a JSON object, no two of the same name.
#[derive(Debug)]
pub struct JsonMap {
    members: Vec<(String, Json)>,
}

/// No two members have the same name.
pub open spec fn distinct(members: Seq<(String, Json)>) -> bool {
    forall|i: int, j: int|
        0 <= i < j < members.len() ==> (#[trigger] members[i]).0@ != (#[trigger] members[j]).0@
}

/// What a JSON value means: the order of an object's members is of no account.
#[verifier::ext_equal]
pub enum JsonView {
    Null,
    Bool(bool),
    Number(JsonNumber),
    String(Seq<char>),
    Array(Seq<JsonView>),
    Object(Map<Seq<char>, JsonView>),
}

impl Json {
    /// The meaning of the value.
    pub open spec fn tree(self) -> JsonView
        decreases self,
    {
        match self {
            Json::Null => JsonView::Null,
            Json::Bool(b) => JsonView::Bool(b),
            Json::Number(n) => JsonView::Number(n),
            Json::String(s) => JsonView::String(s@),
            Json::Array(items) => JsonView::Array(
                Seq::new(
                    items@.len(),
                    |i: int|
                        if 0 <= i < items@.len() {
                            items@[i].tree()
                        } else {
                            arbitrary()
                        },
                ),
            ),
            Json::Object(map) => JsonView::Object(map.tree()),
        }
    }
}

impl JsonMap {
    #[verifier::type_invariant]
    spec fn names_differ(self) -> bool {
        distinct(self.members@)
    }

    /// The members by name.
    pub closed spec fn tree(self) -> Map<Seq<char>, JsonView>
        decreases self,
    {
        Map::new(
            |name: Seq<char>| assoc::named(self.members@, name),
            |name: Seq<char>|
                {
                    let p = assoc::position(self.members@, name);
                    if 0 <= p < self.members@.len() {
                        self.members@[p].1.tree()
                    } else {
                        arbitrary()
                    }
                },
        )
    }
}

impl View for Json {
    type V = JsonView;

    open spec fn view(&self) -> JsonView {
        self.tree()
    }
}

impl View for JsonMap {
    type V = Map<Seq<char>, JsonView>;

    open spec fn view(&self) -> Map<Seq<char>, JsonView> {
        self.tree()
    }
}

/// The variants of `serde_json::Value`, each built from the variant of the same name: the value
/// holds what `j` holds.
#[verifier::external_body]
fn to_value(j: &Json) -> (v: Value)
    ensures
        holds(v, j@),
{
    match j {
        Json::Null => Value::Null,
        Json::Bool(b) => Value::Bool(*b),
        Json::Number(JsonNumber::PosInt(n)) => Value::Number((*n).into()),
        Json::Number(JsonNumber::NegInt(n)) => Value::Number((*n).into()),
        Json::Number(JsonNumber::Float(n)) => Value::Number(n.clone()),
        Json::String(s) => Value::String(s.clone()),
        Json::Array(items) => Value::Array(items.iter().map(to_value).collect()),
        Json::Object(map) => Value::Object(
            map.members.iter().map(|m| (m.0.clone(), to_value(&m.1))).collect(),
        ),
    }
}

/// `<serde_json::Value as ToString>::to_string`, which is its `Display`: the compact notation of
/// what the value holds.
#[verifier::external_body]
fn value_text(v: &serde_json::Value) -> (r: String)
    ensures
        forall|j: JsonView| #[trigger] holds(*v, j) ==> r@ == compact_text(j),
{
    v.to_string()
}

impl JsonView {
    /// The member named `name`, where the value is an object that has one.
    pub open spec fn member(self, name: Seq<char>) -> Option<JsonView> {
        match self {
            JsonView::Object(map) => if map.contains_key(name) {
                Some(map[name])
            } else {
                None
            },
            _ => None,
        }
    }

    /// The text, where the value is a string.
    pub open spec fn text(self) -> Option<Seq<char>> {
        match self {
            JsonView::String(s) => Some(s),
            _ => None,
        }
    }

    /// The text of the member named `name`, where there is one and it is a string.
    pub open spec fn text_member(self, name: Seq<char>) -> Option<Seq<char>> {
        match self.member(name) {
            Some(v) => v.text(),
            None => None,
        }
    }
}

/// The meaning of a value that may be missing.
pub open spec fn optional(v: Option<&Json>) -> Option<JsonView> {
    match v {
        Some(j) => Some(j@),
        None => None,
    }
}

/// The text of a string that may be missing.
pub open spec fn optional_text(s: Option<&str>) -> Option<Seq<char>> {
    match s {
        Some(t) => Some(t@),
        None => None,
    }
}

/// `<serde_json::Number as Clone>::clone`: the copy is the same number.
pub assume_specification[ <serde_json::Number as Clone>::clone ](n: &serde_json::Number) -> (r:
    serde_json::Number)
    ensures
        r == *n,
;

impl Clone for JsonNumber {
    fn clone(&self) -> (r: Self)
        ensures
            r == *self,
    {
        match self {
            JsonNumber::PosInt(n) => JsonNumber::PosInt(*n),
            JsonNumber::NegInt(n) => JsonNumber::NegInt(*n),
            JsonNumber::Float(n) => JsonNumber::Float(n.clone()),
        }
    }
}

impl Clone for Json {
    fn clone(&self) -> (r: Self)
        ensures
            r@ == self@,
        decreases self,
    {
        match self {
            Json::Null => Json::Null,
            Json::Bool(b) => Json::Bool(*b),
            Json::Number(n) => Json::Number(n.clone()),
            Json::String(s) => Json::String(s.clone()),
            Json::Array(items) => {
                let mut copy: Vec<Json> = Vec::new();
                let mut i: usize = 0;
                while i < items.len()
                    invariant
                        *self == Json::Array(*items),
                        i <= items@.len(),
                        copy@.len() == i,
                        forall|j: int| 0 <= j < i ==> (#[trigger] copy@[j])@ == items@[j]@,
                    decreases items@.len() - i,
                {
                    proof {
                        assert(decreases_to!(*self => self->Array_0));
                        assert(decreases_to!(self->Array_0 => self->Array_0[i as int]));
                    }
                    copy.push(items[i].clone());
                    i = i + 1;
                }
                let r = Json::Array(copy);
                proof {
                    assert(r@->Array_0 =~= self@->Array_0);
                }
                r
            },
            Json::Object(map) => Json::Object(map.clone()),
        }
    }
}

impl Clone for JsonMap {
    fn clone(&self) -> (r: Self)
        ensures
            r@ == self@,
        decreases self,
    {
        proof {
            use_type_invariant(self);
        }
        let mut copy: Vec<(String, Json)> = Vec::new();
        let mut i: usize = 0;
        while i < self.members.len()
            invariant
                i <= self.members@.len(),
                distinct(self.members@),
                copy@.len() == i,
                forall|j: int| 0 <= j < i ==> (#[trigger] copy@[j]).0@ == self.members@[j].0@,
                forall|j: int| 0 <= j < i ==> (#[trigger] copy@[j]).1@ == self.members@[j].1@,
            decreases self.members@.len() - i,
        {
            copy.push((self.members[i].0.clone(), self.members[i].1.clone()));
            i = i + 1;
        }
        proof {
            assert forall|i: int, j: int| 0 <= i < j < copy@.len() implies (#[trigger] copy@[i]).0@
                != (#[trigger] copy@[j]).0@ by {
                assert(copy@[i].0@ == self.members@[i].0@);
                assert(copy@[j].0@ == self.members@[j].0@);
            }
        }
        let r = JsonMap { members: copy };
        proof {
            lemma_same_members(r.members@, self.members@);
            assert(r@ =~= self@);
        }
        r
    }
}

/// Lists with the same names at the same places find every name at the same place.
proof fn lemma_same_members(a: Seq<(String, Json)>, b: Seq<(String, Json)>)
    requires
        a.len() == b.len(),
        forall|j: int| 0 <= j < a.len() ==> (#[trigger] a[j]).0@ == b[j].0@,
    ensures
        forall|name: Seq<char>|
            #[trigger] assoc::position(a, name) == assoc::position(b, name),
{
    assert forall|name: Seq<char>|
        #[trigger] assoc::position(a, name) == assoc::position(b, name) by {
        assoc::lemma_position(a, name);
        let p = assoc::position(a, name);
        assert forall|j: int| 0 <= j < p implies #[trigger] b[j].0@ != name by {
            assert(a[j].0@ != name);
        }
        assoc::lemma_position_unique(b, name, p);
    }
}

impl JsonMap {
    /// An object without members.
    pub fn new() -> (r: JsonMap)
        ensures
            r@ == Map::<Seq<char>, JsonView>::empty(),
    {
        let r = JsonMap { members: Vec::new() };
        proof {
            assert(r@ =~= Map::empty());
        }
        r
    }

    /// The member named `name`.
    pub fn get(&self, name: &str) -> (r: Option<&Json>)
        ensures
            r is Some <==> self@.contains_key(name@),
            r matches Some(v) ==> v@ == self@[name@],
    {
        let p: usize = assoc::find(&self.members, name);
        if p < self.members.len() {
            Some(&self.members[p].1)
        } else {
            None
        }
    }

    /// Is there a member named `name`?
    pub fn contains_key(&self, name: &str) -> (r: bool)
        ensures
            r == self@.contains_key(name@),
    {
        self.get(name).is_some()
    }

    /// The members, no two of the same name.
    pub fn members(&self) -> (r: &Vec<(String, Json)>)
        ensures
            distinct(r@),
            forall|name: Seq<char>|
                self@.contains_key(name) <==> #[trigger] assoc::named(r@, name),
            forall|name: Seq<char>| #[trigger]
                self@.contains_key(name) ==> self@[name] == r@[assoc::position(r@, name)].1@,
    {
        proof {
            use_type_invariant(self);
            assert forall|name: Seq<char>| #[trigger] self@.contains_key(name) implies self@[name]
                == self.members@[assoc::position(self.members@, name)].1@ by {
                assoc::lemma_position(self.members@, name);
            }
        }
        &self.members
    }

    /// Has the object no members?
    pub fn is_empty(&self) -> (r: bool)
        ensures
            r == (self@ == Map::<Seq<char>, JsonView>::empty()),
    {
        proof {
            if self.members@.len() > 0 {
                let name = self.members@[0].0@;
                assoc::lemma_position(self.members@, name);
                assert(self@.contains_key(name));
            } else {
                assert(self@ =~= Map::empty());
            }
        }
        self.members.len() == 0
    }

    /// Gives the member named `name` the value `value`, new or in place of the one it had.
    pub fn insert(&mut self, name: String, value: Json)
        ensures
            final(self)@ == old(self)@.insert(name@, value@),
    {
        proof {
            use_type_invariant(&*self);
        }
        let ghost before = self.members@;
        let ghost key = name@;
        let mut members: Vec<(String, Json)> = Vec::new();
        std::mem::swap(&mut members, &mut self.members);
        let p: usize = assoc::find(&members, name.as_str());
        proof {
            assoc::lemma_position(before, key);
        }
        if p < members.len() {
            members.set(p, (name, value));
        } else {
            members.push((name, value));
        }
        proof {
            let after = members@;
            assert forall|i: int, j: int| 0 <= i < j < after.len() implies (#[trigger] after[i]).0@
                != (#[trigger] after[j]).0@ by {
                if i < before.len() {
                    assert(after[i].0@ == before[i].0@);
                }
                if j < before.len() {
                    assert(after[j].0@ == before[j].0@);
                }
            }
        }
        self.members = members;
        proof {
            let after = self.members@;
            assert forall|n: Seq<char>|
                n != key implies #[trigger] assoc::named(after, n) == assoc::named(before, n) && (
            assoc::named(before, n) ==> assoc::position(after, n) == assoc::position(before, n)) by {
                assoc::lemma_position(before, n);
                let q = assoc::position(before, n);
                let q2 = if q == before.len() {
                    after.len() as int
                } else {
                    q
                };
                assert forall|j: int| 0 <= j < q2 implies #[trigger] after[j].0@ != n by {
                    if j < before.len() && j != p {
                        assert(after[j] == before[j]);
                    }
                }
                assoc::lemma_position_unique(after, n, q2);
            }
            assert forall|j: int| 0 <= j < p implies #[trigger] after[j].0@ != key by {
                assert(after[j] == before[j]);
            }
            assoc::lemma_position_unique(after, key, p as int);
            let wanted = old(self)@.insert(key, value@);
            assert forall|n: Seq<char>|
                (#[trigger] self@.contains_key(n) <==> wanted.contains_key(n)) && (
                self@.contains_key(n) ==> self@[n] == wanted[n]) by {
                assoc::lemma_position(before, n);
                if n != key {
                    assert(assoc::named(after, n) == assoc::named(before, n));
                    if assoc::named(before, n) {
                        let q = assoc::position(before, n);
                        assert(q != p);
                        assert(after[q] == before[q]);
                    }
                }
            }
            assert(self@ =~= wanted);
        }
    }
}

impl Json {
    /// The member named `name`, where the value is an object that has one.
    pub fn get(&self, name: &str) -> (r: Option<&Json>)
        ensures
            optional(r) == self@.member(name@),
    {
        match self {
            Json::Object(map) => map.get(name),
            _ => None,
        }
    }

    /// The text, where the value is a string.
    pub fn as_str(&self) -> (r: Option<&str>)
        ensures
            optional_text(r) == self@.text(),
    {
        match self {
            Json::String(s) => Some(s.as_str()),
            _ => None,
        }
    }

    /// The text of the member named `name`, where there is one and it is a string.
    pub fn get_str(&self, name: &str) -> (r: Option<&str>)
        ensures
            optional_text(r) == self@.text_member(name@),
    {
        match self.get(name) {
            Some(v) => v.as_str(),
            None => None,
        }
    }

    /// The members, where the value is an object.
    pub fn as_object(&self) -> (r: Option<&JsonMap>)
        ensures
            match r {
                Some(map) => self@ == JsonView::Object(map@),
                None => !(self@ is Object),
            },
    {
        match self {
            Json::Object(map) => Some(map),
            _ => None,
        }
    }

    /// The compact notation of the value.
    pub fn to_string(&self) -> (r: String)
        ensures
            r@ == compact_text(self@),
    {
        value_text(&to_value(self))
    }
}

} // verus!
