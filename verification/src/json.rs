//! JSON values as plain data, and maps from names to JSON values.

use crate::error::ChatGuruError;
use crate::text::same_text;
use vstd::prelude::*;

verus! {

/// A JSON value.
#[derive(Debug)]
pub enum Json {
    Null,
    Bool(bool),
    /// A number, held as the text that JSON writes for it.
    Number(String),
    Text(String),
    Array(Vec<Json>),
    /// An object: its members, each a name and a value, one after the other.
    Object(Vec<Member>),
}

/// A member of a JSON object.
#[derive(Debug)]
pub struct Member {
    pub name: String,
    pub value: Json,
}

/// The mathematical content of a [`Json`] value.
pub enum JsonView {
    Null,
    Bool(bool),
    Number(Seq<char>),
    Text(Seq<char>),
    Array(Seq<JsonView>),
    Object(Seq<(Seq<char>, JsonView)>),
}

/// The content of a value.
pub open spec fn content(json: Json) -> JsonView
    decreases json,
{
    match json {
        Json::Null => JsonView::Null,
        Json::Bool(b) => JsonView::Bool(b),
        Json::Number(n) => JsonView::Number(n@),
        Json::Text(t) => JsonView::Text(t@),
        Json::Array(items) => JsonView::Array(
            Seq::new(
                items@.len(),
                |i: int|
                    if 0 <= i < items@.len() {
                        content(items@[i])
                    } else {
                        JsonView::Null
                    },
            ),
        ),
        Json::Object(members) => JsonView::Object(
            Seq::new(
                members@.len(),
                |i: int|
                    if 0 <= i < members@.len() {
                        (members@[i].name@, content(members@[i].value))
                    } else {
                        (Seq::empty(), JsonView::Null)
                    },
            ),
        ),
    }
}

impl View for Json {
    type V = JsonView;

    open spec fn view(&self) -> JsonView {
        content(*self)
    }
}

/// The content of each of a sequence of values.
pub open spec fn items_view(items: Seq<Json>) -> Seq<JsonView> {
    Seq::new(items.len(), |i: int| items[i]@)
}

/// The name and the content of each of a sequence of members.
pub open spec fn members_view(members: Seq<Member>) -> Seq<(Seq<char>, JsonView)> {
    Seq::new(members.len(), |i: int| (members[i].name@, members[i].value@))
}

/// The content of an array is the content of its items.
pub proof fn lemma_array_view(items: Vec<Json>)
    ensures
        Json::Array(items)@ == JsonView::Array(items_view(items@)),
{
    assert(Json::Array(items)@->Array_0 =~= items_view(items@));
}

/// The content of an object is the names and the content of its members.
pub proof fn lemma_object_view(members: Vec<Member>)
    ensures
        Json::Object(members)@ == JsonView::Object(members_view(members@)),
{
    assert(Json::Object(members)@->Object_0 =~= members_view(members@));
}

/// A copy of a value, with the same content.
pub fn copy_of(json: &Json) -> (copy: Json)
    ensures
        copy@ == json@,
    decreases json,
{
    match json {
        Json::Null => Json::Null,
        Json::Bool(b) => Json::Bool(*b),
        Json::Number(n) => Json::Number(n.clone()),
        Json::Text(t) => Json::Text(t.clone()),
        Json::Array(items) => {
            let mut copies: Vec<Json> = Vec::new();
            let mut i: usize = 0;
            while i < items.len()
                invariant
                    *json == Json::Array(*items),
                    i <= items.len(),
                    copies.len() == i,
                    forall|k: int| 0 <= k < i ==> copies@[k]@ == items@[k]@,
                decreases items.len() - i,
            {
                proof {
                    vstd::std_specs::vec::axiom_vec_index_decreases(*items, i as int);
                    assert(decreases_to!(*json => json->Array_0));
                }
                copies.push(copy_of(&items[i]));
                i += 1;
            }
            proof {
                lemma_array_view(*items);
                lemma_array_view(copies);
                assert(items_view(copies@) =~= items_view(items@));
            }
            Json::Array(copies)
        },
        Json::Object(members) => {
            let mut copies: Vec<Member> = Vec::new();
            let mut i: usize = 0;
            while i < members.len()
                invariant
                    *json == Json::Object(*members),
                    i <= members.len(),
                    copies.len() == i,
                    forall|k: int|
                        0 <= k < i ==> copies@[k].name@ == members@[k].name@ && copies@[k].value@
                            == members@[k].value@,
                decreases members.len() - i,
            {
                proof {
                    vstd::std_specs::vec::axiom_vec_index_decreases(*members, i as int);
                    assert(decreases_to!(*json => json->Object_0));
                }
                copies.push(
                    Member { name: members[i].name.clone(), value: copy_of(&members[i].value) },
                );
                i += 1;
            }
            proof {
                lemma_object_view(*members);
                lemma_object_view(copies);
                assert(members_view(copies@) =~= members_view(members@));
            }
            Json::Object(copies)
        },
    }
}

impl Clone for Json {
    fn clone(&self) -> (copy: Json)
        ensures
            copy@ == self@,
    {
        copy_of(self)
    }
}

/// How an object gives a member of some name: not at all, once with a value, or
/// more than once.
#[derive(Debug)]
pub enum Lookup<T> {
    Absent,
    Once(T),
    Repeated,
}

impl<T: Copy> Clone for Lookup<T> {
    fn clone(&self) -> (copy: Self)
        ensures
            copy == *self,
    {
        *self
    }
}

impl<T: Copy> Copy for Lookup<T> {

}

/// How the members of an object give a member called `name`.
pub open spec fn member(members: Seq<(Seq<char>, JsonView)>, name: Seq<char>) -> Lookup<JsonView>
    decreases members.len(),
{
    if members.len() == 0 {
        Lookup::Absent
    } else {
        let before = member(members.drop_last(), name);
        if members.last().0 == name {
            match before {
                Lookup::Absent => Lookup::Once(members.last().1),
                _ => Lookup::Repeated,
            }
        } else {
            before
        }
    }
}

/// An object gives nothing under a name exactly where none of its members has
/// that name.
pub proof fn lemma_member_absent(members: Seq<(Seq<char>, JsonView)>, name: Seq<char>)
    ensures
        member(members, name) is Absent <==> forall|i: int|
            0 <= i < members.len() ==> (#[trigger] members[i]).0 != name,
    decreases members.len(),
{
    if members.len() > 0 {
        let before = members.drop_last();
        lemma_member_absent(before, name);
        if member(members, name) is Absent {
            assert forall|i: int| 0 <= i < members.len() implies (#[trigger] members[i]).0
                != name by {
                if i < before.len() {
                    assert(before[i] == members[i]);
                }
            }
        } else if members.last().0 != name {
            let i = choose|i: int| 0 <= i < before.len() && (#[trigger] before[i]).0 == name;
            assert(members[i] == before[i]);
        }
    }
}

/// An object gives the value of a member under its name where no other member
/// has that name.
pub proof fn lemma_member_once(members: Seq<(Seq<char>, JsonView)>, name: Seq<char>, at: int)
    requires
        0 <= at < members.len(),
        members[at].0 == name,
        forall|i: int| 0 <= i < members.len() && i != at ==> (#[trigger] members[i]).0 != name,
    ensures
        member(members, name) == Lookup::Once(members[at].1),
    decreases members.len(),
{
    let before = members.drop_last();
    if at == members.len() - 1 {
        lemma_member_absent(before, name);
        assert forall|i: int| 0 <= i < before.len() implies (#[trigger] before[i]).0 != name by {
            assert(before[i] == members[i]);
        }
    } else {
        assert(before[at] == members[at]);
        assert forall|i: int| 0 <= i < before.len() && i != at implies (#[trigger] before[i]).0
            != name by {
            assert(before[i] == members[i]);
        }
        lemma_member_once(before, name, at);
    }
}

/// An object gives a name more than once where two of its members have it.
pub proof fn lemma_member_repeated(
    members: Seq<(Seq<char>, JsonView)>,
    name: Seq<char>,
    first: int,
    second: int,
)
    requires
        0 <= first < second < members.len(),
        members[first].0 == name,
        members[second].0 == name,
    ensures
        member(members, name) is Repeated,
    decreases members.len(),
{
    let before = members.drop_last();
    if second == members.len() - 1 {
        lemma_member_absent(before, name);
        assert(before[first] == members[first]);
    } else {
        assert(before[first] == members[first]);
        assert(before[second] == members[second]);
        lemma_member_repeated(before, name, first, second);
    }
}

/// How an object gives a member that goes by two names: what it gives under one
/// of them, or `Repeated` where it gives something under both.
pub open spec fn either<T>(first: Lookup<T>, second: Lookup<T>) -> Lookup<T> {
    match (first, second) {
        (Lookup::Absent, _) => second,
        (_, Lookup::Absent) => first,
        _ => Lookup::Repeated,
    }
}

/// The content of what a lookup found.
pub open spec fn lookup_view(found: Lookup<&Json>) -> Lookup<JsonView> {
    match found {
        Lookup::Absent => Lookup::Absent,
        Lookup::Once(value) => Lookup::Once(value@),
        Lookup::Repeated => Lookup::Repeated,
    }
}

/// Looks a member up by its name.
pub fn find_member<'a>(members: &'a Vec<Member>, name: &str) -> (found: Lookup<&'a Json>)
    ensures
        lookup_view(found) == member(members_view(members@), name@),
{
    let mut found: Lookup<&'a Json> = Lookup::Absent;
    let mut i: usize = 0;
    while i < members.len()
        invariant
            i <= members.len(),
            lookup_view(found) == member(members_view(members@).take(i as int), name@),
        decreases members.len() - i,
    {
        proof {
            let upto = members_view(members@).take(i + 1);
            assert(upto.drop_last() =~= members_view(members@).take(i as int));
            assert(upto.last() == (members@[i as int].name@, members@[i as int].value@));
        }
        if same_text(members[i].name.as_str(), name) {
            found =
            match found {
                Lookup::Absent => Lookup::Once(&members[i].value),
                _ => Lookup::Repeated,
            };
        }
        i += 1;
    }
    proof {
        assert(members_view(members@).take(members@.len() as int) =~= members_view(members@));
    }
    found
}

/// What two lookups of the two names of one member found together.
pub fn either_found<'a>(first: Lookup<&'a Json>, second: Lookup<&'a Json>) -> (found: Lookup<
    &'a Json,
>)
    ensures
        lookup_view(found) == either(lookup_view(first), lookup_view(second)),
{
    match (first, second) {
        (Lookup::Absent, second) => second,
        (first, Lookup::Absent) => first,
        _ => Lookup::Repeated,
    }
}

/// The map that a sequence of members stands for: each name with the value of
/// the last member of that name.
pub open spec fn map_of(members: Seq<(Seq<char>, JsonView)>) -> Map<Seq<char>, JsonView>
    decreases members.len(),
{
    if members.len() == 0 {
        Map::empty()
    } else {
        map_of(members.drop_last()).insert(members.last().0, members.last().1)
    }
}

/// No two of the members have the same name.
pub open spec fn distinct_names(members: Seq<(Seq<char>, JsonView)>) -> bool {
    forall|i: int, j: int|
        0 <= i < j < members.len() ==> (#[trigger] members[i]).0 != (#[trigger] members[j]).0
}

/// A name that no member has is not in the map.
pub proof fn lemma_map_of_misses(members: Seq<(Seq<char>, JsonView)>, name: Seq<char>)
    requires
        forall|i: int| 0 <= i < members.len() ==> (#[trigger] members[i]).0 != name,
    ensures
        !map_of(members).contains_key(name),
    decreases members.len(),
{
    if members.len() > 0 {
        lemma_map_of_misses(members.drop_last(), name);
    }
}

/// Where no name occurs twice, the map holds each member's value under its name.
pub proof fn lemma_map_of_holds(members: Seq<(Seq<char>, JsonView)>, at: int)
    requires
        distinct_names(members),
        0 <= at < members.len(),
    ensures
        map_of(members).contains_key(members[at].0),
        map_of(members)[members[at].0] == members[at].1,
    decreases members.len(),
{
    if at < members.len() - 1 {
        let before = members.drop_last();
        assert(before[at] == members[at]);
        assert(members[at].0 != members[members.len() - 1].0);
        lemma_map_of_holds(before, at);
    }
}

/// Where no name occurs twice, a new value for one member is a new value under
/// its name in the map.
pub proof fn lemma_map_of_update(
    members: Seq<(Seq<char>, JsonView)>,
    at: int,
    value: JsonView,
)
    requires
        distinct_names(members),
        0 <= at < members.len(),
    ensures
        map_of(members.update(at, (members[at].0, value))) == map_of(members).insert(
            members[at].0,
            value,
        ),
    decreases members.len(),
{
    let name = members[at].0;
    let changed = members.update(at, (name, value));
    let before = members.drop_last();
    if at == members.len() - 1 {
        assert(changed.drop_last() =~= before);
        assert(map_of(changed) =~= map_of(members).insert(name, value));
    } else {
        assert(before[at] == members[at]);
        assert(members[at].0 != members[members.len() - 1].0);
        lemma_map_of_update(before, at, value);
        assert(changed.drop_last() =~= before.update(at, (name, value)));
        assert(changed.last() == members.last());
        assert(map_of(changed) =~= map_of(members).insert(name, value));
    }
}

/// The map that the members with a name outside `names` stand for.
pub open spec fn unnamed(members: Seq<(Seq<char>, JsonView)>, names: Seq<Seq<char>>) -> Map<
    Seq<char>,
    JsonView,
>
    decreases members.len(),
{
    if members.len() == 0 {
        Map::empty()
    } else if names.contains(members.last().0) {
        unnamed(members.drop_last(), names)
    } else {
        unnamed(members.drop_last(), names).insert(members.last().0, members.last().1)
    }
}

/// The text of each of a sequence of names.
pub open spec fn names_view(names: Seq<&'static str>) -> Seq<Seq<char>> {
    Seq::new(names.len(), |i: int| names[i]@)
}

/// Whether `name` is one of `names`.
pub fn is_named(name: &str, names: &Vec<&'static str>) -> (named: bool)
    ensures
        named == names_view(names@).contains(name@),
{
    let mut i: usize = 0;
    while i < names.len()
        invariant
            i <= names.len(),
            forall|k: int| 0 <= k < i ==> names_view(names@)[k] != name@,
        decreases names.len() - i,
    {
        if same_text(names[i], name) {
            assert(names_view(names@)[i as int] == name@);
            return true;
        }
        i += 1;
    }
    false
}

/// A map from names to JSON values.
#[derive(Debug)]
pub struct JsonMap {
    entries: Vec<Member>,
}

impl View for JsonMap {
    type V = Map<Seq<char>, JsonView>;

    closed spec fn view(&self) -> Map<Seq<char>, JsonView> {
        map_of(members_view(self.entries@))
    }
}

impl JsonMap {
    #[verifier::type_invariant]
    spec fn no_name_twice(self) -> bool {
        distinct_names(members_view(self.entries@))
    }

    /// The empty map.
    pub fn new() -> (map: JsonMap)
        ensures
            map@ == Map::<Seq<char>, JsonView>::empty(),
    {
        let map = JsonMap { entries: Vec::new() };
        assert(members_view(map.entries@) =~= Seq::empty());
        map
    }

    /// The map that the members of an object stand for: each name with the
    /// value of the last member of that name.
    pub fn from_members(members: &Vec<Member>) -> (map: JsonMap)
        ensures
            map@ == map_of(members_view(members@)),
    {
        let mut map = JsonMap::new();
        let mut i: usize = 0;
        assert(members_view(members@).take(0) =~= Seq::empty());
        while i < members.len()
            invariant
                i <= members.len(),
                map@ == map_of(members_view(members@).take(i as int)),
            decreases members.len() - i,
        {
            proof {
                let upto = members_view(members@).take(i + 1);
                assert(upto.drop_last() =~= members_view(members@).take(i as int));
            }
            map.insert(members[i].name.clone(), members[i].value.clone());
            i += 1;
        }
        assert(members_view(members@).take(members@.len() as int) =~= members_view(members@));
        map
    }

    /// The map that the members with a name outside `names` stand for.
    pub fn from_unnamed(members: &Vec<Member>, names: &Vec<&'static str>) -> (map: JsonMap)
        ensures
            map@ == unnamed(members_view(members@), names_view(names@)),
    {
        let mut map = JsonMap::new();
        let mut i: usize = 0;
        assert(members_view(members@).take(0) =~= Seq::empty());
        while i < members.len()
            invariant
                i <= members.len(),
                map@ == unnamed(members_view(members@).take(i as int), names_view(names@)),
            decreases members.len() - i,
        {
            proof {
                let upto = members_view(members@).take(i + 1);
                assert(upto.drop_last() =~= members_view(members@).take(i as int));
            }
            if !is_named(members[i].name.as_str(), names) {
                map.insert(members[i].name.clone(), members[i].value.clone());
            }
            i += 1;
        }
        assert(members_view(members@).take(members@.len() as int) =~= members_view(members@));
        map
    }

    /// Where the entry of the given name stands, if there is one.
    fn position(&self, name: &str) -> (at: Option<usize>)
        ensures
            match at {
                Some(i) => i < self.entries@.len() && self.entries@[i as int].name@ == name@,
                None => forall|i: int|
                    0 <= i < self.entries@.len() ==> (#[trigger] self.entries@[i]).name@ != name@,
            },
    {
        let mut i: usize = 0;
        while i < self.entries.len()
            invariant
                i <= self.entries@.len(),
                forall|k: int| 0 <= k < i ==> (#[trigger] self.entries@[k]).name@ != name@,
            decreases self.entries.len() - i,
        {
            if same_text(self.entries[i].name.as_str(), name) {
                return Some(i);
            }
            i += 1;
        }
        None
    }

    /// Puts a value under a name, in the place of the value that was there, if any.
    pub fn insert(&mut self, name: String, value: Json)
        ensures
            final(self)@ == old(self)@.insert(name@, value@),
    {
        let mut taken = JsonMap::new();
        core::mem::swap(self, &mut taken);
        proof {
            use_type_invariant(&taken);
        }
        let at = taken.position(name.as_str());
        let ghost before = members_view(taken.entries@);
        let mut entries = taken.entries;
        match at {
            Some(i) => {
                proof {
                    lemma_map_of_update(before, i as int, value@);
                }
                entries.set(i, Member { name, value });
                assert(members_view(entries@) =~= before.update(
                    i as int,
                    (before[i as int].0, value@),
                ));
            },
            None => {
                entries.push(Member { name, value });
                assert(members_view(entries@) =~= before.push((name@, value@)));
                assert(members_view(entries@).drop_last() =~= before);
            },
        }
        *self = JsonMap { entries };
    }

    /// The value under a name, if there is one.
    pub fn get(&self, name: &str) -> (value: Option<&Json>)
        ensures
            match value {
                Some(json) => self@.contains_key(name@) && self@[name@] == json@,
                None => !self@.contains_key(name@),
            },
    {
        proof {
            use_type_invariant(self);
        }
        match self.position(name) {
            Some(i) => {
                proof {
                    lemma_map_of_holds(members_view(self.entries@), i as int);
                }
                Some(&self.entries[i].value)
            },
            None => {
                proof {
                    lemma_map_of_misses(members_view(self.entries@), name@);
                }
                None
            },
        }
    }

    /// The entries of the map, each name once.
    pub fn entries(&self) -> (entries: &Vec<Member>)
        ensures
            map_of(members_view(entries@)) == self@,
            distinct_names(members_view(entries@)),
    {
        proof {
            use_type_invariant(self);
        }
        &self.entries
    }
}

impl Clone for JsonMap {
    fn clone(&self) -> (copy: JsonMap)
        ensures
            copy@ == self@,
    {
        proof {
            use_type_invariant(self);
        }
        let mut entries: Vec<Member> = Vec::new();
        let mut i: usize = 0;
        while i < self.entries.len()
            invariant
                i <= self.entries@.len(),
                entries@.len() == i,
                forall|k: int|
                    0 <= k < i ==> entries@[k].name@ == self.entries@[k].name@ && entries@[k].value@
                        == self.entries@[k].value@,
            decreases self.entries.len() - i,
        {
            entries.push(
                Member { name: self.entries[i].name.clone(), value: self.entries[i].value.clone() },
            );
            i += 1;
        }
        assert(members_view(entries@) =~= members_view(self.entries@));
        JsonMap { entries }
    }
}

/// `serde_json::Value`: a JSON value as `serde_json` holds it.
#[verifier::external_type_specification]
#[verifier::external_body]
pub struct ExJsonValue(serde_json::Value);

/// What JSON text stands for: the value that `serde_json::from_str` reads from
/// it as a `serde_json::Value`, or `None` where it reads none.
pub uninterp spec fn json_of_text(text: Seq<char>) -> Option<JsonView>;

/// A `serde_json::Value` as a [`Json`] value, variant by variant: a number by
/// the text that `serde_json::Number` displays, the members of an object in
/// the order in which `serde_json::Map::iter` hands them out.
#[verifier::external_body]
fn json_of_value(value: &serde_json::Value) -> Json {
    match value {
        serde_json::Value::Null => Json::Null,
        serde_json::Value::Bool(b) => Json::Bool(*b),
        serde_json::Value::Number(n) => Json::Number(n.to_string()),
        serde_json::Value::String(s) => Json::Text(s.clone()),
        serde_json::Value::Array(items) => Json::Array(items.iter().map(json_of_value).collect()),
        serde_json::Value::Object(members) => Json::Object(
            members.iter().map(|(k, v)| Member { name: k.clone(), value: json_of_value(v) }).collect(),
        ),
    }
}

/// `serde_json::from_str`, asked for a `serde_json::Value`: the value that
/// the text stands for, or the error of a text that stands for none.
#[verifier::external_body]
fn read_json(text: &str) -> (read: Result<Json, serde_json::Error>)
    ensures
        match read {
            Ok(json) => json_of_text(text@) == Some(json@),
            Err(_) => json_of_text(text@) is None,
        },
{
    match serde_json::from_str::<serde_json::Value>(text) {
        Ok(value) => Ok(json_of_value(&value)),
        Err(err) => Err(err),
    }
}

impl Json {
    /// Reads a value from JSON text. Text that is no JSON gives a
    /// `SerializationError`.
    pub fn parse(text: &str) -> (read: Result<Json, ChatGuruError>)
        ensures
            match read {
                Ok(json) => json_of_text(text@) == Some(json@),
                Err(err) => json_of_text(text@) is None && err is SerializationError,
            },
    {
        match read_json(text) {
            Ok(json) => Ok(json),
            Err(err) => Err(ChatGuruError::from(err)),
        }
    }
}

} // verus!
