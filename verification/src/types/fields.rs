//! How the fields of a payload are read from the members of a JSON object.
//!
//! Each reader takes what the object gives under the names of one field and
//! says what the field holds, or `None` where the object does not fit: where
//! it gives the field twice, or gives it a value of another type.

use crate::json::{
    items_view, lemma_array_view, lemma_object_view, lookup_view, map_of, member, members_view,
    find_member, Json, JsonMap, JsonView, Lookup,
};
use vstd::prelude::*;

verus! {

/// The text that a string holds, where there is a string.
pub open spec fn opt_text(text: Option<String>) -> Option<Seq<char>> {
    match text {
        Some(t) => Some(t@),
        None => None,
    }
}

/// The text that a reader of an optional field hands out.
pub open spec fn opt_opt_text(text: Option<Option<String>>) -> Option<Option<Seq<char>>> {
    match text {
        Some(t) => Some(opt_text(t)),
        None => None,
    }
}

/// The text of each of a sequence of strings.
pub open spec fn texts_view(texts: Seq<String>) -> Seq<Seq<char>> {
    Seq::new(texts.len(), |i: int| texts[i]@)
}

/// A field that must be there, and hold text.
pub open spec fn required_text(found: Lookup<JsonView>) -> Option<Seq<char>> {
    match found {
        Lookup::Once(JsonView::Text(t)) => Some(t),
        _ => None,
    }
}

/// A field that holds text, and is empty where the object does not give it.
pub open spec fn text_or_empty(found: Lookup<JsonView>) -> Option<Seq<char>> {
    match found {
        Lookup::Absent => Some(Seq::empty()),
        Lookup::Once(JsonView::Text(t)) => Some(t),
        _ => None,
    }
}

/// A field that may hold text: nothing where the object does not give it or
/// gives `null`.
pub open spec fn optional_text(found: Lookup<JsonView>) -> Option<Option<Seq<char>>> {
    match found {
        Lookup::Absent => Some(None),
        Lookup::Once(JsonView::Null) => Some(None),
        Lookup::Once(JsonView::Text(t)) => Some(Some(t)),
        _ => None,
    }
}

/// A field that may hold a number, as its text.
pub open spec fn optional_number(found: Lookup<JsonView>) -> Option<Option<Seq<char>>> {
    match found {
        Lookup::Absent => Some(None),
        Lookup::Once(JsonView::Null) => Some(None),
        Lookup::Once(JsonView::Number(n)) => Some(Some(n)),
        _ => None,
    }
}

/// A field that may hold `true` or `false`.
pub open spec fn optional_flag(found: Lookup<JsonView>) -> Option<Option<bool>> {
    match found {
        Lookup::Absent => Some(None),
        Lookup::Once(JsonView::Null) => Some(None),
        Lookup::Once(JsonView::Bool(b)) => Some(Some(b)),
        _ => None,
    }
}

/// Every one of the items is text.
pub open spec fn all_text(items: Seq<JsonView>) -> bool {
    forall|i: int| 0 <= i < items.len() ==> (#[trigger] items[i]) is Text
}

/// The text of each of the items.
pub open spec fn texts_of(items: Seq<JsonView>) -> Seq<Seq<char>> {
    Seq::new(items.len(), |i: int| items[i]->Text_0)
}

/// A field that holds a list of texts, and is empty where the object does not
/// give it.
pub open spec fn texts_or_empty(found: Lookup<JsonView>) -> Option<Seq<Seq<char>>> {
    match found {
        Lookup::Absent => Some(Seq::empty()),
        Lookup::Once(JsonView::Array(items)) => if all_text(items) {
            Some(texts_of(items))
        } else {
            None
        },
        _ => None,
    }
}

/// A field that holds a map from names to any values, and is empty where the
/// object does not give it.
pub open spec fn map_or_empty(found: Lookup<JsonView>) -> Option<Map<Seq<char>, JsonView>> {
    match found {
        Lookup::Absent => Some(Map::empty()),
        Lookup::Once(JsonView::Object(members)) => Some(map_of(members)),
        _ => None,
    }
}

/// Reads a field that must be there, and hold text.
pub fn read_required_text(found: Lookup<&Json>) -> (text: Option<String>)
    ensures
        opt_text(text) == required_text(lookup_view(found)),
{
    match found {
        Lookup::Once(Json::Text(t)) => Some(t.clone()),
        _ => None,
    }
}

/// Reads a field that holds text, and is empty where the object does not give
/// it.
pub fn read_text_or_empty(found: Lookup<&Json>) -> (text: Option<String>)
    ensures
        opt_text(text) == text_or_empty(lookup_view(found)),
{
    match found {
        Lookup::Absent => Some(String::new()),
        Lookup::Once(Json::Text(t)) => Some(t.clone()),
        _ => None,
    }
}

/// Reads a field that may hold text.
pub fn read_optional_text(found: Lookup<&Json>) -> (text: Option<Option<String>>)
    ensures
        opt_opt_text(text) == optional_text(lookup_view(found)),
{
    match found {
        Lookup::Absent => Some(None),
        Lookup::Once(Json::Null) => Some(None),
        Lookup::Once(Json::Text(t)) => Some(Some(t.clone())),
        _ => None,
    }
}

/// Reads a field that may hold a number.
pub fn read_optional_number(found: Lookup<&Json>) -> (number: Option<Option<String>>)
    ensures
        opt_opt_text(number) == optional_number(lookup_view(found)),
{
    match found {
        Lookup::Absent => Some(None),
        Lookup::Once(Json::Null) => Some(None),
        Lookup::Once(Json::Number(n)) => Some(Some(n.clone())),
        _ => None,
    }
}

/// Reads a field that may hold `true` or `false`.
pub fn read_optional_flag(found: Lookup<&Json>) -> (flag: Option<Option<bool>>)
    ensures
        flag == optional_flag(lookup_view(found)),
{
    match found {
        Lookup::Absent => Some(None),
        Lookup::Once(Json::Null) => Some(None),
        Lookup::Once(Json::Bool(b)) => Some(Some(*b)),
        _ => None,
    }
}

/// Reads a field that holds a list of texts.
pub fn read_texts_or_empty(found: Lookup<&Json>) -> (texts: Option<Vec<String>>)
    ensures
        match texts {
            Some(list) => texts_or_empty(lookup_view(found)) == Some(texts_view(list@)),
            None => texts_or_empty(lookup_view(found)) is None,
        },
{
    match found {
        Lookup::Absent => {
            let list: Vec<String> = Vec::new();
            assert(texts_view(list@) =~= Seq::empty());
            Some(list)
        },
        Lookup::Once(Json::Array(items)) => {
            proof {
                lemma_array_view(*items);
            }
            let mut list: Vec<String> = Vec::new();
            let mut i: usize = 0;
            while i < items.len()
                invariant
                    lookup_view(found) == Lookup::Once(JsonView::Array(items_view(items@))),
                    i <= items.len(),
                    list.len() == i,
                    forall|k: int| 0 <= k < i ==> (#[trigger] items_view(items@)[k]) is Text,
                    forall|k: int| 0 <= k < i ==> list@[k]@ == items_view(items@)[k]->Text_0,
                decreases items.len() - i,
            {
                match &items[i] {
                    Json::Text(t) => {
                        list.push(t.clone());
                    },
                    _ => {
                        assert(!(items_view(items@)[i as int] is Text));
                        return None;
                    },
                }
                i += 1;
            }
            assert(texts_view(list@) =~= texts_of(items_view(items@)));
            Some(list)
        },
        _ => None,
    }
}

/// Reads a field that holds a map from names to any values.
pub fn read_map_or_empty(found: Lookup<&Json>) -> (map: Option<JsonMap>)
    ensures
        match map {
            Some(m) => map_or_empty(lookup_view(found)) == Some(m@),
            None => map_or_empty(lookup_view(found)) is None,
        },
{
    match found {
        Lookup::Absent => Some(JsonMap::new()),
        Lookup::Once(Json::Object(members)) => {
            proof {
                lemma_object_view(*members);
            }
            Some(JsonMap::from_members(members))
        },
        _ => None,
    }
}

/// Whether the object gives nothing for a field.
pub fn is_absent(found: &Lookup<&Json>) -> (absent: bool)
    ensures
        absent == (lookup_view(*found) is Absent),
{
    match found {
        Lookup::Absent => true,
        _ => false,
    }
}

} // verus!
