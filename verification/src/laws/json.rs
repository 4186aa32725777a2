//! How values are read: by their kind, and by the names of their fields.
use vstd::prelude::*;

use crate::json::{
    fields_view, int_or_null, jsons, lookup, number_text, text_array_view, Json, JsonView,
};
use crate::text::dec;

verus! {

/// A value is read as what it is and as nothing else: a string as its text, a boolean as itself, a
/// list as its items, a whole number as a number where it is within the range asked for.
pub proof fn values_are_read_by_kind(s: Seq<char>, b: bool, items: Seq<JsonView>, n: int)
    ensures
        JsonView::Str(s).text() == Some(s),
        JsonView::Bool(b).boolean() == Some(b),
        JsonView::Array(items).items() == Some(items),
        JsonView::Int(n).int64() == (if -0x8000_0000_0000_0000 <= n && n < 0x8000_0000_0000_0000 {
            Some(n)
        } else {
            None
        }),
        JsonView::Int(n).uint64() == (if 0 <= n && n < 0x1_0000_0000_0000_0000 {
            Some(n)
        } else {
            None
        }),
        int_or_null(JsonView::Int(n).int64()) == JsonView::Null || int_or_null(
            JsonView::Int(n).int64(),
        ) == JsonView::Int(n),
        forall|v: JsonView| #[trigger] v.text() is Some ==> v is Str,
        forall|v: JsonView| #[trigger] v.boolean() is Some ==> v is Bool,
        forall|v: JsonView| #[trigger] v.items() is Some ==> v is Array,
        forall|v: JsonView| #[trigger] v.int64() is Some ==> v is Int,
        forall|v: JsonView| #[trigger] v.uint64() is Some ==> v is Int,
{
}

/// A number is written as it reads; other values are no numbers.
pub proof fn numbers_have_their_text(v: JsonView)
    ensures
        match number_text(v) {
            Some(text) => v == JsonView::Float(text) || (v matches JsonView::Int(n) && text == dec(n)),
            None => !(v is Int) && !(v is Float),
        },
{
}

/// A field is found by its name wherever it stands, and a later field of the same name hides an
/// earlier one. What is no object has no fields, and a missing field reads as null.
pub proof fn later_fields_hide_earlier_ones(
    before: Seq<(Seq<char>, JsonView)>,
    after: Seq<(Seq<char>, JsonView)>,
    key: Seq<char>,
    value: JsonView,
)
    requires
        forall|i: int| 0 <= i < after.len() ==> (#[trigger] after[i]).0 != key,
    ensures
        lookup(before.push((key, value)) + after, key) == Some(value),
        JsonView::Object(before.push((key, value)) + after).at(key) == value,
        lookup(after, key) is None,
        JsonView::Object(after).at(key) == JsonView::Null,
        !(value is Object) ==> value.field(key) is None && value.at(key) == JsonView::Null,
    decreases after.len(),
{
    let all = before.push((key, value)) + after;
    if after.len() > 0 {
        assert(after.drop_last().len() == after.len() - 1);
        assert forall|i: int| 0 <= i < after.drop_last().len() implies (
        #[trigger] after.drop_last()[i]).0 != key by {
            assert(after[i].0 != key);
        }
        later_fields_hide_earlier_ones(before, after.drop_last(), key, value);
        assert(all.drop_last() =~= before.push((key, value)) + after.drop_last());
        assert(all.last() == after.last());
        assert(after[after.len() - 1].0 != key);
    } else {
        assert(all =~= before.push((key, value)));
        assert(all.last() == (key, value));
    }
}

/// A list stands for the values of its items, and an object for its names with their values, each in
/// order.
pub proof fn values_stand_for_their_parts(items: Vec<Json>, fields: Vec<(String, Json)>)
    ensures
        Json::Array(items)@ == JsonView::Array(jsons(items@)),
        Json::Object(fields)@ == JsonView::Object(fields_view(fields@)),
        forall|i: int| 0 <= i < items@.len() ==> #[trigger] jsons(items@)[i] == items@[i]@,
        forall|i: int|
            0 <= i < fields@.len() ==> #[trigger] fields_view(fields@)[i] == (
                fields@[i].0@,
                fields@[i].1@,
            ),
{
    crate::json::lemma_array_view(items);
    crate::json::lemma_object_view(fields);
}

/// A list of texts is a list of strings, one for one.
pub proof fn texts_are_listed(texts: Seq<Seq<char>>)
    ensures
        text_array_view(texts).items() matches Some(items) && items.len() == texts.len()
            && forall|i: int|
            0 <= i < texts.len() ==> (#[trigger] items[i]).text() == Some(texts[i]),
{
}

} // verus!
