//! JSON values as plain data, and their mathematical content.
//!
//! An object is a list of insertions: where a key occurs twice, the later field counts.
use vstd::prelude::*;

use crate::text::{dec, fmt_int, opt_str, opt_text, owned, same, texts};

verus! {

/// A JSON value. A number is an integer or, where it is not one, its decimal text.
#[derive(Debug, PartialEq, Eq)]
pub enum Json {
    Null,
    Bool(bool),
    Int(i128),
    Float(String),
    Str(String),
    Array(Vec<Json>),
    Object(Vec<(String, Json)>),
}

/// The mathematical content of a [`Json`] value.
pub enum JsonView {
    Null,
    Bool(bool),
    Int(int),
    Float(Seq<char>),
    Str(Seq<char>),
    Array(Seq<JsonView>),
    Object(Seq<(Seq<char>, JsonView)>),
}

impl View for Json {
    type V = JsonView;

    open spec fn view(&self) -> JsonView {
        json_view(*self)
    }
}

/// The content of one value.
pub open spec fn json_view(j: Json) -> JsonView
    decreases j,
{
    match j {
        Json::Null => JsonView::Null,
        Json::Bool(b) => JsonView::Bool(b),
        Json::Int(n) => JsonView::Int(n as int),
        Json::Float(s) => JsonView::Float(s@),
        Json::Str(s) => JsonView::Str(s@),
        Json::Array(items) => JsonView::Array(
            Seq::new(
                items@.len(),
                |i: int|
                    if 0 <= i < items@.len() {
                        json_view(items@[i])
                    } else {
                        JsonView::Null
                    },
            ),
        ),
        Json::Object(fields) => JsonView::Object(
            Seq::new(
                fields@.len(),
                |i: int|
                    if 0 <= i < fields@.len() {
                        (fields@[i].0@, json_view(fields@[i].1))
                    } else {
                        (Seq::empty(), JsonView::Null)
                    },
            ),
        ),
    }
}

/// The contents of a list of values.
pub open spec fn jsons(items: Seq<Json>) -> Seq<JsonView> {
    items.map_values(|j: Json| j@)
}

/// The contents of a list of fields.
pub open spec fn fields_view(fields: Seq<(String, Json)>) -> Seq<(Seq<char>, JsonView)> {
    fields.map_values(|f: (String, Json)| (f.0@, f.1@))
}

/// The content of an optional value.
pub open spec fn opt_json(j: Option<&Json>) -> Option<JsonView> {
    match j {
        Some(x) => Some(x@),
        None => None,
    }
}

/// The content of an optional owned value.
pub open spec fn opt_json_owned(j: Option<Json>) -> Option<JsonView> {
    match j {
        Some(x) => Some(x@),
        None => None,
    }
}

/// The content of an array is the list of its items' contents.
pub broadcast proof fn lemma_array_view(items: Vec<Json>)
    ensures
        (#[trigger] Json::Array(items)@) == JsonView::Array(jsons(items@)),
{
    let seen = Json::Array(items)@->Array_0;
    assert(seen =~= jsons(items@));
}

/// The content of an object is the list of its fields' contents.
pub broadcast proof fn lemma_object_view(fields: Vec<(String, Json)>)
    ensures
        (#[trigger] Json::Object(fields)@) == JsonView::Object(fields_view(fields@)),
{
    let seen = Json::Object(fields)@->Object_0;
    assert(seen =~= fields_view(fields@));
}

/// The empty list of fields.
pub open spec fn no_fields() -> Seq<(Seq<char>, JsonView)> {
    Seq::empty()
}

/// The value under `key` in a list of fields: that of the last field with this key.
pub open spec fn lookup(fields: Seq<(Seq<char>, JsonView)>, key: Seq<char>) -> Option<JsonView>
    decreases fields.len(),
{
    if fields.len() == 0 {
        None
    } else if fields.last().0 == key {
        Some(fields.last().1)
    } else {
        lookup(fields.drop_last(), key)
    }
}

/// A key that has a value is the key of one of the fields, whose place comes back.
pub proof fn lemma_field_among(fields: Seq<(Seq<char>, JsonView)>, key: Seq<char>) -> (i: int)
    requires
        lookup(fields, key) is Some,
    ensures
        0 <= i < fields.len(),
        fields[i].0 == key,
    decreases fields.len(),
{
    if fields.last().0 == key {
        fields.len() - 1
    } else {
        lemma_field_among(fields.drop_last(), key)
    }
}

/// A list of fields without those under `key`.
pub open spec fn without_key(fields: Seq<(Seq<char>, JsonView)>, key: Seq<char>) -> Seq<
    (Seq<char>, JsonView),
>
    decreases fields.len(),
{
    if fields.len() == 0 {
        fields
    } else {
        let front = without_key(fields.drop_last(), key);
        if fields.last().0 == key {
            front
        } else {
            front.push(fields.last())
        }
    }
}

/// Setting a field changes what stands under its key and nothing else.
pub proof fn with_field_sets_one_field(
    object: JsonView,
    key: Seq<char>,
    value: JsonView,
    other: Seq<char>,
)
    requires
        object is Object,
    ensures
        object.with_field(key, value).field(key) == Some(value),
        other != key ==> object.with_field(key, value).field(other) == object.field(other),
{
    broadcast use lemma_lookup_push;

    if other != key {
        lemma_without_key(object->Object_0, key, other);
    }
}

/// Removing a field leaves nothing under its key, and changes nothing else.
pub proof fn without_field_removes_one_field(value: JsonView, key: Seq<char>, other: Seq<char>)
    ensures
        value.without_field(key).field(key) is None,
        other != key ==> value.without_field(key).field(other) == value.field(other),
{
    if let JsonView::Object(fields) = value {
        lemma_key_is_gone(fields, key);
        if other != key {
            lemma_without_key(fields, key, other);
        }
    }
}

proof fn lemma_key_is_gone(fields: Seq<(Seq<char>, JsonView)>, key: Seq<char>)
    ensures
        lookup(without_key(fields, key), key) is None,
    decreases fields.len(),
{
    broadcast use lemma_lookup_push;

    if fields.len() > 0 {
        lemma_key_is_gone(fields.drop_last(), key);
    }
}

proof fn lemma_without_key(fields: Seq<(Seq<char>, JsonView)>, key: Seq<char>, other: Seq<char>)
    requires
        other != key,
    ensures
        lookup(without_key(fields, key), other) == lookup(fields, other),
    decreases fields.len(),
{
    broadcast use lemma_lookup_push;

    if fields.len() > 0 {
        lemma_without_key(fields.drop_last(), key, other);
    }
}

/// A field added at the end is found under its key and hides nothing else.
pub broadcast proof fn lemma_lookup_push(
    fields: Seq<(Seq<char>, JsonView)>,
    field: (Seq<char>, JsonView),
    key: Seq<char>,
)
    ensures
        (#[trigger] lookup(fields.push(field), key)) == (if field.0 == key {
            Some(field.1)
        } else {
            lookup(fields, key)
        }),
{
    assert(fields.push(field).drop_last() =~= fields);
}

/// In a list of fields followed by another, the second list is looked at first.
pub proof fn lemma_lookup_append(
    a: Seq<(Seq<char>, JsonView)>,
    b: Seq<(Seq<char>, JsonView)>,
    key: Seq<char>,
)
    ensures
        lookup(a + b, key) == (match lookup(b, key) {
            Some(v) => Some(v),
            None => lookup(a, key),
        }),
    decreases b.len(),
{
    if b.len() == 0 {
        assert(a + b =~= a);
    } else {
        assert((a + b).drop_last() =~= a + b.drop_last());
        lemma_lookup_append(a, b.drop_last(), key);
    }
}

impl JsonView {
    /// The value under `key`, where this is an object that has the key.
    pub open spec fn field(self, key: Seq<char>) -> Option<JsonView> {
        match self {
            JsonView::Object(fields) => lookup(fields, key),
            _ => None,
        }
    }

    /// The value under `key`, or `Null`.
    pub open spec fn at(self, key: Seq<char>) -> JsonView {
        match self.field(key) {
            Some(v) => v,
            None => JsonView::Null,
        }
    }

    /// This object with the value under `key` set; its other fields keep their order.
    pub open spec fn with_field(self, key: Seq<char>, value: JsonView) -> JsonView {
        match self {
            JsonView::Object(fields) => JsonView::Object(
                without_key(fields, key).push((key, value)),
            ),
            _ => JsonView::Object(no_fields().push((key, value))),
        }
    }

    /// This value without the fields under `key`, where it is an object.
    pub open spec fn without_field(self, key: Seq<char>) -> JsonView {
        match self {
            JsonView::Object(fields) => JsonView::Object(without_key(fields, key)),
            _ => self,
        }
    }

    /// The characters, where this is a string.
    pub open spec fn text(self) -> Option<Seq<char>> {
        match self {
            JsonView::Str(s) => Some(s),
            _ => None,
        }
    }

    /// The integer, where this is one that fits in 64 signed bits.
    pub open spec fn int64(self) -> Option<int> {
        match self {
            JsonView::Int(n) => if i64::MIN <= n <= i64::MAX {
                Some(n)
            } else {
                None
            },
            _ => None,
        }
    }

    /// The integer, where this is one that fits in 64 unsigned bits.
    pub open spec fn uint64(self) -> Option<int> {
        match self {
            JsonView::Int(n) => if 0 <= n <= u64::MAX {
                Some(n)
            } else {
                None
            },
            _ => None,
        }
    }

    /// The truth value, where this is one.
    pub open spec fn boolean(self) -> Option<bool> {
        match self {
            JsonView::Bool(b) => Some(b),
            _ => None,
        }
    }

    /// The items, where this is an array.
    pub open spec fn items(self) -> Option<Seq<JsonView>> {
        match self {
            JsonView::Array(items) => Some(items),
            _ => None,
        }
    }

    /// The characters of the string under `key`.
    pub open spec fn text_at(self, key: Seq<char>) -> Option<Seq<char>> {
        self.at(key).text()
    }

    /// The 64-bit integer under `key`.
    pub open spec fn int_at(self, key: Seq<char>) -> Option<int> {
        self.at(key).int64()
    }

    /// The truth value under `key`.
    pub open spec fn bool_at(self, key: Seq<char>) -> Option<bool> {
        self.at(key).boolean()
    }

    /// The items of the array under `key`.
    pub open spec fn items_at(self, key: Seq<char>) -> Option<Seq<JsonView>> {
        self.at(key).items()
    }
}

/// A string, or `Null` where there is none.
pub open spec fn text_or_null(s: Option<Seq<char>>) -> JsonView {
    match s {
        Some(x) => JsonView::Str(x),
        None => JsonView::Null,
    }
}

/// An integer, or `Null` where there is none.
pub open spec fn int_or_null(n: Option<int>) -> JsonView {
    match n {
        Some(x) => JsonView::Int(x),
        None => JsonView::Null,
    }
}

/// A truth value, or `Null` where there is none.
pub open spec fn bool_or_null(b: Option<bool>) -> JsonView {
    match b {
        Some(x) => JsonView::Bool(x),
        None => JsonView::Null,
    }
}

/// The integer view of an optional 64-bit integer.
pub open spec fn opt_int(n: Option<i64>) -> Option<int> {
    match n {
        Some(x) => Some(x as int),
        None => None,
    }
}

impl Json {
    /// Reads a text as JSON, or says why it is none.
    pub fn parse(text: &str) -> (r: Result<Json, String>)
        ensures
            match r {
                Ok(v) => parsed(text@) == Ok::<JsonView, Seq<char>>(v@),
                Err(e) => parsed(text@) == Err::<JsonView, Seq<char>>(e@),
            },
    {
        parse(text)
    }

    /// The compact JSON text of this value.
    pub fn render(&self) -> (r: String)
        ensures
            r@ == rendered(self@),
    {
        render(self)
    }

    /// The value under `key`, where this is an object that has the key.
    pub fn get(&self, key: &str) -> (r: Option<&Json>)
        ensures
            opt_json(r) == self@.field(key@),
    {
        broadcast use lemma_object_view;

        match self {
            Json::Object(fields) => {
                let ghost view = fields_view(fields@);
                let mut i: usize = fields.len();
                assert(view.take(view.len() as int) =~= view);
                while i > 0
                    invariant
                        i <= fields.len(),
                        view == fields_view(fields@),
                        self@ == JsonView::Object(view),
                        lookup(view, key@) == lookup(view.take(i as int), key@),
                    decreases i,
                {
                    let ghost front = view.take(i as int);
                    assert(front.last() == (fields@[i - 1].0@, fields@[i - 1].1@));
                    assert(front.drop_last() =~= view.take(i - 1));
                    i -= 1;
                    if same(fields[i].0.as_str(), key) {
                        return Some(&fields[i].1);
                    }
                }
                None
            },
            _ => None,
        }
    }

    /// The characters, where this is a string.
    pub fn as_str(&self) -> (r: Option<&str>)
        ensures
            opt_str(r) == self@.text(),
    {
        match self {
            Json::Str(s) => Some(s.as_str()),
            _ => None,
        }
    }

    /// The integer, where this is one that fits in 64 signed bits.
    pub fn as_i64(&self) -> (r: Option<i64>)
        ensures
            opt_int(r) == self@.int64(),
    {
        match self {
            Json::Int(n) => {
                let n: i128 = *n;
                if -0x8000_0000_0000_0000 <= n && n <= 0x7fff_ffff_ffff_ffff {
                    Some(n as i64)
                } else {
                    None
                }
            },
            _ => None,
        }
    }

    /// The integer, where this is one that fits in 64 unsigned bits.
    pub fn as_u64(&self) -> (r: Option<u64>)
        ensures
            match r {
                Some(n) => self@.uint64() == Some(n as int),
                None => self@.uint64() is None,
            },
    {
        match self {
            Json::Int(n) => {
                let n: i128 = *n;
                if 0 <= n && n <= 0xffff_ffff_ffff_ffff {
                    Some(n as u64)
                } else {
                    None
                }
            },
            _ => None,
        }
    }

    /// The truth value, where this is one.
    pub fn as_bool(&self) -> (r: Option<bool>)
        ensures
            r == self@.boolean(),
    {
        match self {
            Json::Bool(b) => Some(*b),
            _ => None,
        }
    }

    /// The items, where this is an array.
    pub fn as_array(&self) -> (r: Option<&Vec<Json>>)
        ensures
            match r {
                Some(items) => self@.items() == Some(jsons(items@)),
                None => self@.items() is None,
            },
    {
        broadcast use lemma_array_view;

        match self {
            Json::Array(items) => Some(items),
            _ => None,
        }
    }

    /// Whether this is an object.
    pub fn is_object(&self) -> (r: bool)
        ensures
            r == (self@ is Object),
    {
        match self {
            Json::Object(_) => true,
            _ => false,
        }
    }

    /// Whether this is `Null`.
    pub fn is_null(&self) -> (r: bool)
        ensures
            r == (self@ is Null),
    {
        match self {
            Json::Null => true,
            _ => false,
        }
    }

    /// The characters of the string under `key`.
    pub fn str_at(&self, key: &str) -> (r: Option<&str>)
        ensures
            opt_str(r) == self@.text_at(key@),
    {
        match self.get(key) {
            Some(v) => v.as_str(),
            None => None,
        }
    }

    /// The 64-bit integer under `key`.
    pub fn int_at(&self, key: &str) -> (r: Option<i64>)
        ensures
            opt_int(r) == self@.int_at(key@),
    {
        match self.get(key) {
            Some(v) => v.as_i64(),
            None => None,
        }
    }

    /// The truth value under `key`.
    pub fn bool_at(&self, key: &str) -> (r: Option<bool>)
        ensures
            r == self@.bool_at(key@),
    {
        match self.get(key) {
            Some(v) => v.as_bool(),
            None => None,
        }
    }

    /// The items of the array under `key`.
    pub fn array_at(&self, key: &str) -> (r: Option<&Vec<Json>>)
        ensures
            match r {
                Some(items) => self@.items_at(key@) == Some(jsons(items@)),
                None => self@.items_at(key@) is None,
            },
    {
        match self.get(key) {
            Some(v) => v.as_array(),
            None => None,
        }
    }

    /// A value with the same content.
    pub fn copy(&self) -> (r: Json)
        ensures
            r@ == self@,
        decreases self,
    {
        broadcast use {lemma_array_view, lemma_object_view};

        match self {
            Json::Null => Json::Null,
            Json::Bool(b) => Json::Bool(*b),
            Json::Int(n) => Json::Int(*n),
            Json::Float(s) => Json::Float(owned(s.as_str())),
            Json::Str(s) => Json::Str(owned(s.as_str())),
            Json::Array(items) => {
                let mut out: Vec<Json> = Vec::new();
                let mut i: usize = 0;
                while i < items.len()
                    invariant
                        i <= items.len(),
                        out.len() == i,
                        *self == Json::Array(*items),
                        forall|k: int| 0 <= k < i ==> (#[trigger] out@[k])@ == items@[k]@,
                    decreases items.len() - i,
                {
                    assert(decreases_to!(*items => items@[i as int]));
                    assert(decreases_to!(*self => self->Array_0));
                    out.push(items[i].copy());
                    i += 1;
                }
                assert(jsons(out@) =~= jsons(items@));
                Json::Array(out)
            },
            Json::Object(fields) => {
                let mut out: Vec<(String, Json)> = Vec::new();
                let mut i: usize = 0;
                while i < fields.len()
                    invariant
                        i <= fields.len(),
                        out.len() == i,
                        *self == Json::Object(*fields),
                        forall|k: int|
                            0 <= k < i ==> (#[trigger] out@[k]).0@ == fields@[k].0@ && out@[k].1@
                                == fields@[k].1@,
                    decreases fields.len() - i,
                {
                    let ghost f = fields@[i as int];
                    assert(decreases_to!(*fields => fields@[i as int]));
                    assert(decreases_to!(*self => self->Object_0));
                    assert(decreases_to!(f => f.1));
                    out.push((owned(fields[i].0.as_str()), fields[i].1.copy()));
                    i += 1;
                }
                assert(fields_view(out@) =~= fields_view(fields@));
                Json::Object(out)
            },
        }
    }

    /// A copy of the value under `key`, or `Null`.
    pub fn copy_at(&self, key: &str) -> (r: Json)
        ensures
            r@ == self@.at(key@),
    {
        match self.get(key) {
            Some(v) => v.copy(),
            None => Json::Null,
        }
    }

    fn fields_without(&self, key: &str) -> (r: Fields)
        ensures
            r@ == (match self@ {
                JsonView::Object(fields) => without_key(fields, key@),
                _ => no_fields(),
            }),
    {
        broadcast use lemma_object_view;

        let mut out = Fields::new();
        if let Json::Object(fields) = self {
            let ghost view = fields_view(fields@);
            let mut i: usize = 0;
            assert(view.take(0) =~= no_fields());
            while i < fields.len()
                invariant
                    i <= fields.len(),
                    view == fields_view(fields@),
                    out@ == without_key(view.take(i as int), key@),
                decreases fields.len() - i,
            {
                let ghost next = view.take(i + 1);
                assert(next.drop_last() =~= view.take(i as int));
                assert(next.last() == (fields@[i as int].0@, fields@[i as int].1@));
                if !same(fields[i].0.as_str(), key) {
                    out.put(fields[i].0.as_str(), fields[i].1.copy());
                }
                i += 1;
            }
            assert(view.take(view.len() as int) =~= view);
        }
        out
    }

    /// A copy of this object with the value under `key` set; nothing becomes an object.
    pub fn with_field(&self, key: &str, value: Json) -> (r: Json)
        requires
            self@ is Object || self@ is Null,
        ensures
            r@ == self@.with_field(key@, value@),
    {
        let mut out = if self.is_null() {
            Fields::new()
        } else {
            self.fields_without(key)
        };
        out.put(key, value);
        out.object()
    }

    /// A copy of this value without the fields under `key`, where it is an object.
    pub fn without_field(&self, key: &str) -> (r: Json)
        ensures
            r@ == self@.without_field(key@),
    {
        if self.is_object() {
            self.fields_without(key).object()
        } else {
            self.copy()
        }
    }

    /// A string value.
    pub fn text(s: &str) -> (r: Json)
        ensures
            r@ == JsonView::Str(s@),
    {
        Json::Str(owned(s))
    }

    /// A string value, or `Null` where there is none.
    pub fn opt_text(s: Option<&str>) -> (r: Json)
        ensures
            r@ == text_or_null(opt_str(s)),
    {
        match s {
            Some(x) => Json::text(x),
            None => Json::Null,
        }
    }

    /// An integer value.
    pub fn integer(n: i64) -> (r: Json)
        ensures
            r@ == JsonView::Int(n as int),
    {
        Json::Int(n as i128)
    }

    /// An unsigned integer value.
    pub fn uint(n: u64) -> (r: Json)
        ensures
            r@ == JsonView::Int(n as int),
    {
        Json::Int(n as i128)
    }

    /// An integer value, or `Null` where there is none.
    pub fn opt_integer(n: Option<i64>) -> (r: Json)
        ensures
            r@ == int_or_null(opt_int(n)),
    {
        match n {
            Some(x) => Json::integer(x),
            None => Json::Null,
        }
    }

    /// A truth value, or `Null` where there is none.
    pub fn opt_bool(b: Option<bool>) -> (r: Json)
        ensures
            r@ == bool_or_null(b),
    {
        match b {
            Some(x) => Json::Bool(x),
            None => Json::Null,
        }
    }

    /// An array value.
    pub fn array(items: Vec<Json>) -> (r: Json)
        ensures
            r@ == JsonView::Array(jsons(items@)),
    {
        broadcast use lemma_array_view;

        Json::Array(items)
    }

    /// An array of strings.
    pub fn text_array(items: &Vec<String>) -> (r: Json)
        ensures
            r@ == text_array_view(crate::text::texts(items@)),
    {
        let mut out: Vec<Json> = Vec::new();
        let mut i: usize = 0;
        while i < items.len()
            invariant
                i <= items.len(),
                out.len() == i,
                forall|k: int|
                    0 <= k < i ==> (#[trigger] out@[k])@ == JsonView::Str(items@[k]@),
            decreases items.len() - i,
        {
            out.push(Json::text(items[i].as_str()));
            i += 1;
        }
        assert(jsons(out@) =~= crate::text::texts(items@).map_values(
            |s: Seq<char>| JsonView::Str(s),
        ));
        Json::array(out)
    }
}

/// An array of strings.
pub open spec fn text_array_view(items: Seq<Seq<char>>) -> JsonView {
    JsonView::Array(items.map_values(|s: Seq<char>| JsonView::Str(s)))
}

/// An object under construction.
pub struct Fields {
    list: Vec<(String, Json)>,
}

impl View for Fields {
    type V = Seq<(Seq<char>, JsonView)>;

    closed spec fn view(&self) -> Seq<(Seq<char>, JsonView)> {
        fields_view(self.list@)
    }
}

impl Fields {
    /// No fields.
    pub fn new() -> (r: Fields)
        ensures
            r@ == no_fields(),
    {
        let r = Fields { list: Vec::new() };
        assert(r@ =~= no_fields());
        r
    }

    /// Adds a field at the end.
    pub fn put(&mut self, key: &str, value: Json)
        ensures
            final(self)@ == old(self)@.push((key@, value@)),
    {
        self.list.push((owned(key), value));
        assert(self@ =~= old(self)@.push((key@, value@)));
    }

    /// Adds a field at the end and hands the list back.
    pub fn with(self, key: &str, value: Json) -> (r: Fields)
        ensures
            r@ == self@.push((key@, value@)),
    {
        let mut list = self.list;
        list.push((owned(key), value));
        let r = Fields { list };
        assert(r@ =~= self@.push((key@, value@)));
        r
    }

    /// Adds the fields of another list at the end.
    pub fn append(&mut self, more: Fields)
        ensures
            final(self)@ == old(self)@ + more@,
    {
        let mut list = more.list;
        self.list.append(&mut list);
        assert(self@ =~= old(self)@ + more@);
    }

    /// The object made of the fields.
    pub fn object(self) -> (r: Json)
        ensures
            r@ == JsonView::Object(self@),
    {
        broadcast use lemma_object_view;

        Json::Object(self.list)
    }
}

// ── text ────────────────────────────────────────────────────────────────────

/// What a text holds as JSON, or the message that says why it holds none.
pub uninterp spec fn parsed(text: Seq<char>) -> Result<JsonView, Seq<char>>;

/// What some bytes hold as JSON, or the message that says why they hold none.
pub uninterp spec fn parsed_bytes(bytes: Seq<u8>) -> Result<JsonView, Seq<char>>;

/// The compact JSON text of a value.
pub uninterp spec fn rendered(value: JsonView) -> Seq<char>;

/// The bits of the binary64 number that a decimal text stands for. There are none where the text is
/// no number or the number is not finite.
pub uninterp spec fn float_bits(text: Seq<char>) -> Option<u64>;

/// The shortest decimal text of the binary64 number that a decimal text stands for. There is none
/// where the text is no number or the number is not finite.
pub uninterp spec fn float_text(text: Seq<char>) -> Option<Seq<char>>;

/// The content of what a parser gives.
pub open spec fn read_view(read: Result<Json, String>) -> Result<JsonView, Seq<char>> {
    match read {
        Ok(v) => Ok(v@),
        Err(e) => Err(e@),
    }
}

/// `serde_json::Value`, carried from a parser to its conversion and never looked into.
#[verifier::external_type_specification]
#[verifier::external_body]
pub struct ExValue(serde_json::Value);

/// Moves a `serde_json` value over, node by node: the conversion half of [`parse`].
#[verifier::external_body]
fn from_value(value: serde_json::Value) -> Json {
    match value {
        serde_json::Value::Null => Json::Null,
        serde_json::Value::Bool(b) => Json::Bool(b),
        serde_json::Value::Number(n) => match n.as_i128() {
            Some(i) => Json::Int(i),
            None => Json::Float(n.to_string()),
        },
        serde_json::Value::String(s) => Json::Str(s),
        serde_json::Value::Array(items) => Json::Array(items.into_iter().map(from_value).collect()),
        serde_json::Value::Object(map) => Json::Object(
            map.into_iter().map(|(k, v)| (k, from_value(v))).collect(),
        ),
    }
}

/// Moves a value over to `serde_json`, node by node: the conversion half of [`render`].
#[verifier::external_body]
fn to_value(value: &Json) -> serde_json::Value {
    match value {
        Json::Null => serde_json::Value::Null,
        Json::Bool(b) => serde_json::Value::Bool(*b),
        Json::Int(n) => serde_json::Number::from_i128(*n).into(),
        Json::Float(s) => s.parse().ok().and_then(serde_json::Number::from_f64).into(),
        Json::Str(s) => serde_json::Value::String(s.clone()),
        Json::Array(items) => items.iter().map(to_value).collect(),
        Json::Object(fields) => fields.iter().map(|(k, v)| (k.clone(), to_value(v))).collect(),
    }
}

/// Calls `serde_json::from_str` for a `serde_json::Value`. The contract takes what it reads, and
/// the message of its error, by name: both depend on the text alone.
#[verifier::external_body]
pub(crate) fn parse(text: &str) -> (r: Result<Json, String>)
    ensures
        match r {
            Ok(v) => parsed(text@) == Ok::<JsonView, Seq<char>>(v@),
            Err(e) => parsed(text@) == Err::<JsonView, Seq<char>>(e@),
        },
{
    match serde_json::from_str::<serde_json::Value>(text) {
        Ok(value) => Ok(from_value(value)),
        Err(e) => Err(e.to_string()),
    }
}

/// Calls `serde_json::from_slice` for a `serde_json::Value`. The contract takes what it reads, and
/// the message of its error, by name: both depend on the bytes alone.
#[verifier::external_body]
pub(crate) fn parse_bytes(bytes: &[u8]) -> (r: Result<Json, String>)
    ensures
        match r {
            Ok(v) => parsed_bytes(bytes@) == Ok::<JsonView, Seq<char>>(v@),
            Err(e) => parsed_bytes(bytes@) == Err::<JsonView, Seq<char>>(e@),
        },
{
    match serde_json::from_slice::<serde_json::Value>(bytes) {
        Ok(value) => Ok(from_value(value)),
        Err(e) => Err(e.to_string()),
    }
}

/// Calls `serde_json::Value`'s `to_string`, which writes compact JSON. The contract takes the text
/// by name: it depends on the value alone.
#[verifier::external_body]
pub(crate) fn render(value: &Json) -> (r: String)
    ensures
        r@ == rendered(value@),
{
    to_value(value).to_string()
}

/// Calls `str::parse` for a binary64 number and keeps it where `serde_json::Number::from_f64` does,
/// that is where it is finite. The contract takes its bits by name: they depend on the text alone.
#[verifier::external_body]
pub(crate) fn read_bits(text: &str) -> (r: Option<u64>)
    ensures
        r == float_bits(text@),
{
    let number = text.parse().ok().and_then(serde_json::Number::from_f64)?;
    number.as_f64().map(|value| value.to_bits())
}

/// Calls `serde_json::Number`'s `to_string` on the finite binary64 number that `str::parse` reads
/// out of a text. The contract takes what it writes by name: it depends on the text alone.
#[verifier::external_body]
pub(crate) fn shortest_text(text: &str) -> (r: Option<String>)
    ensures
        opt_text(r) == float_text(text@),
{
    let number = text.parse().ok().and_then(serde_json::Number::from_f64)?;
    Some(number.to_string())
}

// ── lists ───────────────────────────────────────────────────────────────────

/// A copy of a list of values, or an empty list.
pub fn copy_items(items: Option<&Vec<Json>>) -> (r: Vec<Json>)
    ensures
        jsons(r@) == (match items {
            Some(v) => jsons(v@),
            None => Seq::empty(),
        }),
{
    let mut out: Vec<Json> = Vec::new();
    match items {
        Some(v) => {
            let mut i: usize = 0;
            while i < v.len()
                invariant
                    i <= v.len(),
                    out.len() == i,
                    forall|k: int| 0 <= k < i ==> (#[trigger] out@[k])@ == v@[k]@,
                decreases v.len() - i,
            {
                out.push(v[i].copy());
                i += 1;
            }
            assert(jsons(out@) =~= jsons(v@));
        },
        None => {
            assert(jsons(out@) =~= Seq::empty());
        },
    }
    out
}

/// The strings among the items of a list, in order.
pub open spec fn strings_in(items: Seq<JsonView>) -> Seq<Seq<char>>
    decreases items.len(),
{
    if items.len() == 0 {
        Seq::empty()
    } else {
        let front = strings_in(items.drop_last());
        match items.last().text() {
            Some(s) => front.push(s),
            None => front,
        }
    }
}

/// Collects the strings among the items of a list, in order.
pub fn collect_strings(items: &Vec<Json>) -> (r: Vec<String>)
    ensures
        texts(r@) == strings_in(jsons(items@)),
{
    let ghost view = jsons(items@);
    let mut out: Vec<String> = Vec::new();
    let mut i: usize = 0;
    assert(view.take(0) =~= Seq::<JsonView>::empty());
    assert(texts(out@) =~= Seq::<Seq<char>>::empty());
    while i < items.len()
        invariant
            i <= items.len(),
            view == jsons(items@),
            texts(out@) == strings_in(view.take(i as int)),
        decreases items.len() - i,
    {
        let ghost next = view.take(i + 1);
        let ghost before = texts(out@);
        assert(next.drop_last() =~= view.take(i as int));
        assert(next.last() == items@[i as int]@);
        if let Some(s) = items[i].as_str() {
            out.push(owned(s));
            assert(texts(out@) =~= before.push(s@));
        }
        i += 1;
    }
    assert(view.take(view.len() as int) =~= view);
    out
}

// ── numbers ─────────────────────────────────────────────────────────────────

/// The decimal text of a number node.
pub open spec fn number_text(v: JsonView) -> Option<Seq<char>> {
    match v {
        JsonView::Int(n) => Some(dec(n)),
        JsonView::Float(s) => Some(s),
        _ => None,
    }
}

pub(crate) fn number_text_of(v: &Json) -> (r: Option<String>)
    ensures
        opt_text(r) == number_text(v@),
{
    match v {
        Json::Int(n) => Some(fmt_int(*n)),
        Json::Float(s) => Some(owned(s.as_str())),
        _ => None,
    }
}

/// The binary64 bits of a decimal text.
pub open spec fn bits_of(text: Option<Seq<char>>) -> Option<u64> {
    match text {
        Some(t) => float_bits(t),
        None => None,
    }
}

/// The binary64 bits of a number node.
pub fn number_bits(v: &Json) -> (r: Option<u64>)
    ensures
        r == bits_of(number_text(v@)),
{
    match number_text_of(v) {
        Some(t) => read_bits(t.as_str()),
        None => None,
    }
}

} // verus!
