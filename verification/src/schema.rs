//! The schemas by which tools describe their arguments.
use vstd::prelude::*;

use crate::json::{no_fields, text_array_view, Fields, Json, JsonView};
use crate::registry::{InfoView, ToolInfo};
use crate::text::{owned, texts};

verus! {

/// A list of texts under construction.
pub struct TextList {
    list: Vec<String>,
}

impl View for TextList {
    type V = Seq<Seq<char>>;

    closed spec fn view(&self) -> Seq<Seq<char>> {
        texts(self.list@)
    }
}

/// The empty list of texts.
pub open spec fn no_texts() -> Seq<Seq<char>> {
    Seq::empty()
}

impl TextList {
    /// No texts.
    pub fn new() -> (r: TextList)
        ensures
            r@ == no_texts(),
    {
        let r = TextList { list: Vec::new() };
        assert(r@ =~= no_texts());
        r
    }

    /// The list with one more text.
    pub fn with(self, text: &str) -> (r: TextList)
        ensures
            r@ == self@.push(text@),
    {
        let mut list = self.list;
        list.push(owned(text));
        let r = TextList { list };
        assert(r@ =~= self@.push(text@));
        r
    }

    /// The list as JSON.
    pub fn array(&self) -> (r: Json)
        ensures
            r@ == text_array_view(self@),
    {
        Json::text_array(&self.list)
    }
}

/// A value of some type.
pub open spec fn typed_view(kind: Seq<char>) -> JsonView {
    JsonView::Object(no_fields().push(("type"@, JsonView::Str(kind))))
}

/// A value of some type.
pub fn typed(kind: &str) -> (r: Json)
    ensures
        r@ == typed_view(kind@),
{
    Fields::new().with("type", Json::text(kind)).object()
}

/// A value of some type, and what it is for.
pub open spec fn described_view(kind: Seq<char>, description: Seq<char>) -> JsonView {
    JsonView::Object(
        no_fields().push(("type"@, JsonView::Str(kind))).push(
            ("description"@, JsonView::Str(description)),
        ),
    )
}

/// A value of some type, and what it is for.
pub fn described(kind: &str, description: &str) -> (r: Json)
    ensures
        r@ == described_view(kind@, description@),
{
    Fields::new().with("type", Json::text(kind)).with(
        "description",
        Json::text(description),
    ).object()
}

/// One of some strings.
pub open spec fn choice_view(options: Seq<Seq<char>>) -> JsonView {
    JsonView::Object(
        no_fields().push(("type"@, JsonView::Str("string"@))).push(
            ("enum"@, text_array_view(options)),
        ),
    )
}

/// One of some strings.
pub fn choice(options: TextList) -> (r: Json)
    ensures
        r@ == choice_view(options@),
{
    Fields::new().with("type", Json::text("string")).with("enum", options.array()).object()
}

/// One of some strings, and what it is for.
pub open spec fn described_choice_view(options: Seq<Seq<char>>, description: Seq<char>) -> JsonView {
    JsonView::Object(
        no_fields().push(("type"@, JsonView::Str("string"@))).push(
            ("enum"@, text_array_view(options)),
        ).push(("description"@, JsonView::Str(description))),
    )
}

/// One of some strings, and what it is for.
pub fn described_choice(options: TextList, description: &str) -> (r: Json)
    ensures
        r@ == described_choice_view(options@, description@),
{
    Fields::new().with("type", Json::text("string")).with("enum", options.array()).with(
        "description",
        Json::text(description),
    ).object()
}

/// A list, what it is for, and what its items are.
pub open spec fn list_view(items: JsonView, description: Seq<char>) -> JsonView {
    JsonView::Object(
        no_fields().push(("type"@, JsonView::Str("array"@))).push(("items"@, items)).push(
            ("description"@, JsonView::Str(description)),
        ),
    )
}

/// A list, what it is for, and what its items are.
pub fn list(items: Json, description: &str) -> (r: Json)
    ensures
        r@ == list_view(items@, description@),
{
    Fields::new().with("type", Json::text("array")).with("items", items).with(
        "description",
        Json::text(description),
    ).object()
}

/// An object with these properties.
pub open spec fn object_view(properties: Seq<(Seq<char>, JsonView)>) -> Seq<(Seq<char>, JsonView)> {
    no_fields().push(("type"@, JsonView::Str("object"@))).push(
        ("properties"@, JsonView::Object(properties)),
    )
}

/// An object with these properties, none of which must be there.
pub open spec fn optional_object_view(properties: Seq<(Seq<char>, JsonView)>) -> JsonView {
    JsonView::Object(object_view(properties))
}

/// An object with these properties, none of which must be there.
pub fn optional_object(properties: Fields) -> (r: Json)
    ensures
        r@ == optional_object_view(properties@),
{
    Fields::new().with("type", Json::text("object")).with(
        "properties",
        properties.object(),
    ).object()
}

/// An object with these properties, of which some must be there.
pub open spec fn required_object_view(
    properties: Seq<(Seq<char>, JsonView)>,
    required: Seq<Seq<char>>,
) -> JsonView {
    JsonView::Object(object_view(properties).push(("required"@, text_array_view(required))))
}

/// An object with these properties, of which some must be there.
pub fn required_object(properties: Fields, required: TextList) -> (r: Json)
    ensures
        r@ == required_object_view(properties@, required@),
{
    Fields::new().with("type", Json::text("object")).with(
        "properties",
        properties.object(),
    ).with("required", required.array()).object()
}

/// What a tool says about itself.
pub fn describe(name: &str, description: &str, parameters: Json) -> (r: ToolInfo)
    ensures
        r@ == (InfoView {
            name: name@,
            description: description@,
            parameters: parameters@,
        }),
{
    ToolInfo { name: owned(name), description: owned(description), parameters }
}

} // verus!
