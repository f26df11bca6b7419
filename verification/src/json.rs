//! JSON documents as trees.

use vstd::prelude::*;

verus! {

/// A JSON document.
#[derive(Debug, PartialEq, Eq)]
pub enum Json {
    /// A string.
    Text(String),
    /// A document kept as the text it arrived in.
    Raw(String),
    List(Vec<Json>),
    /// Members in the order in which they were put in.
    Object(Vec<(String, Json)>),
}

/// What a [`Json`] document holds.
#[verifier::ext_equal]
pub enum JsonView {
    Text(Seq<char>),
    Raw(Seq<char>),
    List(Seq<JsonView>),
    Object(Seq<(Seq<char>, JsonView)>),
}

/// What a document holds.
pub open spec fn json_view(j: Json) -> JsonView
    decreases j,
{
    match j {
        Json::Text(s) => JsonView::Text(s@),
        Json::Raw(s) => JsonView::Raw(s@),
        Json::List(items) => JsonView::List(
            Seq::new(
                items@.len(),
                |i: int| if 0 <= i < items@.len() { json_view(items@[i]) } else { arbitrary() },
            ),
        ),
        Json::Object(members) => JsonView::Object(
            Seq::new(
                members@.len(),
                |i: int|
                    if 0 <= i < members@.len() {
                        (members@[i].0@, json_view(members@[i].1))
                    } else {
                        arbitrary()
                    },
            ),
        ),
    }
}

impl View for Json {
    type V = JsonView;

    open spec fn view(&self) -> JsonView {
        json_view(*self)
    }
}

/// The members of an object.
pub open spec fn members_view(members: Seq<(String, Json)>) -> Seq<(Seq<char>, JsonView)> {
    members.map_values(|m: (String, Json)| (m.0@, m.1@))
}

/// The items of a list.
pub open spec fn items_view(items: Seq<Json>) -> Seq<JsonView> {
    items.map_values(|item: Json| item@)
}

/// A string.
pub fn text(s: &str) -> (r: Json)
    ensures
        r@ == JsonView::Text(s@),
{
    Json::Text(s.to_owned())
}

/// A document kept as the text it arrived in.
pub fn raw(s: &str) -> (r: Json)
    ensures
        r@ == JsonView::Raw(s@),
{
    Json::Raw(s.to_owned())
}

/// A list of documents.
pub fn list(items: Vec<Json>) -> (r: Json)
    ensures
        r@ == JsonView::List(items_view(items@)),
{
    let r = Json::List(items);
    reveal_with_fuel(json_view, 2);
    assert(r@->List_0 =~= items_view(items@));
    r
}

/// A member of an object.
pub fn member(name: &str, value: Json) -> (m: (String, Json))
    ensures
        m.0@ == name@,
        m.1 == value,
{
    (name.to_owned(), value)
}

/// An object.
pub fn object(members: Vec<(String, Json)>) -> (r: Json)
    ensures
        r@ == JsonView::Object(members_view(members@)),
{
    let r = Json::Object(members);
    reveal_with_fuel(json_view, 2);
    assert(r@->Object_0 =~= members_view(members@));
    r
}

/// Nothing is lost between a document and what it holds: texts are kept character by character,
/// and lists and objects item by item, in their order.
pub proof fn documents_hold_what_they_are_made_of(
    s: String,
    items: Vec<Json>,
    members: Vec<(String, Json)>,
)
    ensures
        (Json::Text(s))@ == JsonView::Text(s@),
        (Json::Raw(s))@ == JsonView::Raw(s@),
        (Json::List(items))@ is List,
        (Json::List(items))@->List_0.len() == items@.len(),
        forall|i: int|
            0 <= i < items@.len() ==> (#[trigger] (Json::List(items))@->List_0[i]) == items@[i]@,
        (Json::Object(members))@ is Object,
        (Json::Object(members))@->Object_0.len() == members@.len(),
        forall|i: int|
            0 <= i < members@.len() ==> (#[trigger] (Json::Object(members))@->Object_0[i]) == (
                members@[i].0@,
                members@[i].1@,
            ),
        items_view(items@).len() == items@.len(),
        forall|i: int| 0 <= i < items@.len() ==> #[trigger] items_view(items@)[i] == items@[i]@,
{
    reveal_with_fuel(json_view, 2);
}

} // verus!
