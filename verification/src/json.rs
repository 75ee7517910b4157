//! JSON documents as values of the library. The reading of JSON text is
//! serde_json's; what is looked up in a document is decided here.

use vstd::prelude::*;
use crate::text::text_eq;

verus! {

/// A JSON value.
#[derive(Debug)]
pub enum Json {
    Null,
    Bool(bool),
    /// A number, by the text that stands for it.
    Number(String),
    Text(String),
    Array(Vec<Json>),
    /// An object, member by member.
    Object(Vec<JsonMember>),
}

/// A member of a JSON object.
#[derive(Debug)]
pub struct JsonMember {
    pub name: String,
    pub value: Json,
}

/// What a `Json` holds.
pub enum JsonView {
    Null,
    Bool(bool),
    Number(Seq<char>),
    Text(Seq<char>),
    Array(Seq<JsonView>),
    Object(Seq<(Seq<char>, JsonView)>),
}

impl View for Json {
    type V = JsonView;

    open spec fn view(&self) -> JsonView
        decreases self,
    {
        match self {
            Json::Null => JsonView::Null,
            Json::Bool(b) => JsonView::Bool(*b),
            Json::Number(n) => JsonView::Number(n@),
            Json::Text(t) => JsonView::Text(t@),
            Json::Array(items) => JsonView::Array(items_view(items@)),
            Json::Object(members) => JsonView::Object(members_view(members@)),
        }
    }
}

/// What the items of an array hold, item by item.
pub open spec fn items_view(items: Seq<Json>) -> Seq<JsonView>
    decreases items,
{
    if items.len() == 0 {
        Seq::empty()
    } else {
        items_view(items.drop_last()).push(items.last()@)
    }
}

/// What the members of an object hold, member by member: the name and the
/// value.
pub open spec fn members_view(members: Seq<JsonMember>) -> Seq<(Seq<char>, JsonView)>
    decreases members,
{
    if members.len() == 0 {
        Seq::empty()
    } else {
        members_view(members.drop_last()).push((members.last().name@, members.last().value@))
    }
}

/// The view of an object has a member for each member, in the same place.
pub proof fn lemma_members_view(members: Seq<JsonMember>)
    ensures
        members_view(members).len() == members.len(),
        forall|k: int|
            0 <= k < members.len() ==> #[trigger] members_view(members)[k] == (
                members[k].name@,
                members[k].value@,
            ),
    decreases members.len(),
{
    if members.len() > 0 {
        lemma_members_view(members.drop_last());
        assert(members_view(members) =~= members_view(members.drop_last()).push(
            (members.last().name@, members.last().value@),
        ));
    } else {
        assert(members_view(members) =~= Seq::empty());
    }
}

/// Makes serde_json's `Value` known to the verifier as a type. Nothing of
/// its inside is known: a value of it is carried from `read_value` to
/// `json_of`.
#[verifier::external_type_specification]
#[verifier::external_body]
pub struct ExValue(serde_json::Value);

/// What a value of serde_json holds, as the library views JSON: the members
/// of an object in the order in which serde_json keeps them, a number by
/// the text that serde_json writes for it.
pub uninterp spec fn value_contents(value: serde_json::Value) -> JsonView;

/// What serde_json reads from a text: the document that the text stands
/// for, or the message of serde_json's error where it stands for none.
pub uninterp spec fn json_document(text: Seq<char>) -> Result<JsonView, Seq<char>>;

/// Calls serde_json's `from_str` for a `Value`.
///
/// Trusted: the result is a function of the text alone, the document or the
/// error's message.
#[verifier::external_body]
fn read_value(text: &str) -> (r: Result<serde_json::Value, String>)
    ensures
        match r {
            Ok(value) => json_document(text@) == Ok::<JsonView, Seq<char>>(value_contents(value)),
            Err(message) => json_document(text@) == Err::<JsonView, Seq<char>>(message@),
        },
{
    serde_json::from_str::<serde_json::Value>(text).map_err(|e| e.to_string())
}

/// Takes a value of serde_json apart, variant by variant, into a `Json`.
///
/// Trusted: the `Json` holds what the value held.
#[verifier::external_body]
fn json_of(value: serde_json::Value) -> (json: Json)
    ensures
        json@ == value_contents(value),
{
    match value {
        serde_json::Value::Null => Json::Null,
        serde_json::Value::Bool(flag) => Json::Bool(flag),
        serde_json::Value::Number(number) => Json::Number(number.to_string()),
        serde_json::Value::String(text) => Json::Text(text),
        serde_json::Value::Array(items) => Json::Array(items.into_iter().map(json_of).collect()),
        serde_json::Value::Object(members) => Json::Object(
            members.into_iter().map(|(name, value)| JsonMember { name, value: json_of(value) }).collect(),
        ),
    }
}

/// Reads a JSON document from its text. The error is serde_json's message.
pub fn parse_json(text: &str) -> (r: Result<Json, String>)
    ensures
        match r {
            Ok(json) => json_document(text@) == Ok::<JsonView, Seq<char>>(json@),
            Err(message) => json_document(text@) == Err::<JsonView, Seq<char>>(message@),
        },
{
    match read_value(text) {
        Ok(value) => Ok(json_of(value)),
        Err(message) => Err(message),
    }
}

/// The value of the first member called `name`, if there is one.
pub open spec fn first_member(members: Seq<(Seq<char>, JsonView)>, name: Seq<char>) -> Option<
    JsonView,
>
    decreases members.len(),
{
    if members.len() == 0 {
        None
    } else if members[0].0 == name {
        Some(members[0].1)
    } else {
        first_member(members.drop_first(), name)
    }
}

/// The member `name` of a document: the value of the first member of that
/// name where the document is an object that has one.
pub open spec fn member_of(doc: JsonView, name: Seq<char>) -> Option<JsonView> {
    match doc {
        JsonView::Object(members) => first_member(members, name),
        _ => None,
    }
}

/// The text of a document that is a text.
pub open spec fn text_of(doc: JsonView) -> Option<Seq<char>> {
    match doc {
        JsonView::Text(text) => Some(text),
        _ => None,
    }
}

impl Json {
    /// The member `name`, where this is an object that has one.
    pub fn member(&self, name: &str) -> (r: Option<&Json>)
        ensures
            match r {
                Some(value) => member_of(self@, name@) == Some(value@),
                None => member_of(self@, name@) is None,
            },
    {
        match self {
            Json::Object(members) => {
                let ghost all = self@->Object_0;
                proof {
                    lemma_members_view(members@);
                    assert(all.skip(0) =~= all);
                }
                let mut i: usize = 0;
                while i < members.len()
                    invariant
                        i <= members.len(),
                        self@ == JsonView::Object(all),
                        all.len() == members@.len(),
                        forall|k: int|
                            0 <= k < all.len() ==> all[k] == (
                                members@[k].name@,
                                members@[k].value@,
                            ),
                        first_member(all, name@) == first_member(all.skip(i as int), name@),
                    decreases members.len() - i,
                {
                    proof {
                        assert(all.skip(i as int).drop_first() =~= all.skip(i + 1));
                    }
                    if text_eq(members[i].name.as_str(), name) {
                        return Some(&members[i].value);
                    }
                    i = i + 1;
                }
                None
            },
            _ => None,
        }
    }

    /// The text, where this is a text.
    pub fn as_text(&self) -> (r: Option<&String>)
        ensures
            match r {
                Some(text) => text_of(self@) == Some(text@),
                None => text_of(self@) is None,
            },
    {
        match self {
            Json::Text(text) => Some(text),
            _ => None,
        }
    }
}

} // verus!
