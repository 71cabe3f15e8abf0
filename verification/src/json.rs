//! JSON documents, read and written by `serde_json`. A parsed document is
//! carried as a `serde_json::Value`, whose inside is not modelled. What such
//! a value holds has a name here, and the accessors of `serde_json` are
//! stated over it; what the parser makes of a text and what the printer makes
//! of documents are named, not stated.

use vstd::prelude::*;

verus! {

#[verifier::external_type_specification]
#[verifier::external_body]
pub struct ExJsonValue(serde_json::Value);

/// What a JSON document holds.
pub enum JsonView {
    /// `null`.
    Null,
    /// `true` or `false`.
    Bool(bool),
    /// A number, as `serde_json` prints it.
    Number(Seq<char>),
    /// A string.
    Text(Seq<char>),
    /// An array, by its items in order.
    Array(Seq<JsonView>),
    /// An object, by its members in the order in which the document holds
    /// them; no two members have the same name.
    Object(Seq<(Seq<char>, JsonView)>),
}

/// What a `serde_json::Value` holds.
pub uninterp spec fn json_content(doc: serde_json::Value) -> JsonView;

/// What `serde_json::from_str` makes of a text when a `Value` is asked for:
/// what the document holds, or the parser's message where the text is no
/// JSON document.
pub uninterp spec fn json_parsed(text: Seq<char>) -> Result<JsonView, Seq<char>>;

/// What `serde_json::from_str` makes of a text when a list of strings is
/// asked for: the strings, or nothing where the text is no JSON array of
/// strings.
pub uninterp spec fn json_string_list(text: Seq<char>) -> Option<Seq<Seq<char>>>;

/// What `serde_json::to_string` makes of a list of documents: its JSON text,
/// or the serializer's message.
pub uninterp spec fn json_list_text(items: Seq<JsonView>) -> Result<Seq<char>, Seq<char>>;

/// The first of a sequence of members that has a name, if one has.
pub open spec fn member_named(members: Seq<(Seq<char>, JsonView)>, name: Seq<char>) -> Option<
    JsonView,
>
    decreases members.len(),
{
    if members.len() == 0 {
        None
    } else if members[0].0 == name {
        Some(members[0].1)
    } else {
        member_named(members.drop_first(), name)
    }
}

impl JsonView {
    /// The member of an object under a name; nothing where this is no object
    /// or has no such member.
    pub open spec fn member(self, name: Seq<char>) -> Option<JsonView> {
        match self {
            JsonView::Object(members) => member_named(members, name),
            _ => None,
        }
    }

    /// The text of a string; nothing where this is no string.
    pub open spec fn text(self) -> Option<Seq<char>> {
        match self {
            JsonView::Text(text) => Some(text),
            _ => None,
        }
    }

    /// The items of an array; nothing where this is no array.
    pub open spec fn items(self) -> Option<Seq<JsonView>> {
        match self {
            JsonView::Array(items) => Some(items),
            _ => None,
        }
    }
}

/// What each of a sequence of documents holds, in order.
pub open spec fn contents(docs: Seq<serde_json::Value>) -> Seq<JsonView> {
    docs.map_values(|doc: serde_json::Value| json_content(doc))
}

/// The values behind a sequence of references, in order.
pub open spec fn referents<T>(items: Seq<&T>) -> Seq<T> {
    items.map_values(|item: &T| *item)
}

/// Calls `serde_json::from_str` for a `Value`. What the document holds
/// depends on the text alone; an error comes back as its message.
#[verifier::external_body]
pub(crate) fn parse_json(text: &str) -> (r: Result<serde_json::Value, String>)
    ensures
        match r {
            Ok(doc) => json_parsed(text@) == Ok::<JsonView, Seq<char>>(json_content(doc)),
            Err(message) => json_parsed(text@) == Err::<JsonView, Seq<char>>(message@),
        },
{
    serde_json::from_str::<serde_json::Value>(text).map_err(|e| e.to_string())
}

/// Calls `serde_json::from_str` for a `Vec<String>`. What comes back depends
/// on the text alone; an error comes back as nothing.
#[verifier::external_body]
pub(crate) fn parse_string_list(text: &str) -> (r: Option<Vec<String>>)
    ensures
        match r {
            Some(list) => json_string_list(text@) == Some(list@.map_values(|s: String| s@)),
            None => json_string_list(text@) is None,
        },
{
    serde_json::from_str::<Vec<String>>(text).ok()
}

/// Calls `serde_json::Value::get` with a string key, which looks the key up
/// in an object and finds nothing in any other value.
#[verifier::external_body]
pub(crate) fn json_member<'a>(doc: &'a serde_json::Value, key: &str) -> (r: Option<
    &'a serde_json::Value,
>)
    ensures
        match r {
            Some(member) => json_content(*doc).member(key@) == Some(json_content(*member)),
            None => json_content(*doc).member(key@) is None,
        },
{
    doc.get(key)
}

/// Calls `serde_json::Value::as_str`, which gives the text of a string and
/// nothing for any other value.
#[verifier::external_body]
pub(crate) fn json_string<'a>(doc: &'a serde_json::Value) -> (r: Option<&'a str>)
    ensures
        match r {
            Some(text) => json_content(*doc).text() == Some(text@),
            None => json_content(*doc).text() is None,
        },
{
    doc.as_str()
}

/// Calls `serde_json::Value::as_array`, which gives the items of an array
/// and nothing for any other value.
#[verifier::external_body]
pub(crate) fn json_array<'a>(doc: &'a serde_json::Value) -> (r: Option<&'a Vec<serde_json::Value>>)
    ensures
        match r {
            Some(items) => json_content(*doc).items() == Some(contents(items@)),
            None => json_content(*doc).items() is None,
        },
{
    doc.as_array()
}

/// Calls `serde_json::to_string` on a list of documents. What comes back
/// depends on what the documents hold alone; an error comes back as its
/// message.
#[verifier::external_body]
pub(crate) fn render_json_list(items: &Vec<&serde_json::Value>) -> (r: Result<String, String>)
    ensures
        match r {
            Ok(text) => json_list_text(contents(referents(items@))) == Ok::<Seq<char>, Seq<char>>(
                text@,
            ),
            Err(message) => json_list_text(contents(referents(items@))) == Err::<
                Seq<char>,
                Seq<char>,
            >(message@),
        },
{
    serde_json::to_string(items).map_err(|e| e.to_string())
}

} // verus!
