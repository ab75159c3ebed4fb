//! JSON text, read one level deep: what a document is at its top, with each
//! element and member kept as JSON text of its own.

use crate::text::opt_text;
use serde_json::Value;
use vstd::prelude::*;

verus! {

#[verifier::external_type_specification]
#[verifier::external_body]
pub struct ExJsonError(serde_json::Error);

/// A member of a JSON object.
#[derive(Debug, PartialEq, Eq)]
pub struct JsonMember {
    pub key: String,
    /// The member's value as compact JSON text.
    pub text: String,
    /// The member's value where it is a JSON string.
    pub string: Option<String>,
}

/// What a JSON document is at its top level.
#[derive(Debug, PartialEq, Eq)]
pub enum JsonValue {
    Null,
    Bool(bool),
    /// A number, as the text that writes it.
    Number(String),
    Text(String),
    /// An array, each element as compact JSON text.
    Array(Vec<String>),
    /// An object, its members in the order of their keys.
    Object(Vec<JsonMember>),
}

/// A parsed JSON document.
#[derive(Debug, PartialEq, Eq)]
pub struct JsonDocument {
    /// The whole document as compact JSON text.
    pub compact: String,
    pub value: JsonValue,
}

pub struct JsonMemberView {
    pub key: Seq<char>,
    pub text: Seq<char>,
    pub string: Option<Seq<char>>,
}

pub enum JsonValueView {
    Null,
    Bool(bool),
    Number(Seq<char>),
    Text(Seq<char>),
    Array(Seq<Seq<char>>),
    Object(Seq<JsonMemberView>),
}

pub struct JsonDocumentView {
    pub compact: Seq<char>,
    pub value: JsonValueView,
}

impl View for JsonMember {
    type V = JsonMemberView;

    open spec fn view(&self) -> JsonMemberView {
        JsonMemberView { key: self.key@, text: self.text@, string: opt_text(self.string) }
    }
}

impl View for JsonValue {
    type V = JsonValueView;

    open spec fn view(&self) -> JsonValueView {
        match self {
            JsonValue::Null => JsonValueView::Null,
            JsonValue::Bool(b) => JsonValueView::Bool(*b),
            JsonValue::Number(n) => JsonValueView::Number(n@),
            JsonValue::Text(s) => JsonValueView::Text(s@),
            JsonValue::Array(items) => JsonValueView::Array(items@.map_values(|s: String| s@)),
            JsonValue::Object(members) => JsonValueView::Object(
                members@.map_values(|m: JsonMember| m@),
            ),
        }
    }
}

impl View for JsonDocument {
    type V = JsonDocumentView;

    open spec fn view(&self) -> JsonDocumentView {
        JsonDocumentView { compact: self.compact@, value: self.value@ }
    }
}

/// The document that `text` parses to as JSON, where it is JSON.
pub uninterp spec fn json_document(text: Seq<char>) -> Option<JsonDocumentView>;

/// `serde_json::from_str` into a `serde_json::Value`, turned variant by
/// variant into a [`JsonDocument`]. Elements and members are written with
/// `Value`'s `to_string`, which gives compact JSON; members come in the order
/// in which `serde_json::Map` iterates. The contract only names the outcome:
/// the same text always gives the same document, or always fails.
#[verifier::external_body]
pub(crate) fn parse_json(text: &str) -> (r: Result<JsonDocument, serde_json::Error>)
    ensures
        match r {
            Ok(doc) => json_document(text@) == Some(doc@),
            Err(_) => json_document(text@) is None,
        },
{
    let parsed: Value = serde_json::from_str(text)?;
    let compact = parsed.to_string();
    let value = match parsed {
        Value::Null => JsonValue::Null,
        Value::Bool(b) => JsonValue::Bool(b),
        Value::Number(n) => JsonValue::Number(n.to_string()),
        Value::String(s) => JsonValue::Text(s),
        Value::Array(items) => JsonValue::Array(items.iter().map(ToString::to_string).collect()),
        Value::Object(map) => JsonValue::Object(map.iter().map(|(k, v)| JsonMember {
            key: k.clone(),
            text: v.to_string(),
            string: v.as_str().map(String::from),
        }).collect()),
    };
    Ok(JsonDocument { compact, value })
}

/// The members of a document that is an object.
pub open spec fn object_members(doc: JsonDocumentView) -> Option<Seq<JsonMemberView>> {
    match doc.value {
        JsonValueView::Object(members) => Some(members),
        _ => None,
    }
}

/// Whether `i` is the first position of `key` among `members`.
pub open spec fn first_member(members: Seq<JsonMemberView>, key: Seq<char>, i: int) -> bool {
    &&& 0 <= i < members.len()
    &&& members[i].key == key
    &&& forall|j: int| 0 <= j < i ==> members[j].key != key
}

/// The JSON text of the member `key` of a document, where the document is an
/// object that has it.
pub open spec fn member_text(doc: JsonDocumentView, key: Seq<char>) -> Option<Seq<char>> {
    match object_members(doc) {
        Some(members) => if exists|i: int| first_member(members, key, i) {
            Some(members[choose|i: int| first_member(members, key, i)].text)
        } else {
            None
        },
        None => None,
    }
}

/// The views of a list of members.
pub open spec fn member_views(members: Seq<JsonMember>) -> Seq<JsonMemberView> {
    members.map_values(|m: JsonMember| m@)
}

proof fn lemma_first_member_unique(members: Seq<JsonMemberView>, key: Seq<char>, i: int, j: int)
    requires
        first_member(members, key, i),
        first_member(members, key, j),
    ensures
        i == j,
{
    if i < j {
        assert(members[i].key != key);
    } else if j < i {
        assert(members[j].key != key);
    }
}

/// The JSON text of the member `key` of a document.
pub fn get_member_text(doc: &JsonDocument, key: &str) -> (r: Option<String>)
    ensures
        match r {
            Some(text) => member_text(doc@, key@) == Some(text@),
            None => member_text(doc@, key@) is None,
        },
{
    match &doc.value {
        JsonValue::Object(members) => {
            let wanted = key.to_owned();
            let ghost views = member_views(members@);
            assert(object_members(doc@) == Some(views)) by {
                assert(doc@.value->Object_0 =~= views);
            }
            let mut i: usize = 0;
            while i < members.len()
                invariant
                    i <= members.len(),
                    wanted@ == key@,
                    views == member_views(members@),
                    object_members(doc@) == Some(views),
                    forall|j: int| 0 <= j < i ==> views[j].key != key@,
                decreases members.len() - i,
            {
                if members[i].key == wanted {
                    proof {
                        assert(views[i as int] == members@[i as int]@);
                        assert(first_member(views, key@, i as int));
                        let c = choose|c: int| first_member(views, key@, c);
                        lemma_first_member_unique(views, key@, i as int, c);
                    }
                    return Some(members[i].text.clone());
                }
                i += 1;
            }
            None
        },
        _ => None,
    }
}

/// A copy of a list of members.
pub fn clone_members(members: &Vec<JsonMember>) -> (r: Vec<JsonMember>)
    ensures
        member_views(r@) == member_views(members@),
{
    let mut out: Vec<JsonMember> = Vec::new();
    let mut i: usize = 0;
    while i < members.len()
        invariant
            i <= members.len(),
            out@.len() == i,
            forall|j: int| 0 <= j < i ==> (#[trigger] out@[j])@ == members@[j]@,
        decreases members.len() - i,
    {
        let m = &members[i];
        let string = match &m.string {
            Some(s) => Some(s.clone()),
            None => None,
        };
        out.push(JsonMember { key: m.key.clone(), text: m.text.clone(), string });
        i += 1;
    }
    assert(member_views(out@) =~= member_views(members@));
    out
}

impl JsonDocument {
    /// Parses `text`; `None` where it is not JSON.
    pub fn parse(text: &str) -> (r: Option<JsonDocument>)
        ensures
            match r {
                Some(doc) => json_document(text@) == Some(doc@),
                None => json_document(text@) is None,
            },
    {
        match parse_json(text) {
            Ok(doc) => Some(doc),
            Err(_) => None,
        }
    }

    /// The members where the document is an object.
    pub fn as_object(&self) -> (r: Option<&Vec<JsonMember>>)
        ensures
            match r {
                Some(members) => self.value == JsonValue::Object(*members),
                None => !(self.value is Object),
            },
    {
        match &self.value {
            JsonValue::Object(members) => Some(members),
            _ => None,
        }
    }
}

} // verus!
