//! JSON documents as plain values, read with `serde_json`.

use crate::first::{first_index, is_first, lemma_first_index};
use crate::text::same_text;
use vstd::prelude::*;

verus! {

#[verifier::external_type_specification]
#[verifier::external_body]
pub struct ExValue(serde_json::Value);

#[verifier::external_type_specification]
#[verifier::external_body]
pub struct ExJsonError(serde_json::Error);

/// A JSON document. A number is kept as the text that `serde_json` prints for it; the
/// members of an object are kept in the order in which `serde_json` walks them, which is
/// the order of their keys and not that of the text.
#[derive(Debug)]
pub enum JsonValue {
    Null,
    Bool(bool),
    Number(String),
    Text(String),
    Array(Vec<JsonValue>),
    Object(Vec<(String, JsonValue)>),
}

/// The mathematical content of a [`JsonValue`].
pub ghost enum JsonTree {
    Null,
    Bool(bool),
    Number(Seq<char>),
    Text(Seq<char>),
    Array(Seq<JsonTree>),
    Object(Seq<(Seq<char>, JsonTree)>),
}

impl View for JsonValue {
    type V = JsonTree;

    open spec fn view(&self) -> JsonTree
        decreases self,
    {
        match self {
            JsonValue::Null => JsonTree::Null,
            JsonValue::Bool(b) => JsonTree::Bool(*b),
            JsonValue::Number(n) => JsonTree::Number(n@),
            JsonValue::Text(t) => JsonTree::Text(t@),
            JsonValue::Array(items) => JsonTree::Array(
                Seq::new(
                    items@.len(),
                    |i: int|
                        if 0 <= i < items@.len() {
                            items@[i]@
                        } else {
                            JsonTree::Null
                        },
                ),
            ),
            JsonValue::Object(members) => JsonTree::Object(
                Seq::new(
                    members@.len(),
                    |i: int|
                        if 0 <= i < members@.len() {
                            (members@[i].0@, members@[i].1@)
                        } else {
                            (Seq::empty(), JsonTree::Null)
                        },
                ),
            ),
        }
    }
}

/// What `serde_json` reads from `bytes`: the document, or `None` where it reports an error.
pub uninterp spec fn json_document(bytes: Seq<u8>) -> Option<JsonTree>;

/// The document that a `serde_json::Value` holds.
pub uninterp spec fn json_contents(value: serde_json::Value) -> JsonTree;

/// Calls `serde_json::from_slice` for a `Value`. The outcome depends on the bytes alone.
#[verifier::external_body]
fn read_value(bytes: &[u8]) -> (outcome: Result<serde_json::Value, serde_json::Error>)
    ensures
        outcome is Ok <==> json_document(bytes@) is Some,
        outcome matches Ok(value) ==> json_document(bytes@) == Some(json_contents(value)),
{
    serde_json::from_slice::<serde_json::Value>(bytes)
}

/// Moves a `serde_json::Value` into a [`JsonValue`], variant by variant.
#[verifier::external_body]
fn lift(value: serde_json::Value) -> (tree: JsonValue)
    ensures
        tree@ == json_contents(value),
{
    match value {
        serde_json::Value::Null => JsonValue::Null,
        serde_json::Value::Bool(b) => JsonValue::Bool(b),
        serde_json::Value::Number(n) => JsonValue::Number(n.to_string()),
        serde_json::Value::String(s) => JsonValue::Text(s),
        serde_json::Value::Array(items) => JsonValue::Array(items.into_iter().map(lift).collect()),
        serde_json::Value::Object(members) => JsonValue::Object(
            members.into_iter().map(|(key, member)| (key, lift(member))).collect(),
        ),
    }
}

/// Reads a JSON document from `bytes`.
pub fn parse_json(bytes: &[u8]) -> (doc: Option<JsonValue>)
    ensures
        doc.deep_view() == json_document(bytes@),
{
    match read_value(bytes) {
        Ok(value) => Some(lift(value)),
        Err(_) => None,
    }
}

/// The condition on an index of `members`: the member there is called `key`.
pub open spec fn keyed(members: Seq<(Seq<char>, JsonTree)>, key: Seq<char>) -> spec_fn(
    int,
) -> bool {
    |i: int| members[i].0 == key
}

impl JsonTree {
    /// The member of an object that is called `key`. Nothing but an object has members.
    pub open spec fn member(self, key: Seq<char>) -> Option<JsonTree> {
        match self {
            JsonTree::Object(members) => match first_index(
                members.len() as int,
                keyed(members, key),
            ) {
                Some(i) => Some(members[i].1),
                None => None,
            },
            _ => None,
        }
    }

    /// The first member of an object, whatever it is called.
    pub open spec fn first_member(self) -> Option<JsonTree> {
        match self {
            JsonTree::Object(members) => if members.len() > 0 {
                Some(members[0].1)
            } else {
                None
            },
            _ => None,
        }
    }

    /// The characters of a string. Nothing but a string has any.
    pub open spec fn text(self) -> Option<Seq<char>> {
        match self {
            JsonTree::Text(text) => Some(text),
            _ => None,
        }
    }
}

impl DeepView for JsonValue {
    type V = JsonTree;

    open spec fn deep_view(&self) -> JsonTree {
        self@
    }
}

impl JsonValue {
    /// The members of an object, one by one, as its content holds them.
    pub proof fn lemma_object_members(&self)
        requires
            self is Object,
        ensures
            self@ is Object,
            self@->Object_0.len() == self->Object_0@.len(),
            forall|j: int|
                0 <= j < self->Object_0@.len() ==> #[trigger] self@->Object_0[j] == (
                    self->Object_0@[j].0@,
                    self->Object_0@[j].1@,
                ),
    {
        reveal_with_fuel(<JsonValue as View>::view, 2);
    }

    /// The member of an object that is called `key`.
    pub fn member(&self, key: &str) -> (found: Option<&JsonValue>)
        ensures
            found.deep_view() == self@.member(key@),
    {
        match self {
            JsonValue::Object(members) => {
                let ghost model = self@->Object_0;
                proof {
                    self.lemma_object_members();
                }
                let mut i: usize = 0;
                while i < members.len()
                    invariant
                        i <= members.len(),
                        self@ == JsonTree::Object(model),
                        model.len() == members@.len(),
                        forall|j: int|
                            0 <= j < model.len() ==> #[trigger] model[j] == (
                                members@[j].0@,
                                members@[j].1@,
                            ),
                        forall|j: int| 0 <= j < i ==> !#[trigger] keyed(model, key@)(j),
                    decreases members.len() - i,
                {
                    if same_text(members[i].0.as_str(), key) {
                        proof {
                            lemma_first_index(model.len() as int, keyed(model, key@));
                            assert(is_first(model.len() as int, keyed(model, key@), i as int));
                        }
                        return Some(&members[i].1);
                    }
                    i += 1;
                }
                proof {
                    lemma_first_index(model.len() as int, keyed(model, key@));
                }
                None
            },
            _ => None,
        }
    }

    /// The first member of an object, whatever it is called.
    pub fn first_member(&self) -> (found: Option<&JsonValue>)
        ensures
            found.deep_view() == self@.first_member(),
    {
        match self {
            JsonValue::Object(members) => {
                proof {
                    self.lemma_object_members();
                }
                if members.len() > 0 {
                    Some(&members[0].1)
                } else {
                    None
                }
            },
            _ => None,
        }
    }

    /// The characters of a string.
    pub fn text(&self) -> (found: Option<&String>)
        ensures
            found.deep_view() == self@.text(),
    {
        match self {
            JsonValue::Text(text) => Some(text),
            _ => None,
        }
    }
}

} // verus!
