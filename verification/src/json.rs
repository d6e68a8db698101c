//! Documents: the JSON values that cross the boundary to the native client.
//!
//! A document is a `serde_json::Value`. Verus does not look inside one, so
//! the contracts speak of a document through its view: whether it is an
//! object, what its members hold, and its compact text.

use crate::ident::{correlation_text, hyphenated_text, parse_correlation, uuid_value};
use vstd::prelude::*;
use vstd::string::*;

verus! {

/// A JSON value of `serde_json`, opaque to the verifier.
#[verifier::external_type_specification]
#[verifier::external_body]
pub struct ExValue(serde_json::Value);

/// Whether a JSON value is an object.
pub uninterp spec fn json_is_object(value: serde_json::Value) -> bool;

/// The members of a JSON object that are not null, by key: `Some` of the
/// text of a member that is a string, `None` for a member of any other kind.
/// Empty where the value is no object.
pub uninterp spec fn json_members(value: serde_json::Value) -> Map<Seq<char>, Option<Seq<char>>>;

/// The compact JSON text of a value.
pub uninterp spec fn json_text(value: serde_json::Value) -> Seq<char>;

/// The view of the value that a text denotes, `None` where the text is no
/// JSON.
pub uninterp spec fn json_parse(text: Seq<char>) -> Option<DocumentView>;

/// The compact text of a JSON object after the string `value` was put under
/// `key` in the object whose compact text is `text`.
pub uninterp spec fn json_text_with(text: Seq<char>, key: Seq<char>, value: Seq<char>) -> Seq<char>;

/// The key of the member that holds a document's discriminator.
pub open spec fn type_key() -> Seq<char> {
    "@type"@
}

/// The key of the member that holds a document's correlation identifier.
pub open spec fn extra_key() -> Seq<char> {
    "@extra"@
}

/// What the discriminator of every update begins with.
pub open spec fn update_prefix() -> Seq<char> {
    "update"@
}

/// What the contracts see of a document.
pub struct DocumentView {
    /// Whether the document is a JSON object.
    pub object: bool,
    /// The members that are not null, by key: `Some` of the text of a string,
    /// `None` for a member of any other kind.
    pub members: Map<Seq<char>, Option<Seq<char>>>,
    /// The compact JSON text of the document.
    pub text: Seq<char>,
}

impl DocumentView {
    /// Whether a member that is not null stands under `key`.
    pub open spec fn has(self, key: Seq<char>) -> bool {
        self.members.contains_key(key)
    }

    /// The string under `key`, `None` where no string stands there.
    pub open spec fn string(self, key: Seq<char>) -> Option<Seq<char>> {
        if self.members.contains_key(key) {
            self.members[key]
        } else {
            None
        }
    }

    /// The view after the string `value` was put under `key`.
    pub open spec fn with_string(self, key: Seq<char>, value: Seq<char>) -> DocumentView {
        DocumentView {
            object: true,
            members: self.members.insert(key, Some(value)),
            text: json_text_with(self.text, key, value),
        }
    }

    /// The discriminator: the string under the discriminator's key.
    pub open spec fn type_tag(self) -> Option<Seq<char>> {
        self.string(type_key())
    }

    /// Whether the document is an update: it has a discriminator, and the
    /// discriminator begins with the update prefix.
    pub open spec fn is_update(self) -> bool {
        match self.type_tag() {
            Some(tag) => update_prefix().is_prefix_of(tag),
            None => false,
        }
    }

    /// The identifier that the document carries: what the string under the
    /// correlation key denotes.
    pub open spec fn correlation(self) -> Option<u128> {
        match self.string(extra_key()) {
            Some(text) => uuid_value(text),
            None => None,
        }
    }

    /// The view after the hyphenated text of `id` was put under the
    /// correlation key.
    pub open spec fn with_correlation(self, id: u128) -> DocumentView {
        self.with_string(extra_key(), hyphenated_text(id))
    }
}

/// The view of a JSON value.
pub open spec fn value_view(value: serde_json::Value) -> DocumentView {
    DocumentView {
        object: json_is_object(value),
        members: json_members(value),
        text: json_text(value),
    }
}

/// Parses with `serde_json::from_str`, and drops the error of a text that
/// it refuses. Claims that success and the view of the value depend on the
/// text alone.
#[verifier::external_body]
fn value_from_text(text: &str) -> (parsed: Option<serde_json::Value>)
    ensures
        match parsed {
            Some(value) => json_parse(text@) == Some(value_view(value)),
            None => json_parse(text@) is None,
        },
{
    match serde_json::from_str::<serde_json::Value>(text) {
        Ok(value) => Some(value),
        Err(_) => None,
    }
}

/// Asks `serde_json::Value::is_object`.
#[verifier::external_body]
fn value_is_object(value: &serde_json::Value) -> (object: bool)
    ensures
        object == json_is_object(*value),
{
    value.is_object()
}

/// What stands under a key of a JSON value.
pub enum Member<'a> {
    /// Nothing, or null.
    Absent,
    /// A string.
    Text(&'a str),
    /// A member of any other kind.
    Other,
}

/// Indexes a `serde_json::Value` by a key and tells the variants of what
/// stands there apart. The index gives null where the value is no object or
/// has no such key.
#[verifier::external_body]
fn value_member<'a>(value: &'a serde_json::Value, key: &str) -> (member: Member<'a>)
    ensures
        match member {
            Member::Absent => !json_members(*value).contains_key(key@),
            Member::Text(text) => json_members(*value).contains_key(key@) && json_members(
                *value,
            )[key@] == Some(text@),
            Member::Other => json_members(*value).contains_key(key@) && json_members(
                *value,
            )[key@] is None,
        },
{
    match &value[key] {
        serde_json::Value::Null => Member::Absent,
        serde_json::Value::String(text) => Member::Text(text),
        _ => Member::Other,
    }
}

/// Assigns a string through `serde_json::Value`'s index by a key, which
/// inserts the member or replaces it. The index panics on a value that is
/// neither an object nor null: the contract admits objects only.
#[verifier::external_body]
fn value_set_string(value: &mut serde_json::Value, key: &str, text: String)
    requires
        json_is_object(*old(value)),
    ensures
        json_is_object(*final(value)),
        json_members(*final(value)) == json_members(*old(value)).insert(key@, Some(text@)),
        json_text(*final(value)) == json_text_with(json_text(*old(value)), key@, text@),
{
    value[key] = serde_json::Value::String(text);
}

/// Renders with `serde_json::Value`'s `Display`, which gives the compact
/// text.
#[verifier::external_body]
fn value_text(value: &serde_json::Value) -> (text: String)
    ensures
        text@ == json_text(*value),
{
    value.to_string()
}

/// Copies with `serde_json::Value::clone`.
#[verifier::external_body]
fn value_clone(value: &serde_json::Value) -> (copy: serde_json::Value)
    ensures
        copy == *value,
{
    value.clone()
}

/// Whether `text` begins with `prefix`, character by character.
pub fn starts_with(text: &str, prefix: &str) -> (begins: bool)
    ensures
        begins == prefix@.is_prefix_of(text@),
{
    let wanted = prefix.unicode_len();
    let given = text.unicode_len();
    if given < wanted {
        return false;
    }
    let mut at: usize = 0;
    while at < wanted
        invariant
            at <= wanted,
            wanted == prefix@.len(),
            given == text@.len(),
            wanted <= given,
            forall|j: int| 0 <= j < at ==> text@[j] == prefix@[j],
        decreases wanted - at,
    {
        if text.get_char(at) != prefix.get_char(at) {
            return false;
        }
        at += 1;
    }
    assert(prefix@ =~= text@.subrange(0, prefix@.len() as int));
    true
}

/// A JSON document.
#[derive(Debug)]
pub struct Document {
    value: serde_json::Value,
}

impl View for Document {
    type V = DocumentView;

    closed spec fn view(&self) -> DocumentView {
        value_view(self.value)
    }
}

impl Clone for Document {
    fn clone(&self) -> (copy: Self)
        ensures
            copy@ == self@,
    {
        Document { value: value_clone(&self.value) }
    }
}

impl Document {
    /// The document that a text denotes; `None` where the text is no JSON.
    pub fn parse(text: &str) -> (parsed: Option<Document>)
        ensures
            parsed.is_some() <==> json_parse(text@).is_some(),
            parsed matches Some(document) ==> json_parse(text@) == Some(document@),
    {
        match value_from_text(text) {
            Some(value) => Some(Document { value }),
            None => None,
        }
    }

    /// Wraps a value of `serde_json`.
    pub fn from_value(value: serde_json::Value) -> (document: Document)
        ensures
            document@ == value_view(value),
    {
        Document { value }
    }

    /// Hands out the value of `serde_json`.
    pub fn into_value(self) -> (value: serde_json::Value)
        ensures
            value_view(value) == self@,
    {
        self.value
    }

    /// Whether the document is a JSON object.
    pub fn is_object(&self) -> (object: bool)
        ensures
            object == self@.object,
    {
        value_is_object(&self.value)
    }

    /// Whether a member that is not null stands under `key`.
    pub fn has(&self, key: &str) -> (present: bool)
        ensures
            present == self@.has(key@),
    {
        match value_member(&self.value, key) {
            Member::Absent => false,
            _ => true,
        }
    }

    /// The string under `key`; `None` where no string stands there.
    pub fn string(&self, key: &str) -> (found: Option<&str>)
        ensures
            match found {
                Some(text) => self@.string(key@) == Some(text@),
                None => self@.string(key@) is None,
            },
    {
        match value_member(&self.value, key) {
            Member::Text(text) => Some(text),
            _ => None,
        }
    }

    /// Puts the string `value` under `key`, in place of what stood there.
    /// Only an object takes a member: any other document stays as it is, and
    /// the result says so.
    pub fn set_string(&mut self, key: &str, value: String) -> (done: bool)
        ensures
            done == old(self)@.object,
            done ==> final(self)@ == old(self)@.with_string(key@, value@),
            !done ==> final(self)@ == old(self)@,
    {
        if value_is_object(&self.value) {
            value_set_string(&mut self.value, key, value);
            true
        } else {
            false
        }
    }

    /// The compact JSON text.
    pub fn to_text(&self) -> (text: String)
        ensures
            text@ == self@.text,
    {
        value_text(&self.value)
    }

    /// The discriminator; `None` where the document has none.
    pub fn type_tag(&self) -> (tag: Option<&str>)
        ensures
            match tag {
                Some(text) => self@.type_tag() == Some(text@),
                None => self@.type_tag() is None,
            },
    {
        self.string("@type")
    }

    /// Whether the document is an update.
    pub fn is_update(&self) -> (update: bool)
        ensures
            update == self@.is_update(),
    {
        match self.string("@type") {
            Some(tag) => starts_with(tag, "update"),
            None => false,
        }
    }

    /// The identifier that the document carries; `None` where it has no
    /// string under the correlation key, or one that denotes no identifier.
    pub fn correlation(&self) -> (id: Option<u128>)
        ensures
            id == self@.correlation(),
    {
        match self.string("@extra") {
            Some(text) => parse_correlation(text),
            None => None,
        }
    }

    /// Puts `tag` under the discriminator's key, in place of what stood
    /// there. Only an object takes the member: any other document stays as
    /// it is, and the result says so.
    pub fn set_type_tag(&mut self, tag: &str) -> (done: bool)
        ensures
            done == old(self)@.object,
            done ==> final(self)@ == old(self)@.with_string(type_key(), tag@),
            done ==> final(self)@.type_tag() == Some(tag@),
            !done ==> final(self)@ == old(self)@,
    {
        self.set_string("@type", tag.to_owned())
    }

    /// Puts the hyphenated text of `id` under the correlation key, in place
    /// of what stood there. Afterwards the document carries `id`. Only an
    /// object takes the member: any other document stays as it is, and the
    /// result says so.
    pub fn set_correlation(&mut self, id: u128) -> (done: bool)
        ensures
            done == old(self)@.object,
            done ==> final(self)@ == old(self)@.with_correlation(id),
            done ==> final(self)@.correlation() == Some(id),
            !done ==> final(self)@ == old(self)@,
    {
        self.set_string("@extra", correlation_text(id))
    }
}

} // verus!
