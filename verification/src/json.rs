//! JSON documents as plain values. Reading and writing JSON text is the work
//! of `serde_json`; finding members and building documents is verified here.

use vstd::prelude::*;
use vstd::string::StringExecFns;

verus! {

/// A JSON document.
#[derive(Debug, PartialEq, Eq)]
pub enum Json {
    Null,
    Bool(bool),
    /// A number that is an integer of 64 bits.
    Int(i64),
    /// Any other number, by its JSON text.
    Number(String),
    Str(String),
    Array(Vec<Json>),
    /// The members of an object, in the order of the document.
    Object(Vec<(String, Json)>),
}

/// The mathematical value of a JSON document.
pub enum JsonValue {
    Null,
    Bool(bool),
    Int(int),
    Number(Seq<char>),
    Str(Seq<char>),
    Array(Seq<JsonValue>),
    Object(Seq<(Seq<char>, JsonValue)>),
}

impl Json {
    /// The mathematical value of this document.
    pub open spec fn value(self) -> JsonValue
        decreases self,
    {
        match self {
            Json::Null => JsonValue::Null,
            Json::Bool(b) => JsonValue::Bool(b),
            Json::Int(n) => JsonValue::Int(n as int),
            Json::Number(text) => JsonValue::Number(text@),
            Json::Str(text) => JsonValue::Str(text@),
            Json::Array(items) => JsonValue::Array(
                Seq::new(
                    items@.len(),
                    |i: int|
                        if 0 <= i < items@.len() {
                            items@[i].value()
                        } else {
                            JsonValue::Null
                        },
                ),
            ),
            Json::Object(members) => JsonValue::Object(
                Seq::new(
                    members@.len(),
                    |i: int|
                        if 0 <= i < members@.len() {
                            (members@[i].0@, members@[i].1.value())
                        } else {
                            (Seq::empty(), JsonValue::Null)
                        },
                ),
            ),
        }
    }
}

impl View for Json {
    type V = JsonValue;

    open spec fn view(&self) -> JsonValue {
        self.value()
    }
}

/// The first member under `key` among `members`, if there is one.
pub open spec fn find_member(members: Seq<(String, Json)>, key: Seq<char>) -> Option<Json>
    decreases members.len(),
{
    if members.len() == 0 {
        None
    } else if members[0].0@ == key {
        Some(members[0].1)
    } else {
        find_member(members.skip(1), key)
    }
}

impl Json {
    /// The member of this object under `key`; none if this is no object or
    /// has no such member.
    pub open spec fn spec_member(self, key: Seq<char>) -> Option<Json> {
        match self {
            Json::Object(members) => find_member(members@, key),
            _ => None,
        }
    }

    /// The text of this document if it is a string.
    pub open spec fn spec_text(self) -> Option<String> {
        match self {
            Json::Str(text) => Some(text),
            _ => None,
        }
    }

    /// The integer of this document if it is one.
    pub open spec fn spec_int(self) -> Option<i64> {
        match self {
            Json::Int(n) => Some(n),
            _ => None,
        }
    }

    /// The items of this document if it is an array.
    pub open spec fn spec_items(self) -> Option<Vec<Json>> {
        match self {
            Json::Array(items) => Some(items),
            _ => None,
        }
    }

    /// The text of the member under `key` if that member is a string.
    pub open spec fn spec_text_at(self, key: Seq<char>) -> Option<String> {
        match self.spec_member(key) {
            Some(member) => member.spec_text(),
            None => None,
        }
    }

    /// The text of the member under `key`: absent where there is no such
    /// member or it is null, refused where it is anything but a string.
    pub open spec fn spec_optional_text_at(self, key: Seq<char>) -> Option<Option<String>> {
        match self.spec_member(key) {
            None => Some(None),
            Some(Json::Null) => Some(None),
            Some(Json::Str(text)) => Some(Some(text)),
            Some(_) => None,
        }
    }

    /// The integer of the member under `key` if that member is one.
    pub open spec fn spec_int_at(self, key: Seq<char>) -> Option<i64> {
        match self.spec_member(key) {
            Some(member) => member.spec_int(),
            None => None,
        }
    }

    pub fn member(&self, key: &str) -> (r: Option<&Json>)
        ensures
            match r {
                Some(found) => self.spec_member(key@) == Some(*found),
                None => self.spec_member(key@) is None,
            },
    {
        match self {
            Json::Object(members) => {
                let wanted = String::from_str(key);
                let mut i: usize = 0;
                assert(members@.skip(0) =~= members@);
                while i < members.len()
                    invariant
                        i <= members@.len(),
                        wanted@ == key@,
                        self.spec_member(key@) == find_member(members@, key@),
                        find_member(members@, key@) == find_member(
                            members@.skip(i as int),
                            key@,
                        ),
                    decreases members@.len() - i,
                {
                    assert(members@.skip(i as int).len() > 0);
                    assert(members@.skip(i as int)[0] == members@[i as int]);
                    assert(members@.skip(i as int).skip(1) =~= members@.skip(i + 1));
                    if members[i].0 == wanted {
                        assert(find_member(members@.skip(i as int), key@) == Some(
                            members@[i as int].1,
                        ));
                        return Some(&members[i].1);
                    }
                    i = i + 1;
                }
                None
            },
            _ => None,
        }
    }

    pub fn as_text(&self) -> (r: Option<&String>)
        ensures
            match r {
                Some(text) => self.spec_text() == Some(*text),
                None => self.spec_text() is None,
            },
    {
        match self {
            Json::Str(text) => Some(text),
            _ => None,
        }
    }

    pub fn as_int(&self) -> (r: Option<i64>)
        ensures
            r == self.spec_int(),
    {
        match self {
            Json::Int(n) => Some(*n),
            _ => None,
        }
    }

    pub fn as_items(&self) -> (r: Option<&Vec<Json>>)
        ensures
            match r {
                Some(items) => self.spec_items() == Some(*items),
                None => self.spec_items() is None,
            },
    {
        match self {
            Json::Array(items) => Some(items),
            _ => None,
        }
    }

    /// A copy of the text of a required string member.
    pub fn text_at(&self, key: &str) -> (r: Option<String>)
        ensures
            r == self.spec_text_at(key@),
    {
        match self.member(key) {
            Some(found) => match found.as_text() {
                Some(text) => Some(text.clone()),
                None => None,
            },
            None => None,
        }
    }

    /// A copy of the text of a string member that may be left out.
    pub fn optional_text_at(&self, key: &str) -> (r: Option<Option<String>>)
        ensures
            r == self.spec_optional_text_at(key@),
    {
        match self.member(key) {
            None => Some(None),
            Some(Json::Null) => Some(None),
            Some(Json::Str(text)) => Some(Some(text.clone())),
            Some(_) => None,
        }
    }

    /// The integer of a required integer member.
    pub fn int_at(&self, key: &str) -> (r: Option<i64>)
        ensures
            r == self.spec_int_at(key@),
    {
        match self.member(key) {
            Some(found) => found.as_int(),
            None => None,
        }
    }
}

/// An owned text with the characters of `s`.
pub fn text(s: &str) -> (r: String)
    ensures
        r@ == s@,
{
    String::from_str(s)
}

/// A string document with the characters of `s`.
pub fn json_str(s: &str) -> (r: Json)
    ensures
        r@ == JsonValue::Str(s@),
{
    Json::Str(String::from_str(s))
}

/// An integer document.
pub fn json_int(n: i64) -> (r: Json)
    ensures
        r == Json::Int(n),
        r@ == JsonValue::Int(n as int),
{
    Json::Int(n)
}

/// The null document.
pub fn json_null() -> (r: Json)
    ensures
        r == Json::Null,
        r@ == JsonValue::Null,
{
    Json::Null
}

/// The values of the members of an object, in their order.
pub open spec fn members_view(members: Seq<(String, Json)>) -> Seq<(Seq<char>, JsonValue)> {
    Seq::new(members.len(), |i: int| (members[i].0@, members[i].1@))
}

/// Adds the member `key` with `value` behind those already there.
pub fn push_member(members: &mut Vec<(String, Json)>, key: &str, value: Json)
    ensures
        final(members)@ == old(members)@.push(final(members)@.last()),
        final(members)@.last().0@ == key@,
        final(members)@.last().1 == value,
        members_view(final(members)@) == members_view(old(members)@).push((key@, value@)),
{
    members.push((String::from_str(key), value));
    assert(members_view(members@) =~= members_view(old(members)@).push((key@, value@)));
}

/// An object document with the given members.
pub fn json_object(members: Vec<(String, Json)>) -> (r: Json)
    ensures
        r == Json::Object(members),
        r@ == JsonValue::Object(members_view(members@)),
{
    let doc = Json::Object(members);
    assert(doc@->Object_0 =~= members_view(members@)) by {
        reveal_with_fuel(Json::value, 2);
    }
    doc
}

#[verifier::external_type_specification]
#[verifier::external_body]
pub struct ExValue(serde_json::Value);

/// The document that `serde_json` reads from `text`; none where it refuses
/// the text.
pub uninterp spec fn json_document(text: Seq<u8>) -> Option<Json>;

/// What a `serde_json::Value` holds, one of our variants for each of its own.
pub uninterp spec fn value_tree(value: serde_json::Value) -> Json;

/// The JSON text that `serde_json` writes for a `serde_json::Value`; none
/// where it fails.
pub uninterp spec fn value_text(value: serde_json::Value) -> Option<Seq<char>>;

/// The JSON text that `serde_json` writes for a document; none where the
/// document holds a number whose text `serde_json` does not take, or where
/// writing fails.
pub uninterp spec fn json_text(doc: JsonValue) -> Option<Seq<char>>;

/// `serde_json::from_slice` at `serde_json::Value`. Claims only that the
/// outcome is a function of the bytes: the value read holds
/// `json_document` of them, and an error means there is none.
#[verifier::external_body]
fn value_from_slice(text: &[u8]) -> (r: Option<serde_json::Value>)
    ensures
        match r {
            Some(value) => json_document(text@) == Some(value_tree(value)),
            None => json_document(text@) is None,
        },
{
    serde_json::from_slice::<serde_json::Value>(text).ok()
}

/// Moves what a `serde_json::Value` holds into a `Json`, variant by variant;
/// a number goes through `Number::as_i64`, and one that is no `i64` is kept
/// by the text that `Number` displays. Claims that the result is the
/// `value_tree` of the value.
#[verifier::external_body]
fn json_from_value(value: serde_json::Value) -> (r: Json)
    ensures
        r == value_tree(value),
{
    match value {
        serde_json::Value::Null => Json::Null,
        serde_json::Value::Bool(b) => Json::Bool(b),
        serde_json::Value::Number(n) => match n.as_i64() {
            Some(i) => Json::Int(i),
            None => Json::Number(n.to_string()),
        },
        serde_json::Value::String(s) => Json::Str(s),
        serde_json::Value::Array(a) => Json::Array(a.into_iter().map(json_from_value).collect()),
        serde_json::Value::Object(o) => Json::Object(
            o.into_iter().map(|(k, v)| (k, json_from_value(v))).collect(),
        ),
    }
}

/// Builds the `serde_json::Value` of a document, variant by variant; the
/// text of a `Number` is read back by `serde_json::from_str`. Claims that
/// what `serde_json` writes for the value built is `json_text` of the
/// document, and that no value is built only where `json_text` is none.
#[verifier::external_body]
fn value_from_json(doc: &Json) -> (r: Option<serde_json::Value>)
    ensures
        match r {
            Some(value) => json_text(doc@) == value_text(value),
            None => json_text(doc@) is None,
        },
{
    Some(match doc {
        Json::Null => serde_json::Value::Null,
        Json::Bool(b) => serde_json::Value::Bool(*b),
        Json::Int(i) => serde_json::Value::from(*i),
        Json::Number(t) => serde_json::Value::Number(serde_json::from_str(t).ok()?),
        Json::Str(s) => serde_json::Value::String(s.clone()),
        Json::Array(a) => a.iter().map(value_from_json).collect::<Option<_>>()?,
        Json::Object(o) => o.iter().map(|m| Some((m.0.clone(), value_from_json(&m.1)?)))
            .collect::<Option<_>>()?,
    })
}

/// `serde_json::to_string` at `serde_json::Value`. Claims that the text
/// written is `value_text` of the value, and that an error means there is
/// none.
#[verifier::external_body]
fn value_to_string(value: &serde_json::Value) -> (r: Option<String>)
    ensures
        match r {
            Some(written) => value_text(*value) == Some(written@),
            None => value_text(*value) is None,
        },
{
    serde_json::to_string(value).ok()
}

/// Reads a JSON document from its text.
pub fn parse_json(text: &[u8]) -> (r: Option<Json>)
    ensures
        r == json_document(text@),
{
    match value_from_slice(text) {
        Some(value) => Some(json_from_value(value)),
        None => None,
    }
}

/// Writes a JSON document as text.
pub fn render_json(doc: &Json) -> (r: Option<String>)
    ensures
        match r {
            Some(written) => json_text(doc@) == Some(written@),
            None => json_text(doc@) is None,
        },
{
    match value_from_json(doc) {
        Some(value) => value_to_string(&value),
        None => None,
    }
}

proof fn lemma_find_member_at(members: Seq<(String, Json)>, key: Seq<char>, i: int)
    requires
        0 <= i < members.len(),
        members[i].0@ == key,
        forall|j: int| 0 <= j < i ==> members[j].0@ != key,
    ensures
        find_member(members, key) == Some(members[i].1),
    decreases i,
{
    if i > 0 {
        let rest = members.skip(1);
        assert(rest[i - 1] == members[i]);
        assert forall|j: int| 0 <= j < i - 1 implies rest[j].0@ != key by {
            assert(rest[j] == members[j + 1]);
        }
        lemma_find_member_at(rest, key, i - 1);
    }
}

proof fn lemma_find_member_absent(members: Seq<(String, Json)>, key: Seq<char>)
    requires
        forall|j: int| 0 <= j < members.len() ==> members[j].0@ != key,
    ensures
        find_member(members, key) is None,
    decreases members.len(),
{
    if members.len() > 0 {
        let rest = members.skip(1);
        assert forall|j: int| 0 <= j < rest.len() implies rest[j].0@ != key by {
            assert(rest[j] == members[j + 1]);
        }
        lemma_find_member_absent(rest, key);
    }
}

/// In an object whose `i`-th member is the first under `key`, looking up
/// `key` finds a document with the value of that member.
pub proof fn lemma_member_at(doc: Json, key: Seq<char>, i: int)
    requires
        doc@ is Object,
        0 <= i < doc@->Object_0.len(),
        doc@->Object_0[i].0 == key,
        forall|j: int| 0 <= j < i ==> doc@->Object_0[j].0 != key,
    ensures
        doc.spec_member(key) matches Some(found) && found@ == doc@->Object_0[i].1,
{
    reveal_with_fuel(Json::value, 2);
    match doc {
        Json::Object(members) => {
            assert(doc@->Object_0.len() == members@.len());
            assert forall|j: int| 0 <= j < members@.len() implies doc@->Object_0[j] == (
                members@[j].0@,
                members@[j].1@,
            ) by {}
            assert(doc@->Object_0[i].0 == members@[i].0@);
            assert forall|j: int| 0 <= j < i implies members@[j].0@ != key by {
                assert(doc@->Object_0[j].0 == members@[j].0@);
            }
            lemma_find_member_at(members@, key, i);
        },
        _ => {},
    }
}

/// In an object none of whose members is under `key`, looking up `key`
/// finds nothing.
pub proof fn lemma_member_absent(doc: Json, key: Seq<char>)
    requires
        doc@ is Object,
        forall|j: int| 0 <= j < doc@->Object_0.len() ==> doc@->Object_0[j].0 != key,
    ensures
        doc.spec_member(key) is None,
{
    reveal_with_fuel(Json::value, 2);
    match doc {
        Json::Object(members) => {
            assert(doc@->Object_0.len() == members@.len());
            assert forall|j: int| 0 <= j < members@.len() implies members@[j].0@ != key by {
                assert(doc@->Object_0[j].0 == members@[j].0@);
            }
            lemma_find_member_absent(members@, key);
        },
        _ => {},
    }
}

/// A document whose value is a string is a string with those characters.
pub proof fn lemma_text_value(doc: Json)
    requires
        doc@ is Str,
    ensures
        doc.spec_text() matches Some(found) && found@ == doc@->Str_0,
{
    reveal_with_fuel(Json::value, 2);
}

/// A document whose value is an integer is that integer.
pub proof fn lemma_int_value(doc: Json)
    requires
        doc@ is Int,
    ensures
        doc.spec_int() matches Some(found) && found == doc@->Int_0,
{
    reveal_with_fuel(Json::value, 2);
}

/// A document whose value is null is null.
pub proof fn lemma_null_value(doc: Json)
    requires
        doc@ is Null,
    ensures
        doc == Json::Null,
{
    reveal_with_fuel(Json::value, 2);
}

/// In an object whose `i`-th member is the first under `key` and a string,
/// the text under `key` has the characters of that string.
pub proof fn lemma_text_at(doc: Json, key: Seq<char>, i: int)
    requires
        doc@ is Object,
        0 <= i < doc@->Object_0.len(),
        doc@->Object_0[i].0 == key,
        forall|j: int| 0 <= j < i ==> doc@->Object_0[j].0 != key,
        doc@->Object_0[i].1 is Str,
    ensures
        doc.spec_text_at(key) matches Some(found) && found@ == doc@->Object_0[i].1->Str_0,
        doc.spec_optional_text_at(key) matches Some(Some(found)) && found@
            == doc@->Object_0[i].1->Str_0,
{
    lemma_member_at(doc, key, i);
    lemma_text_value(doc.spec_member(key)->Some_0);
}

/// In an object whose `i`-th member is the first under `key` and null, the
/// optional text under `key` is absent.
pub proof fn lemma_absent_text_at(doc: Json, key: Seq<char>, i: int)
    requires
        doc@ is Object,
        0 <= i < doc@->Object_0.len(),
        doc@->Object_0[i].0 == key,
        forall|j: int| 0 <= j < i ==> doc@->Object_0[j].0 != key,
        doc@->Object_0[i].1 is Null,
    ensures
        doc.spec_optional_text_at(key) == Some(None::<String>),
{
    lemma_member_at(doc, key, i);
    lemma_null_value(doc.spec_member(key)->Some_0);
}

/// In an object whose `i`-th member is the first under `key` and an
/// integer, the integer under `key` is that integer.
pub proof fn lemma_int_at(doc: Json, key: Seq<char>, i: int)
    requires
        doc@ is Object,
        0 <= i < doc@->Object_0.len(),
        doc@->Object_0[i].0 == key,
        forall|j: int| 0 <= j < i ==> doc@->Object_0[j].0 != key,
        doc@->Object_0[i].1 is Int,
    ensures
        doc.spec_int_at(key) matches Some(found) && found == doc@->Object_0[i].1->Int_0,
{
    lemma_member_at(doc, key, i);
    lemma_int_value(doc.spec_member(key)->Some_0);
}

} // verus!
