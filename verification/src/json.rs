use vstd::prelude::*;

verus! {

/// A JSON value, as far as this library reads one. Of a number only its
/// value as an unsigned 64-bit integer is kept, where it has one.
pub enum Json {
    Null,
    Bool(bool),
    Number(Option<u64>),
    Text(String),
    Array(Vec<Json>),
    Object(Vec<(String, Json)>),
}

/// The first member named `key` among `members`.
pub open spec fn find_member(members: Seq<(String, Json)>, key: Seq<char>) -> Option<Json>
    decreases members.len(),
{
    if members.len() == 0 {
        None
    } else if members[0].0@ == key {
        Some(members[0].1)
    } else {
        find_member(members.skip(1), key)
    }
}

/// The first member named `key` among `members`.
pub fn find<'a>(members: &'a Vec<(String, Json)>, key: &str) -> (found: Option<&'a Json>)
    ensures
        match found {
            Some(value) => find_member(members@, key@) == Some(*value),
            None => find_member(members@, key@) is None,
        },
{
    let wanted = String::from_str(key);
    let mut i: usize = 0;
    assert(members@.skip(0) =~= members@);
    while i < members.len()
        invariant
            i <= members.len(),
            wanted@ == key@,
            find_member(members@, key@) == find_member(members@.skip(i as int), key@),
        decreases members.len() - i,
    {
        assert(members@.skip(i as int)[0] == members@[i as int]);
        if members[i].0 == wanted {
            return Some(&members[i].1);
        }
        assert(members@.skip(i as int).skip(1) =~= members@.skip(i + 1));
        i += 1;
    }
    None
}

impl Json {
    /// The member named `key` of an object; nothing for any other value.
    pub open spec fn member(self, key: Seq<char>) -> Option<Json> {
        match self {
            Json::Object(members) => find_member(members@, key),
            _ => None,
        }
    }

    /// The text of a string value.
    pub open spec fn text(self) -> Option<Seq<char>> {
        match self {
            Json::Text(s) => Some(s@),
            _ => None,
        }
    }

    /// The value of a number that is an unsigned 64-bit integer.
    pub open spec fn unsigned(self) -> Option<u64> {
        match self {
            Json::Number(n) => n,
            _ => None,
        }
    }

    pub fn get(&self, key: &str) -> (found: Option<&Json>)
        ensures
            match found {
                Some(value) => self.member(key@) == Some(*value),
                None => self.member(key@) is None,
            },
    {
        match self {
            Json::Object(members) => find(members, key),
            _ => None,
        }
    }

    pub fn as_text(&self) -> (found: Option<&String>)
        ensures
            match found {
                Some(s) => self.text() == Some(s@),
                None => self.text() is None,
            },
    {
        match self {
            Json::Text(s) => Some(s),
            _ => None,
        }
    }

    pub fn as_u64(&self) -> (found: Option<u64>)
        ensures
            found == self.unsigned(),
    {
        match self {
            Json::Number(n) => *n,
            _ => None,
        }
    }
}

/// `serde_json::Value`, a parsed document, carried from the parser to the
/// copy below without a look inside.
#[verifier::external_type_specification]
#[verifier::external_body]
pub struct ExValue(serde_json::Value);

/// What a parsed document holds.
pub uninterp spec fn json_content(value: serde_json::Value) -> Json;

/// The document that a text is in JSON, where it is one.
pub uninterp spec fn json_document(text: Seq<char>) -> Option<Json>;

/// `serde_json::from_str` for a `Value`: the parsed document, or nothing
/// where the text is not JSON. The outcome depends on the text alone.
#[verifier::external_body]
fn parse_value(text: &str) -> (parsed: Option<serde_json::Value>)
    ensures
        match parsed {
            Some(value) => json_document(text@) == Some(json_content(value)),
            None => json_document(text@) is None,
        },
{
    match serde_json::from_str::<serde_json::Value>(text) {
        Ok(value) => Some(value),
        Err(_) => None,
    }
}

/// Copies a `serde_json::Value` into a `Json`, variant by variant; of a
/// number it keeps what `Number::as_u64` returns.
#[verifier::external_body]
fn copy_value(value: &serde_json::Value) -> (json: Json)
    ensures
        json == json_content(*value),
{
    match value {
        serde_json::Value::Null => Json::Null,
        serde_json::Value::Bool(b) => Json::Bool(*b),
        serde_json::Value::Number(n) => Json::Number(n.as_u64()),
        serde_json::Value::String(s) => Json::Text(s.clone()),
        serde_json::Value::Array(items) => Json::Array(items.iter().map(copy_value).collect()),
        serde_json::Value::Object(members) => Json::Object(
            members.iter().map(|(k, v)| (k.clone(), copy_value(v))).collect(),
        ),
    }
}

/// Parses a JSON document.
pub fn parse(text: &str) -> (parsed: Option<Json>)
    ensures
        parsed == json_document(text@),
{
    match parse_value(text) {
        Some(value) => Some(copy_value(&value)),
        None => None,
    }
}

/// The JSON string literal for a text, quotes included.
pub uninterp spec fn json_quoted(text: Seq<char>) -> Seq<char>;

/// `serde_json::to_string` on a string slice: the text as a JSON string
/// literal. Writing a string into memory cannot fail.
#[verifier::external_body]
fn quote_text(text: &str) -> (quoted: String)
    ensures
        quoted@ == json_quoted(text@),
{
    match serde_json::to_string(text) {
        Ok(quoted) => quoted,
        Err(_) => String::new(),
    }
}

/// Appends `text` as a JSON string literal to `out`.
pub fn push_quoted(out: &mut Vec<char>, text: &str)
    ensures
        final(out)@ == old(out)@ + json_quoted(text@),
{
    let quoted = quote_text(text);
    crate::text::push_str(out, quoted.as_str());
}

} // verus!
