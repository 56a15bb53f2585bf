//! JSON documents as plain trees.
//!
//! Text is read and string literals are written by `serde_json`; everything
//! between the text and the messages of this crate works on [`Json`].

use vstd::prelude::*;
use crate::ident::lower_digits;

verus! {

/// A JSON document.
#[derive(Debug, PartialEq, Eq)]
pub enum Json {
    Null,
    Bool(bool),
    /// A number. No message carries one, so its value is not kept.
    Number,
    Text(String),
    Array(Vec<Json>),
    /// The members of an object, in the order in which the reader hands them
    /// out.
    Object(Vec<(String, Json)>),
}

/// `serde_json::Value`, of which the verifier sees nothing: a value of it is
/// only carried from the reader to [`lift`].
#[verifier::external_type_specification]
#[verifier::external_body]
pub struct ExValue(serde_json::Value);

/// What `serde_json::from_slice` makes of `bytes`: the document, or the text
/// of its complaint.
pub uninterp spec fn parsed_json(bytes: Seq<u8>) -> Result<Json, Seq<char>>;

/// The tree that a `serde_json::Value` holds.
pub uninterp spec fn json_value(value: serde_json::Value) -> Json;

/// `serde_json::from_slice` at the type `serde_json::Value`, with the error
/// turned into its text. The outcome depends on the bytes alone.
#[verifier::external_body]
fn read_value(bytes: &[u8]) -> (r: Result<serde_json::Value, String>)
    ensures
        match r {
            Ok(value) => parsed_json(bytes@) == Ok::<Json, Seq<char>>(json_value(value)),
            Err(text) => parsed_json(bytes@) == Err::<Json, Seq<char>>(text@),
        },
{
    serde_json::from_slice::<serde_json::Value>(bytes).map_err(|e| e.to_string())
}

/// Copies a `serde_json::Value` into a [`Json`], variant by variant. The
/// members of an object come in the order of `serde_json::Map::iter`.
#[verifier::external_body]
fn lift(value: &serde_json::Value) -> (r: Json)
    ensures
        r == json_value(*value),
{
    match value {
        serde_json::Value::Null => Json::Null,
        serde_json::Value::Bool(b) => Json::Bool(*b),
        serde_json::Value::Number(_) => Json::Number,
        serde_json::Value::String(s) => Json::Text(s.clone()),
        serde_json::Value::Array(items) => Json::Array(items.iter().map(lift).collect()),
        serde_json::Value::Object(members) => Json::Object(
            members.iter().map(|(k, v)| (k.clone(), lift(v))).collect(),
        ),
    }
}

/// The escape that stands for `c` inside a JSON string literal: a backslash
/// form for the quote, the backslash and the control characters, and the
/// character itself otherwise.
pub open spec fn escaped_char(c: char) -> Seq<char> {
    if c == '"' {
        seq!['\\', '"']
    } else if c == '\\' {
        seq!['\\', '\\']
    } else if c == '\u{8}' {
        seq!['\\', 'b']
    } else if c == '\t' {
        seq!['\\', 't']
    } else if c == '\n' {
        seq!['\\', 'n']
    } else if c == '\u{c}' {
        seq!['\\', 'f']
    } else if c == '\r' {
        seq!['\\', 'r']
    } else if (c as u32) < 0x20 {
        seq![
            '\\',
            'u',
            '0',
            '0',
            lower_digits()[(c as u32 / 16) as int],
            lower_digits()[(c as u32 % 16) as int],
        ]
    } else {
        seq![c]
    }
}

/// `text` with every character replaced by its escape.
pub open spec fn escaped(text: Seq<char>) -> Seq<char>
    decreases text.len(),
{
    if text.len() == 0 {
        Seq::empty()
    } else {
        escaped(text.drop_last()) + escaped_char(text.last())
    }
}

/// The JSON string literal for `text`: its escaped form between two quotes.
pub open spec fn quoted(text: Seq<char>) -> Seq<char> {
    seq!['"'] + escaped(text) + seq!['"']
}

/// `serde_json::to_string` on a string slice, which writes the slice as a
/// JSON string literal and cannot fail.
#[verifier::external_body]
pub(crate) fn quote(text: &str) -> (r: String)
    ensures
        r@ == quoted(text@),
{
    match serde_json::to_string(text) {
        Ok(literal) => literal,
        Err(_) => String::new(),
    }
}

/// The value of the member called `name`, if there is one. Where a name
/// occurs twice the later member counts.
pub open spec fn member_of(members: Seq<(String, Json)>, name: Seq<char>) -> Option<Json>
    decreases members.len(),
{
    if members.len() == 0 {
        None
    } else if members.last().0@ == name {
        Some(members.last().1)
    } else {
        member_of(members.drop_last(), name)
    }
}

/// The text of the member called `name`, if there is such a member and it is
/// a string.
pub open spec fn text_member_of(members: Seq<(String, Json)>, name: Seq<char>) -> Option<Seq<char>> {
    match member_of(members, name) {
        Some(Json::Text(text)) => Some(text@),
        _ => None,
    }
}

/// Whether `text` reads `literal`.
pub fn reads(text: &String, literal: &str) -> (r: bool)
    ensures
        r == (text@ == literal@),
{
    let other = literal.to_owned();
    *text == other
}

/// Looks up the member called `name`.
pub fn member<'a>(members: &'a Vec<(String, Json)>, name: &str) -> (r: Option<&'a Json>)
    ensures
        match r {
            Some(value) => member_of(members@, name@) == Some(*value),
            None => member_of(members@, name@) is None,
        },
{
    let mut found: Option<&'a Json> = None;
    let mut i: usize = 0;
    while i < members.len()
        invariant
            i <= members.len(),
            match found {
                Some(value) => member_of(members@.take(i as int), name@) == Some(*value),
                None => member_of(members@.take(i as int), name@) is None,
            },
        decreases members.len() - i,
    {
        proof {
            assert(members@.take(i + 1).drop_last() =~= members@.take(i as int));
        }
        if reads(&members[i].0, name) {
            found = Some(&members[i].1);
        }
        i += 1;
    }
    proof {
        assert(members@.take(members@.len() as int) =~= members@);
    }
    found
}

/// Looks up the member called `name` and hands out its text, if it is a
/// string.
pub fn text_member(members: &Vec<(String, Json)>, name: &str) -> (r: Option<String>)
    ensures
        match r {
            Some(text) => text_member_of(members@, name@) == Some(text@),
            None => text_member_of(members@, name@) is None,
        },
{
    match member(members, name) {
        Some(Json::Text(text)) => Some(text.clone()),
        _ => None,
    }
}

/// Reads a JSON text.
pub fn parse(bytes: &[u8]) -> (r: Result<Json, String>)
    ensures
        match r {
            Ok(doc) => parsed_json(bytes@) == Ok::<Json, Seq<char>>(doc),
            Err(text) => parsed_json(bytes@) == Err::<Json, Seq<char>>(text@),
        },
{
    match read_value(bytes) {
        Ok(value) => Ok(lift(&value)),
        Err(text) => Err(text),
    }
}

} // verus!
