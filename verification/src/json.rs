use crate::text::digit;
use vstd::prelude::*;

verus! {

/// A JSON document as plain data.
///
/// Numbers are kept as the text of the numeral; an object keeps its members
/// as a list of name and value, each name at most once.
#[derive(Debug, PartialEq, Eq)]
pub enum Json {
    Null,
    Bool(bool),
    Number(String),
    Text(String),
    Array(Vec<Json>),
    Object(Vec<(String, Json)>),
}

/// `serde_json::Value`, the reader's own document type. It is only handed
/// from the reader to the copy into `Json`; nothing is read from it here.
#[verifier::external_type_specification]
#[verifier::external_body]
pub struct ExValue(serde_json::Value);

/// The document that `serde_json::from_str` reads from a text, or `None`
/// where it rejects the text.
pub uninterp spec fn parsed(text: Seq<char>) -> Option<Json>;

/// The lower-case hexadecimal digit for a value below sixteen.
pub open spec fn hex_digit(d: nat) -> char {
    if d < 10 {
        digit(d)
    } else if d == 10 {
        'a'
    } else if d == 11 {
        'b'
    } else if d == 12 {
        'c'
    } else if d == 13 {
        'd'
    } else if d == 14 {
        'e'
    } else {
        'f'
    }
}

/// How one character stands inside a JSON string literal: the quote, the
/// backslash and the control characters below U+0020 are escaped, the five
/// common controls by their letter and the others as `\u00` and two
/// hexadecimal digits; every other character stands for itself.
pub open spec fn escaped(c: char) -> Seq<char> {
    if c == '"' {
        seq!['\\', '"']
    } else if c == '\\' {
        seq!['\\', '\\']
    } else if c == '\u{8}' {
        seq!['\\', 'b']
    } else if c == '\t' {
        seq!['\\', 't']
    } else if c == '\n' {
        seq!['\\', 'n']
    } else if c == '\u{c}' {
        seq!['\\', 'f']
    } else if c == '\r' {
        seq!['\\', 'r']
    } else if (c as nat) < 0x20 {
        seq!['\\', 'u', '0', '0', hex_digit((c as nat) / 16), hex_digit((c as nat) % 16)]
    } else {
        seq![c]
    }
}

/// The characters of a text, each as it stands inside a JSON string literal.
pub open spec fn escaped_text(text: Seq<char>) -> Seq<char>
    decreases text.len(),
{
    if text.len() == 0 {
        Seq::<char>::empty()
    } else {
        escaped(text[0]) + escaped_text(text.drop_first())
    }
}

/// The JSON string literal for a text: its escaped characters between two
/// quotes.
pub open spec fn quoted(text: Seq<char>) -> Seq<char> {
    seq!['"'] + escaped_text(text) + seq!['"']
}

/// Copies a `serde_json::Value` into a `Json`, variant by variant: a number
/// by `Number::to_string`, an object's members in the order in which
/// `Map::iter` gives them. Nothing is claimed of the result here; `parse`
/// names what reading and copying give together.
#[verifier::external_body]
fn json_from_value(value: &serde_json::Value) -> Json {
    match value {
        serde_json::Value::Null => Json::Null,
        serde_json::Value::Bool(b) => Json::Bool(*b),
        serde_json::Value::Number(n) => Json::Number(n.to_string()),
        serde_json::Value::String(s) => Json::Text(s.clone()),
        serde_json::Value::Array(items) => Json::Array(items.iter().map(json_from_value).collect()),
        serde_json::Value::Object(members) => Json::Object(
            members.iter().map(|(name, v)| (name.clone(), json_from_value(v))).collect(),
        ),
    }
}

/// Calls `serde_json::from_str` for a `serde_json::Value`. The result is a
/// function of the text alone: the document named `parsed`, or `None` where
/// the text is rejected.
#[verifier::external_body]
pub(crate) fn parse(text: &str) -> (doc: Option<Json>)
    ensures
        doc == parsed(text@),
{
    match serde_json::from_str::<serde_json::Value>(text) {
        Ok(value) => Some(json_from_value(&value)),
        Err(_) => None,
    }
}

/// Calls `serde_json::to_string` on a string. For a string the encoder has
/// nothing to refuse and writes into memory, so the call succeeds; what it
/// writes is the literal that `quoted` describes.
#[verifier::external_body]
pub(crate) fn quote(text: &str) -> (literal: Option<String>)
    ensures
        literal is Some,
        literal->0@ == quoted(text@),
{
    match serde_json::to_string(text) {
        Ok(s) => Some(s),
        Err(_) => None,
    }
}

/// The value of the first member called `name`, if there is one.
pub open spec fn member(members: Seq<(String, Json)>, name: Seq<char>) -> Option<Json>
    decreases members.len(),
{
    if members.len() == 0 {
        None
    } else if members[0].0@ == name {
        Some(members[0].1)
    } else {
        member(members.drop_first(), name)
    }
}

proof fn member_skip(members: Seq<(String, Json)>, name: Seq<char>, upto: int)
    requires
        0 <= upto <= members.len(),
        forall|k: int| 0 <= k < upto ==> members[k].0@ != name,
    ensures
        member(members, name) == member(members.subrange(upto, members.len() as int), name),
    decreases upto,
{
    if upto == 0 {
        assert(members.subrange(0, members.len() as int) =~= members);
    } else {
        let rest = members.drop_first();
        assert forall|k: int| 0 <= k < upto - 1 implies rest[k].0@ != name by {
            assert(rest[k] == members[k + 1]);
        }
        member_skip(rest, name, upto - 1);
        assert(rest.subrange(upto - 1, rest.len() as int) =~= members.subrange(
            upto,
            members.len() as int,
        ));
    }
}

/// Looks a string member up by name.
pub fn find_text<'a>(members: &'a Vec<(String, Json)>, name: &str) -> (found: Option<&'a String>)
    ensures
        match member(members@, name@) {
            Some(Json::Text(s)) => found == Some(&s),
            _ => found is None,
        },
{
    let key: String = name.to_owned();
    let mut i: usize = 0;
    while i < members.len()
        invariant
            i <= members.len(),
            key@ == name@,
            forall|k: int| 0 <= k < i ==> members@[k].0@ != name@,
        decreases members.len() - i,
    {
        if members[i].0 == key {
            proof {
                member_skip(members@, name@, i as int);
                let rest = members@.subrange(i as int, members@.len() as int);
                assert(rest[0] == members@[i as int]);
            }
            return match &members[i].1 {
                Json::Text(s) => Some(s),
                _ => None,
            };
        }
        i += 1;
    }
    proof {
        member_skip(members@, name@, i as int);
        assert(members@.subrange(i as int, members@.len() as int).len() == 0);
    }
    None
}

} // verus!
