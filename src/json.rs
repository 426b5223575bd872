//! The JSON values and calls of serde_json that the library relies on.
use vstd::prelude::*;

verus! {

#[verifier::external_type_specification]
#[verifier::external_body]
pub struct ExValue(serde_json::Value);

#[verifier::external_type_specification]
#[verifier::external_body]
pub struct ExJsonError(serde_json::Error);

/// A string entry of a JSON object, as its key's and value's characters.
pub type Entry = (Seq<char>, Seq<char>);

/// The characters of a pair of strings.
pub open spec fn entry_view(p: (String, String)) -> Entry {
    (p.0@, p.1@)
}

/// The characters of a list of string pairs.
pub open spec fn entries_view(e: Seq<(String, String)>) -> Seq<Entry> {
    e.map_values(|p: (String, String)| entry_view(p))
}

/// No two entries share a key.
pub open spec fn keys_distinct(entries: Seq<Entry>) -> bool {
    forall|i: int, j: int|
        0 <= i < entries.len() && 0 <= j < entries.len() && i != j ==> entries[i].0 != entries[j].0
}

/// The lower-case hexadecimal digit of `n` (below 16).
pub open spec fn hex_digit(n: u32) -> char {
    seq!['0', '1', '2', '3', '4', '5', '6', '7', '8', '9', 'a', 'b', 'c', 'd', 'e', 'f'][n as int]
}

/// How JSON writes one character inside a string literal: `"` and `\`
/// behind a backslash, the usual short escapes for backspace, tab, line
/// feed, form feed and carriage return, `\u00XX` for the other control
/// characters, and every other character as it is.
pub open spec fn escaped(c: char) -> Seq<char> {
    if c == '"' {
        seq!['\\', '"']
    } else if c == '\\' {
        seq!['\\', '\\']
    } else if c == '\u{8}' {
        seq!['\\', 'b']
    } else if c == '\t' {
        seq!['\\', 't']
    } else if c == '\n' {
        seq!['\\', 'n']
    } else if c == '\u{c}' {
        seq!['\\', 'f']
    } else if c == '\r' {
        seq!['\\', 'r']
    } else if (c as u32) < 0x20 {
        seq!['\\', 'u', '0', '0', hex_digit((c as u32) / 16), hex_digit((c as u32) % 16)]
    } else {
        seq![c]
    }
}

/// The characters of `s`, each escaped as JSON writes it.
pub open spec fn escape_text(s: Seq<char>) -> Seq<char>
    decreases s.len(),
{
    if s.len() == 0 {
        Seq::empty()
    } else {
        escape_text(s.drop_last()) + escaped(s.last())
    }
}

/// The JSON string literal of a text.
pub open spec fn json_quoted(s: Seq<char>) -> Seq<char> {
    seq!['"'] + escape_text(s) + seq!['"']
}

/// The compact JSON text that serde_json writes for a value.
pub uninterp spec fn json_text_of(v: serde_json::Value) -> Seq<char>;

/// The entries that serde_json reads from a value as a map of strings to
/// strings, in key order; `None` where the value is not such an object.
pub uninterp spec fn string_entries_of(v: serde_json::Value) -> Option<Seq<Entry>>;

/// The objects that serde_json reads from a value as a list of maps of
/// strings to strings, each as its entries in key order; `None` where the
/// value is not such a list.
pub uninterp spec fn string_object_list_of(v: serde_json::Value) -> Option<Seq<Seq<Entry>>>;

/// Relies on serde_json::to_string for a `str`: a JSON string literal, with
/// `"`, `\` and control characters escaped. Writing into memory does not fail.
#[verifier::external_body]
pub(crate) fn quote_json(s: &str) -> (r: String)
    ensures
        r@ == json_quoted(s@),
{
    match serde_json::to_string(s) {
        Ok(t) => t,
        Err(_) => String::new(),
    }
}

/// Relies on serde_json's `Display` for `Value`: the value as compact JSON text.
#[verifier::external_body]
pub(crate) fn json_text(v: &serde_json::Value) -> (r: String)
    ensures
        r@ == json_text_of(*v),
{
    v.to_string()
}

/// Relies on serde_json::from_value: reads a JSON object whose values are
/// all strings into a map (so its keys are distinct, in key order), or fails.
#[verifier::external_body]
pub(crate) fn string_object(v: &serde_json::Value) -> (r: Result<Vec<(String, String)>, serde_json::Error>)
    ensures
        r is Ok <==> string_entries_of(*v) is Some,
        r matches Ok(es) ==> string_entries_of(*v) == Some(entries_view(es@)),
        r matches Ok(es) ==> keys_distinct(entries_view(es@)),
{
    serde_json::from_value::<std::collections::BTreeMap<String, String>>(v.clone()).map(
        |m| m.into_iter().collect(),
    )
}

/// Relies on serde_json::from_value: reads a JSON array of objects whose
/// values are all strings, each into a map (so its keys are distinct, in
/// key order), or fails.
#[verifier::external_body]
pub(crate) fn string_object_list(v: &serde_json::Value) -> (r: Result<Vec<Vec<(String, String)>>, serde_json::Error>)
    ensures
        r is Ok <==> string_object_list_of(*v) is Some,
        r matches Ok(l) ==> string_object_list_of(*v) == Some(
            l@.map_values(|o: Vec<(String, String)>| entries_view(o@)),
        ),
        r matches Ok(l) ==> forall|k: int|
            0 <= k < l@.len() ==> keys_distinct(#[trigger] entries_view(l@[k]@)),
{
    serde_json::from_value::<Vec<std::collections::BTreeMap<String, String>>>(v.clone()).map(
        |l| l.into_iter().map(|m| m.into_iter().collect()).collect(),
    )
}

} // verus!
