use vstd::prelude::*;
use vstd::utf8::*;

verus! {

/// A JSON document as serde_json holds it; opaque to the proofs.
#[verifier::external_type_specification]
#[verifier::external_body]
pub struct ExJsonValue(serde_json::Value);

/// The document that serde_json reads from a text, if the text is JSON.
pub uninterp spec fn parsed_json(text: Seq<char>) -> Option<serde_json::Value>;

/// The compact serde_json rendering of a document.
pub uninterp spec fn compact_text(v: serde_json::Value) -> Seq<char>;

/// The member of an object under a key, if the document is an object that
/// has it.
pub uninterp spec fn member_of(v: serde_json::Value, key: Seq<char>) -> Option<serde_json::Value>;

/// The characters of a document that is a JSON string.
pub uninterp spec fn text_of(v: serde_json::Value) -> Option<Seq<char>>;

/// Whether a document is a JSON object.
pub uninterp spec fn is_object(v: serde_json::Value) -> bool;

/// An object with the member under `key` set to the JSON string `text`.
pub uninterp spec fn with_text_member(
    v: serde_json::Value,
    key: Seq<char>,
    text: Seq<char>,
) -> serde_json::Value;

/// Relies on serde_json::from_str into a `Value`: it reads a document from
/// the text, or fails where the text is not JSON.
#[verifier::external_body]
pub(crate) fn parse_json(text: &str) -> (r: Option<serde_json::Value>)
    ensures
        r == parsed_json(text@),
{
    serde_json::from_str::<serde_json::Value>(text).ok()
}

/// Relies on serde_json's `Display` for `Value`: the compact rendering, which
/// writes no white space between tokens and escapes a newline inside a
/// string, so that it holds no newline character.
#[verifier::external_body]
pub(crate) fn compact_json(v: &serde_json::Value) -> (r: String)
    ensures
        r@ == compact_text(*v),
        !r@.contains('\n'),
{
    v.to_string()
}

/// Relies on serde_json::Value::get with a string key: the member of an
/// object, `None` for a missing key or a document that is no object.
#[verifier::external_body]
pub(crate) fn json_member<'a>(v: &'a serde_json::Value, key: &str) -> (r: Option<
    &'a serde_json::Value,
>)
    ensures
        match r {
            Some(m) => member_of(*v, key@) == Some(*m),
            None => member_of(*v, key@) is None,
        },
{
    v.get(key)
}

/// Relies on serde_json::Value::as_str: the characters of a JSON string,
/// `None` for any other document.
#[verifier::external_body]
pub(crate) fn json_text<'a>(v: &'a serde_json::Value) -> (r: Option<&'a str>)
    ensures
        match r {
            Some(s) => text_of(*v) == Some(s@),
            None => text_of(*v) is None,
        },
{
    v.as_str()
}

/// Relies on serde_json::Value::is_object.
#[verifier::external_body]
pub(crate) fn json_is_object(v: &serde_json::Value) -> (r: bool)
    ensures
        r == is_object(*v),
{
    v.is_object()
}

/// Relies on indexing a `Value` object mutably by a string key, which
/// inserts the key where it is missing (and panics on a document that is
/// neither an object nor null), and on `Value::from(&str)`, a JSON string;
/// the object's other members stay as they were.
#[verifier::external_body]
pub(crate) fn set_text_member(v: &mut serde_json::Value, key: &str, text: &str)
    requires
        is_object(*old(v)),
    ensures
        *final(v) == with_text_member(*old(v), key@, text@),
        is_object(*final(v)),
        member_of(*final(v), key@) is Some,
        text_of(member_of(*final(v), key@)->0) == Some(text@),
        forall|k: Seq<char>|
            k != key@ ==> #[trigger] member_of(*final(v), k) == member_of(*old(v), k),
{
    v[key] = serde_json::Value::from(text);
}

/// Relies on std::str::from_utf8: it accepts exactly the well-formed UTF-8
/// byte sequences and decodes them.
#[verifier::external_body]
pub(crate) fn utf8_text(bytes: &[u8]) -> (r: Option<&str>)
    ensures
        r is Some <==> valid_utf8(bytes@),
        r matches Some(s) ==> s@ == decode_utf8(bytes@),
{
    std::str::from_utf8(bytes).ok()
}

} // verus!
