//! Reading fields of JSON documents produced by other components (the
//! telemetry worker, PowerShell probes), through `serde_json`.
use vstd::prelude::*;

verus! {

/// `serde_json::Value`, carried through the library as an opaque document.
#[verifier::external_type_specification]
#[verifier::external_body]
pub struct ExJsonValue(serde_json::Value);

/// One field of a JSON object, as the library reads it.
#[derive(Clone, Debug)]
pub enum JsonField {
    /// The object has no such key (or the document is not an object).
    Absent,
    Null,
    Bool(bool),
    /// A number, with its value when it is a non-negative integer that fits
    /// in `u64` (what `serde_json::Number::as_u64` gives).
    Number(Option<u64>),
    Text(String),
    Array,
    Object,
}

/// The document that `serde_json::from_str` reads from `text`, `None` where
/// it refuses the text. Parsing depends on the text alone.
pub uninterp spec fn json_from_text(text: Seq<char>) -> Option<serde_json::Value>;

/// Whether `serde_json` accepts `text` as a JSON document.
pub open spec fn json_text_parses(text: Seq<char>) -> bool {
    json_from_text(text) is Some
}

/// The document that `serde_json::from_slice` reads from `bytes`, `None`
/// where it refuses them. Parsing depends on the bytes alone.
pub uninterp spec fn json_from_bytes(bytes: Seq<u8>) -> Option<serde_json::Value>;

/// Whether `serde_json` accepts `bytes` as a JSON document.
pub open spec fn json_bytes_parse(bytes: Seq<u8>) -> bool {
    json_from_bytes(bytes) is Some
}

/// Parses JSON text with `serde_json::from_str`, the error rendered with its
/// `Display` text. The document is the one named by [`json_from_text`]; the
/// error text is not modelled.
#[verifier::external_body]
pub(crate) fn parse_json_text(raw: &str) -> (r: Result<serde_json::Value, String>)
    ensures
        r is Ok == json_text_parses(raw@),
        r matches Ok(doc) ==> json_from_text(raw@) == Some(doc),
{
    serde_json::from_str::<serde_json::Value>(raw).map_err(|e| e.to_string())
}

/// Parses JSON bytes with `serde_json::from_slice`, the error rendered with
/// its `Display` text. The document is the one named by
/// [`json_from_bytes`]; the error text is not modelled.
#[verifier::external_body]
pub(crate) fn parse_json_bytes(raw: &[u8]) -> (r: Result<serde_json::Value, String>)
    ensures
        r is Ok == json_bytes_parse(raw@),
        r matches Ok(doc) ==> json_from_bytes(raw@) == Some(doc),
{
    serde_json::from_slice::<serde_json::Value>(raw).map_err(|e| e.to_string())
}

/// What [`json_field`] gives for the member `key` of `doc`: it depends on
/// the document and the key alone.
pub uninterp spec fn json_member(doc: serde_json::Value, key: Seq<char>) -> JsonField;

/// The field `key` of `doc` (`serde_json::Value::get`), converted variant
/// for variant into a [`JsonField`]; a number is taken by
/// `serde_json::Number::as_u64`. Which variant comes back is named by
/// [`json_member`]; the document itself is not modelled.
#[verifier::external_body]
pub(crate) fn json_field(doc: &serde_json::Value, key: &str) -> (r: JsonField)
    ensures
        r == json_member(*doc, key@),
{
    match doc.get(key) {
        None => JsonField::Absent,
        Some(serde_json::Value::Null) => JsonField::Null,
        Some(serde_json::Value::Bool(b)) => JsonField::Bool(*b),
        Some(serde_json::Value::Number(n)) => JsonField::Number(n.as_u64()),
        Some(serde_json::Value::String(s)) => JsonField::Text(s.clone()),
        Some(serde_json::Value::Array(_)) => JsonField::Array,
        Some(serde_json::Value::Object(_)) => JsonField::Object,
    }
}

/// The member `key` of `doc` as `serde_json::Value::get` finds it, `None`
/// when `doc` is not an object or has no such key.
pub uninterp spec fn json_member_value(doc: serde_json::Value, key: Seq<char>) -> Option<serde_json::Value>;

/// A copy of the member `key` of `doc` (`serde_json::Value::get`, cloned),
/// as named by [`json_member_value`].
#[verifier::external_body]
pub(crate) fn json_get(doc: &serde_json::Value, key: &str) -> (r: Option<serde_json::Value>)
    ensures
        r == json_member_value(*doc, key@),
{
    doc.get(key).cloned()
}

/// The entries of the array member `key` of `doc`, each as its text when it
/// is a JSON string, `None` when there is no such array.
pub uninterp spec fn json_string_list(doc: serde_json::Value, key: Seq<char>) -> Option<Seq<Option<Seq<char>>>>;

/// The texts of a list of optional strings.
pub open spec fn string_items_view(items: Option<Vec<Option<String>>>) -> Option<Seq<Option<Seq<char>>>> {
    match items {
        Some(v) => Some(v@.map_values(|item: Option<String>| match item {
            Some(s) => Some(s@),
            None => None,
        })),
        None => None,
    }
}

/// The entries of the array member `key` of `doc`, each as its text when it
/// is a JSON string (`Value::get`, `Value::as_array`, `Value::as_str`);
/// `None` when there is no such array. The list is named by
/// [`json_string_list`].
#[verifier::external_body]
pub(crate) fn json_string_items(doc: &serde_json::Value, key: &str) -> (r: Option<Vec<Option<String>>>)
    ensures
        string_items_view(r) == json_string_list(*doc, key@),
{
    doc.get(key).and_then(serde_json::Value::as_array).map(
        |items| items.iter().map(|item| item.as_str().map(|s| s.to_string())).collect(),
    )
}

/// The compact JSON text of `doc`, as its `Display` writes it.
pub uninterp spec fn json_compact_text(doc: serde_json::Value) -> Seq<char>;

/// The compact JSON text of `doc` (its `Display`, as `serde_json::to_string`
/// writes it), named by [`json_compact_text`].
#[verifier::external_body]
pub(crate) fn json_to_text(doc: &serde_json::Value) -> (r: String)
    ensures
        r@ == json_compact_text(*doc),
{
    doc.to_string()
}

/// The JSON object whose only member is `key` with the number `value`
/// (`Map::new`, `Map::insert`, `Value::Object`): its member `key` reads as
/// that number, and no other key is present.
#[verifier::external_body]
pub(crate) fn json_object_with_number(key: &str, value: u64) -> (r: serde_json::Value)
    ensures
        json_member(r, key@) == JsonField::Number(Some(value)),
        forall|k: Seq<char>| k != key@ ==> #[trigger] json_member(r, k) == JsonField::Absent,
        forall|k: Seq<char>| k != key@ ==> #[trigger] json_member_value(r, k) is None,
{
    let mut object = serde_json::Map::new();
    object.insert(key.to_string(), serde_json::Value::from(value));
    serde_json::Value::Object(object)
}

/// Sets the member `key` of the object `doc` to the number `value`
/// (`Value::as_object_mut`, `Map::insert`); returns whether `doc` is an
/// object. After a write the member `key` reads as that number and every
/// other member is as it was. A document that is not an object is left as
/// it was, and has no members.
#[verifier::external_body]
pub(crate) fn json_insert_number(doc: &mut serde_json::Value, key: &str, value: u64) -> (r: bool)
    ensures
        !r ==> *final(doc) == *old(doc),
        !r ==> forall|k: Seq<char>| #[trigger] json_member(*old(doc), k) == JsonField::Absent,
        r ==> json_member(*final(doc), key@) == JsonField::Number(Some(value)),
        r ==> forall|k: Seq<char>|
            k != key@ ==> #[trigger] json_member(*final(doc), k) == json_member(*old(doc), k),
        r ==> forall|k: Seq<char>|
            k != key@ ==> #[trigger] json_member_value(*final(doc), k) == json_member_value(
                *old(doc),
                k,
            ),
{
    match doc.as_object_mut() {
        Some(object) => {
            object.insert(key.to_string(), serde_json::Value::from(value));
            true
        },
        None => false,
    }
}

/// Sets the member `key` of the object `doc` to the string `value`
/// (`Value::as_object_mut`, `Map::insert`); returns whether `doc` is an
/// object. After a write the member `key` reads as that text and every
/// other member is as it was. A document that is not an object is left as
/// it was, and has no members.
#[verifier::external_body]
pub(crate) fn json_insert_text(doc: &mut serde_json::Value, key: &str, value: &str) -> (r: bool)
    ensures
        !r ==> *final(doc) == *old(doc),
        !r ==> forall|k: Seq<char>| #[trigger] json_member(*old(doc), k) == JsonField::Absent,
        r ==> (json_member(*final(doc), key@) matches JsonField::Text(t) && t@ == value@),
        r ==> forall|k: Seq<char>|
            k != key@ ==> #[trigger] json_member(*final(doc), k) == json_member(*old(doc), k),
        r ==> forall|k: Seq<char>|
            k != key@ ==> #[trigger] json_member_value(*final(doc), k) == json_member_value(
                *old(doc),
                k,
            ),
{
    match doc.as_object_mut() {
        Some(object) => {
            object.insert(key.to_string(), serde_json::Value::from(value));
            true
        },
        None => false,
    }
}

} // verus!
