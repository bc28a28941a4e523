//! The JSON documents that commands carry, read and written by serde_json,
//! and the clock that stamps events.
use vstd::prelude::*;

verus! {

/// What a text holds when it is read as one JSON document.
#[derive(Clone, Copy, PartialEq, Eq, Structural, Debug)]
pub enum JsonKind {
    /// The text is not JSON.
    Invalid,
    /// The text is JSON whose top-level value is an object.
    Object,
    /// The text is JSON whose top-level value is not an object.
    Other,
}

/// What `serde_json::from_str::<Value>` makes of a text: it depends on the
/// characters of the text alone.
pub uninterp spec fn json_kind(text: Seq<char>) -> JsonKind;

/// A field of a JSON object, in the forms that the logic tells apart.
#[derive(Debug, PartialEq, Eq)]
pub enum IdField {
    /// A JSON number that is an integer within the range of `i64`.
    Integer(i64),
    /// A JSON string.
    Text(String),
    /// No such field, or a value of another shape.
    Unusable,
}

/// A field as the contracts see it.
pub enum IdFieldView {
    Integer(i64),
    Text(Seq<char>),
    Unusable,
}

impl View for IdField {
    type V = IdFieldView;

    open spec fn view(&self) -> IdFieldView {
        match self {
            IdField::Integer(n) => IdFieldView::Integer(*n),
            IdField::Text(s) => IdFieldView::Text(s@),
            IdField::Unusable => IdFieldView::Unusable,
        }
    }
}

/// The field `key` of the object that a JSON text holds, as serde_json reads
/// it: it depends on the text and the key alone.
pub uninterp spec fn object_field(text: Seq<char>, key: Seq<char>) -> IdFieldView;

/// The text serde_json writes for the object that a JSON text holds, once the
/// string `value` is stored under `key` (replacing what the key held): it
/// depends on the three texts alone.
pub uninterp spec fn text_with_field(text: Seq<char>, key: Seq<char>, value: Seq<char>) -> Seq<char>;

/// Relies on `serde_json::from_str::<serde_json::Value>`: whether the text is
/// JSON, and whether its top-level value is an object.
#[verifier::external_body]
pub(crate) fn json_kind_of(text: &str) -> (r: JsonKind)
    ensures
        r == json_kind(text@),
{
    match serde_json::from_str::<serde_json::Value>(text) {
        Err(_) => JsonKind::Invalid,
        Ok(serde_json::Value::Object(_)) => JsonKind::Object,
        Ok(_) => JsonKind::Other,
    }
}

/// Relies on `serde_json::from_str::<serde_json::Value>`, `Map::get` and
/// `Number::as_i64`: the field `key` of a text that holds a JSON object, as
/// an `i64` integer, a string, or neither; `None` when the text holds no
/// object.
#[verifier::external_body]
pub(crate) fn read_object_field(text: &str, key: &str) -> (r: Option<IdField>)
    ensures
        (r is Some) == (json_kind(text@) == JsonKind::Object),
        r is Some ==> r->Some_0@ == object_field(text@, key@),
{
    match serde_json::from_str::<serde_json::Value>(text) {
        Ok(serde_json::Value::Object(fields)) => Some(match fields.get(key) {
            Some(serde_json::Value::Number(n)) => match n.as_i64() {
                Some(i) => IdField::Integer(i),
                None => IdField::Unusable,
            },
            Some(serde_json::Value::String(s)) => IdField::Text(s.clone()),
            _ => IdField::Unusable,
        }),
        _ => None,
    }
}

/// Relies on `serde_json::from_str::<serde_json::Value>`, `Map::insert` and
/// `serde_json::to_string`: stores a JSON string under a key of the object a
/// text holds, and writes the object out again; `None` when the text holds
/// no object. Writing never fails: the documented failures are a `Serialize`
/// impl that fails and map keys that are not strings, and neither occurs in a
/// `Map<String, Value>`.
#[verifier::external_body]
pub(crate) fn with_text_field(text: &str, key: String, value: String) -> (r: Option<String>)
    ensures
        (r is Some) == (json_kind(text@) == JsonKind::Object),
        r is Some ==> r->Some_0@ == text_with_field(text@, key@, value@),
{
    match serde_json::from_str::<serde_json::Value>(text) {
        Ok(serde_json::Value::Object(mut fields)) => {
            fields.insert(key, serde_json::Value::String(value));
            serde_json::to_string(&fields).ok()
        },
        _ => None,
    }
}

/// Relies on `std::time::SystemTime::now`, chrono's
/// `From<SystemTime> for DateTime<Utc>` and `DateTime::to_rfc3339`: the
/// current time as RFC 3339 text. Nothing is known of which time it is. The
/// conversion accepts times before 1970; it fails only beyond chrono's range
/// of about 262,000 years, which a system clock (kept by the kernel within
/// the years 1677 to 2262) does not reach.
#[verifier::external_body]
pub(crate) fn now_rfc3339() -> (r: String) {
    chrono::DateTime::<chrono::Utc>::from(std::time::SystemTime::now()).to_rfc3339()
}

} // verus!
