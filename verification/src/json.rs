//! The crate's own image of a JSON document, and the field accessor the
//! entity decoders are built on. Parsing raw text is delegated to the
//! `serde_json` crate behind a single trusted wrapper; everything downstream
//! of that wrapper — field lookup, typed field reads, entity assembly — is
//! verified against the model below.
use vstd::prelude::*;

use crate::date::{spec_parse_date, parse_date, Timestamp};
use crate::text::str_eq;
use crate::{SpiraError, SpiraErrorV};

verus! {

/// One JSON value. Unsigned integers — the only numbers the data model
/// reads — are kept exactly; any other numeric literal is carried as its
/// text, so that payloads survive a round trip untouched. Object fields keep
/// the order in which the parser handed them over.
#[derive(Debug)]
pub enum JsonValue {
    Null,
    Bool(bool),
    UInt(u64),
    /// A numeric literal that is not a `u64` (negative or fractional),
    /// carried verbatim as text.
    NumOther(String),
    Str(String),
    Array(Vec<JsonValue>),
    Object(Vec<(String, JsonValue)>),
}

/// Declares `serde_json::Value`, the parser's own document type, so that the
/// conversion into this crate's model can name it. The type stays opaque.
#[verifier::external_type_specification]
#[verifier::external_body]
pub struct ExSerdeValue(serde_json::Value);

/// The document `serde_json::from_str::<serde_json::Value>` yields for a
/// given text, as this crate's model: `None` exactly when the text is not
/// valid JSON. The JSON grammar itself is not restated here; the name is the
/// contract.
pub uninterp spec fn json_of(s: Seq<char>) -> Option<JsonValue>;

/// What one parsed `serde_json::Value` holds, as this crate's model: the
/// contents of the tree, variant for variant.
pub uninterp spec fn value_model(v: serde_json::Value) -> JsonValue;

/// Relies on the public shape of `serde_json::Value`: each variant is carried
/// over one for one into the model, a number through `Number::as_u64` where
/// it fits and as its literal text otherwise.
#[verifier::external_body]
fn value_to_json(v: serde_json::Value) -> (r: JsonValue)
    ensures
        r == value_model(v),
{
    match v {
        serde_json::Value::Null => JsonValue::Null,
        serde_json::Value::Bool(b) => JsonValue::Bool(b),
        serde_json::Value::Number(n) => match n.as_u64() {
            Some(u) => JsonValue::UInt(u),
            None => JsonValue::NumOther(n.to_string()),
        },
        serde_json::Value::String(s) => JsonValue::Str(s),
        serde_json::Value::Array(a) => JsonValue::Array(a.into_iter().map(value_to_json).collect()),
        serde_json::Value::Object(m) => JsonValue::Object(m.into_iter().map(|(k, x)| (k, value_to_json(x))).collect()),
    }
}

/// Relies on `serde_json::from_str`: returns the parsed document, or `None`
/// exactly when the text is not valid JSON.
#[verifier::external_body]
pub(crate) fn parse_json(text: &str) -> (r: Option<JsonValue>)
    ensures
        r == json_of(text@),
{
    match serde_json::from_str::<serde_json::Value>(text) {
        Ok(v) => Some(value_to_json(v)),
        Err(_) => None,
    }
}

/// First field of the given name at or after position `i`.
pub open spec fn spec_lookup_from(
    fields: Seq<(String, JsonValue)>,
    name: Seq<char>,
    i: int,
) -> Option<JsonValue>
    decreases fields.len() - i,
{
    if i < 0 || i >= fields.len() {
        None
    } else if fields[i].0@ == name {
        Some(fields[i].1)
    } else {
        spec_lookup_from(fields, name, i + 1)
    }
}

/// First field of the given name, in field order.
pub open spec fn spec_lookup(fields: Seq<(String, JsonValue)>, name: Seq<char>) -> Option<
    JsonValue,
> {
    spec_lookup_from(fields, name, 0)
}

/// The key list of an object, for the diagnostic payload of `MissingField`.
pub open spec fn spec_keys(fields: Seq<(String, JsonValue)>) -> Seq<Seq<char>> {
    fields.map_values(|f: (String, JsonValue)| f.0@)
}

/// Skipping fields whose names do not match leaves the lookup unchanged.
proof fn lemma_lookup_skip(fields: Seq<(String, JsonValue)>, name: Seq<char>, i: int)
    requires
        0 <= i <= fields.len(),
        forall|j: int| 0 <= j < i ==> (#[trigger] fields[j].0)@ != name,
    ensures
        spec_lookup(fields, name) == spec_lookup_from(fields, name, i),
    decreases i,
{
    if i > 0 {
        lemma_lookup_skip(fields, name, i - 1);
        assert(spec_lookup_from(fields, name, i - 1) == spec_lookup_from(fields, name, i));
    }
}

/// Index of the first field of the given name, if any.
pub fn find_field_index(fields: &Vec<(String, JsonValue)>, name: &str) -> (r: Option<usize>)
    ensures
        match r {
            Some(i) => i < fields@.len() && fields@[i as int].0@ == name@ && spec_lookup(
                fields@,
                name@,
            ) == Some(fields@[i as int].1),
            None => spec_lookup(fields@, name@) is None,
        },
{
    let n = fields.len();
    let mut i: usize = 0;
    while i < n
        invariant
            0 <= i <= n,
            n == fields@.len(),
            forall|j: int| 0 <= j < i ==> (#[trigger] fields@[j].0)@ != name@,
        decreases n - i,
    {
        if str_eq(fields[i].0.as_str(), name) {
            proof {
                lemma_lookup_skip(fields@, name@, i as int);
            }
            return Some(i);
        }
        i = i + 1;
    }
    proof {
        lemma_lookup_skip(fields@, name@, n as int);
    }
    None
}

/// The keys of an object, cloned, for error reporting.
fn object_keys(fields: &Vec<(String, JsonValue)>) -> (r: Vec<String>)
    ensures
        r.deep_view() == spec_keys(fields@),
{
    let n = fields.len();
    let mut keys: Vec<String> = Vec::new();
    let mut i: usize = 0;
    while i < n
        invariant
            0 <= i <= n,
            n == fields@.len(),
            keys@.len() == i,
            forall|j: int| 0 <= j < i ==> (#[trigger] keys@[j])@ == fields@[j].0@,
        decreases n - i,
    {
        keys.push(fields[i].0.clone());
        i = i + 1;
    }
    proof {
        assert(keys.deep_view() =~= spec_keys(fields@));
    }
    keys
}

/// The `MissingField` error for a required field that is not there.
fn missing_field(fields: &Vec<(String, JsonValue)>, name: &str) -> (r: SpiraError)
    ensures
        r@ == (SpiraErrorV::MissingField { field: name@, object_keys: spec_keys(fields@) }),
{
    SpiraError::MissingField {
        field: String::from_str(name),
        object_keys: object_keys(fields),
    }
}

/// The `MalformedPayload` error for a field whose value has the wrong type.
fn wrong_type(name: &str) -> (r: SpiraError)
    ensures
        r@ == (SpiraErrorV::MalformedPayload { detail: name@ }),
{
    SpiraError::MalformedPayload { detail: String::from_str(name) }
}

/// A required integer field: absent is `MissingField`, any non-integer value
/// is `MalformedPayload` naming the field.
pub open spec fn spec_req_u64(fields: Seq<(String, JsonValue)>, name: Seq<char>) -> Result<
    u64,
    SpiraErrorV,
> {
    match spec_lookup(fields, name) {
        Option::None => Err(
            SpiraErrorV::MissingField { field: name, object_keys: spec_keys(fields) },
        ),
        Option::Some(JsonValue::UInt(u)) => Ok(u),
        Option::Some(_) => Err(SpiraErrorV::MalformedPayload { detail: name }),
    }
}

pub fn req_u64(fields: &Vec<(String, JsonValue)>, name: &str) -> (r: Result<u64, SpiraError>)
    ensures
        match spec_req_u64(fields@, name@) {
            Ok(v) => r matches Ok(u) && u == v,
            Err(ev) => r matches Err(e) && e@ == ev,
        },
{
    match find_field_index(fields, name) {
        None => Err(missing_field(fields, name)),
        Some(i) => match &fields[i].1 {
            JsonValue::UInt(u) => Ok(*u),
            _ => Err(wrong_type(name)),
        },
    }
}

/// An optional integer field: absent or JSON-null is "no value", any other
/// non-integer value is `MalformedPayload` naming the field.
pub open spec fn spec_opt_u64(fields: Seq<(String, JsonValue)>, name: Seq<char>) -> Result<
    Option<u64>,
    SpiraErrorV,
> {
    match spec_lookup(fields, name) {
        Option::None => Ok(Option::None),
        Option::Some(JsonValue::Null) => Ok(Option::None),
        Option::Some(JsonValue::UInt(u)) => Ok(Option::Some(u)),
        Option::Some(_) => Err(SpiraErrorV::MalformedPayload { detail: name }),
    }
}

pub fn opt_u64(fields: &Vec<(String, JsonValue)>, name: &str) -> (r: Result<
    Option<u64>,
    SpiraError,
>)
    ensures
        match spec_opt_u64(fields@, name@) {
            Ok(v) => r matches Ok(u) && u == v,
            Err(ev) => r matches Err(e) && e@ == ev,
        },
{
    match find_field_index(fields, name) {
        None => Ok(None),
        Some(i) => match &fields[i].1 {
            JsonValue::Null => Ok(None),
            JsonValue::UInt(u) => Ok(Some(*u)),
            _ => Err(wrong_type(name)),
        },
    }
}

/// A required text field.
pub open spec fn spec_req_str(fields: Seq<(String, JsonValue)>, name: Seq<char>) -> Result<
    Seq<char>,
    SpiraErrorV,
> {
    match spec_lookup(fields, name) {
        Option::None => Err(
            SpiraErrorV::MissingField { field: name, object_keys: spec_keys(fields) },
        ),
        Option::Some(JsonValue::Str(s)) => Ok(s@),
        Option::Some(_) => Err(SpiraErrorV::MalformedPayload { detail: name }),
    }
}

pub fn req_str(fields: &Vec<(String, JsonValue)>, name: &str) -> (r: Result<String, SpiraError>)
    ensures
        match spec_req_str(fields@, name@) {
            Ok(v) => r matches Ok(s) && s@ == v,
            Err(ev) => r matches Err(e) && e@ == ev,
        },
{
    match find_field_index(fields, name) {
        None => Err(missing_field(fields, name)),
        Some(i) => match &fields[i].1 {
            JsonValue::Str(s) => Ok(s.clone()),
            _ => Err(wrong_type(name)),
        },
    }
}

/// An optional text field: absent or JSON-null is "no value".
pub open spec fn spec_opt_str(fields: Seq<(String, JsonValue)>, name: Seq<char>) -> Result<
    Option<Seq<char>>,
    SpiraErrorV,
> {
    match spec_lookup(fields, name) {
        Option::None => Ok(Option::None),
        Option::Some(JsonValue::Null) => Ok(Option::None),
        Option::Some(JsonValue::Str(s)) => Ok(Option::Some(s@)),
        Option::Some(_) => Err(SpiraErrorV::MalformedPayload { detail: name }),
    }
}

pub fn opt_str(fields: &Vec<(String, JsonValue)>, name: &str) -> (r: Result<
    Option<String>,
    SpiraError,
>)
    ensures
        match spec_opt_str(fields@, name@) {
            Ok(Option::None) => r matches Ok(o) && o is None,
            Ok(Option::Some(v)) => r matches Ok(o) && o matches Some(s) && s@ == v,
            Err(ev) => r matches Err(e) && e@ == ev,
        },
{
    match find_field_index(fields, name) {
        None => Ok(None),
        Some(i) => match &fields[i].1 {
            JsonValue::Null => Ok(None),
            JsonValue::Str(s) => Ok(Some(s.clone())),
            _ => Err(wrong_type(name)),
        },
    }
}

/// A required boolean field.
pub open spec fn spec_req_bool(fields: Seq<(String, JsonValue)>, name: Seq<char>) -> Result<
    bool,
    SpiraErrorV,
> {
    match spec_lookup(fields, name) {
        Option::None => Err(
            SpiraErrorV::MissingField { field: name, object_keys: spec_keys(fields) },
        ),
        Option::Some(JsonValue::Bool(b)) => Ok(b),
        Option::Some(_) => Err(SpiraErrorV::MalformedPayload { detail: name }),
    }
}

pub fn req_bool(fields: &Vec<(String, JsonValue)>, name: &str) -> (r: Result<bool, SpiraError>)
    ensures
        match spec_req_bool(fields@, name@) {
            Ok(v) => r matches Ok(b) && b == v,
            Err(ev) => r matches Err(e) && e@ == ev,
        },
{
    match find_field_index(fields, name) {
        None => Err(missing_field(fields, name)),
        Some(i) => match &fields[i].1 {
            JsonValue::Bool(b) => Ok(*b),
            _ => Err(wrong_type(name)),
        },
    }
}

/// A required timestamp field: the text is decoded by the date codec, and a
/// text that matches neither wire form is a `DateFormatError` carrying it.
pub open spec fn spec_req_date(fields: Seq<(String, JsonValue)>, name: Seq<char>) -> Result<
    Timestamp,
    SpiraErrorV,
> {
    match spec_req_str(fields, name) {
        Err(ev) => Err(ev),
        Ok(raw) => match spec_parse_date(raw) {
            Option::Some(t) => Ok(t),
            Option::None => Err(SpiraErrorV::DateFormatError { raw_input: raw }),
        },
    }
}

pub fn req_date(fields: &Vec<(String, JsonValue)>, name: &str) -> (r: Result<
    Timestamp,
    SpiraError,
>)
    ensures
        match spec_req_date(fields@, name@) {
            Ok(v) => r matches Ok(t) && t == v,
            Err(ev) => r matches Err(e) && e@ == ev,
        },
{
    let raw = match req_str(fields, name) {
        Ok(s) => s,
        Err(e) => {
            return Err(e);
        },
    };
    match parse_date(raw.as_str()) {
        Ok(t) => Ok(t),
        Err(e) => Err(e),
    }
}

/// An optional open map field, copied verbatim: a present object is taken as
/// it stands — never validated or re-typed — and anything else is "no
/// value".
pub open spec fn spec_opt_object(
    fields: Seq<(String, JsonValue)>,
    name: Seq<char>,
) -> Option<Seq<(String, JsonValue)>> {
    match spec_lookup(fields, name) {
        Option::Some(JsonValue::Object(m)) => Some(m@),
        _ => None,
    }
}

/// Moves the named object field out of `fields`, which the caller is done
/// with afterwards.
pub fn take_opt_object(fields: &mut Vec<(String, JsonValue)>, name: &str) -> (r: Option<
    Vec<(String, JsonValue)>,
>)
    ensures
        match spec_opt_object(old(fields)@, name@) {
            Some(m) => r matches Some(v) && v@ == m,
            None => r is None,
        },
{
    match find_field_index(fields, name) {
        None => None,
        Some(i) => {
            let pair = fields.swap_remove(i);
            match pair.1 {
                JsonValue::Object(m) => Some(m),
                _ => None,
            }
        },
    }
}

} // verus!
