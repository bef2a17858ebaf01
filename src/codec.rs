//! Reading the properties of a JSON object. A required property that is
//! missing or unreadable is an error; an optional one that is missing, `null`
//! or of another shape reads as absent.
use vstd::prelude::*;
use crate::json::{JsonNumber, JsonValue, JsonView, NumberView};
use crate::text::opt_view;
use crate::url::{Url, UrlView, parsed_url};

verus! {

/// Why a document could not be decoded.
#[derive(Debug)]
pub enum DecodeError {
    /// The value is not a JSON object.
    NotAnObject,
    /// The named property is missing or has no readable form.
    InvalidField(String),
}

pub enum DecodeErrorView {
    NotAnObject,
    InvalidField(Seq<char>),
}

impl View for DecodeError {
    type V = DecodeErrorView;

    open spec fn view(&self) -> DecodeErrorView {
        match self {
            DecodeError::NotAnObject => DecodeErrorView::NotAnObject,
            DecodeError::InvalidField(f) => DecodeErrorView::InvalidField(f@),
        }
    }
}

/// Model of a decoding result.
pub open spec fn result_view<T: View>(r: Result<T, DecodeError>) -> Result<T::V, DecodeErrorView> {
    match r {
        Ok(t) => Ok(t@),
        Err(e) => Err(e@),
    }
}

pub fn invalid_field(name: &str) -> (r: DecodeError)
    ensures
        r@ == DecodeErrorView::InvalidField(name@),
{
    DecodeError::InvalidField(name.to_owned())
}

pub open spec fn read_string(j: Option<JsonView>) -> Option<Seq<char>> {
    match j {
        Some(JsonView::Str(s)) => Some(s),
        _ => None,
    }
}

pub open spec fn read_bool(j: Option<JsonView>) -> Option<bool> {
    match j {
        Some(JsonView::Bool(b)) => Some(b),
        _ => None,
    }
}

pub open spec fn read_url(j: Option<JsonView>) -> Option<UrlView> {
    match j {
        Some(JsonView::Str(s)) => parsed_url(s),
        _ => None,
    }
}

pub open spec fn read_u32(j: Option<JsonView>) -> Option<u32> {
    match j {
        Some(JsonView::Number(NumberView::Unsigned(n))) => if n <= u32::MAX {
            Some(n as u32)
        } else {
            None
        },
        _ => None,
    }
}

/// Optional text property `key`.
pub fn field_string(j: &JsonValue, key: &str) -> (r: Option<String>)
    ensures
        opt_view(r) == read_string(j@.get_present(key@)),
{
    match j.get_present(key) {
        Some(JsonValue::Str(s)) => Some(s.clone()),
        _ => None,
    }
}

/// Optional boolean property `key`.
pub fn field_bool(j: &JsonValue, key: &str) -> (r: Option<bool>)
    ensures
        r == read_bool(j@.get_present(key@)),
{
    match j.get_present(key) {
        Some(JsonValue::Bool(b)) => Some(*b),
        _ => None,
    }
}

/// Optional URL property `key`.
pub fn field_url(j: &JsonValue, key: &str) -> (r: Option<Url>)
    ensures
        opt_view(r) == read_url(j@.get_present(key@)),
{
    match j.get_present(key) {
        Some(JsonValue::Str(s)) => Url::parse(s.as_str()),
        _ => None,
    }
}

/// Optional non-negative 32-bit integer property `key`.
pub fn field_u32(j: &JsonValue, key: &str) -> (r: Option<u32>)
    ensures
        r == read_u32(j@.get_present(key@)),
{
    match j.get_present(key) {
        Some(JsonValue::Number(JsonNumber::Unsigned(n))) => if *n <= 4294967295u64 {
            Some(*n as u32)
        } else {
            None
        },
        _ => None,
    }
}

/// Encoding of an optional text.
pub open spec fn string_or_null(s: Option<Seq<char>>) -> JsonView {
    match s {
        Some(t) => JsonView::Str(t),
        None => JsonView::Null,
    }
}

pub open spec fn bool_or_null(b: Option<bool>) -> JsonView {
    match b {
        Some(v) => JsonView::Bool(v),
        None => JsonView::Null,
    }
}

pub open spec fn url_or_null(u: Option<UrlView>) -> JsonView {
    match u {
        Some(v) => JsonView::Str(v.href),
        None => JsonView::Null,
    }
}

pub open spec fn u32_or_null(n: Option<u32>) -> JsonView {
    match n {
        Some(v) => JsonView::Number(NumberView::Unsigned(v as u64)),
        None => JsonView::Null,
    }
}

pub fn string_json(s: &Option<String>) -> (r: JsonValue)
    ensures
        r@ == string_or_null(opt_view(*s)),
{
    match s {
        Some(t) => JsonValue::Str(t.clone()),
        None => JsonValue::Null,
    }
}

pub fn bool_json(b: Option<bool>) -> (r: JsonValue)
    ensures
        r@ == bool_or_null(b),
{
    match b {
        Some(v) => JsonValue::Bool(v),
        None => JsonValue::Null,
    }
}

pub fn url_json(u: &Option<Url>) -> (r: JsonValue)
    ensures
        r@ == url_or_null(opt_view(*u)),
{
    match u {
        Some(v) => JsonValue::Str(v.as_str().to_owned()),
        None => JsonValue::Null,
    }
}

pub fn u32_json(n: Option<u32>) -> (r: JsonValue)
    ensures
        r@ == u32_or_null(n),
{
    match n {
        Some(v) => JsonValue::Number(JsonNumber::Unsigned(v as u64)),
        None => JsonValue::Null,
    }
}

} // verus!
