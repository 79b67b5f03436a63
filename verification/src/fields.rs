//! Members of the arguments and results of a call.

use vstd::prelude::*;

use crate::json::opt_ref_view;
use crate::json::Json;
use crate::json::JsonView;
use crate::number::parse_i32;
use crate::number::parse_i64;
use crate::number::parsed_int;
use crate::number::within;
use crate::text::opt_text;
use crate::text::trim;
use crate::text::trimmed;

verus! {

pub fn is_blank(s: &str) -> (r: bool)
    ensures
        r == (trimmed(s@).len() == 0),
{
    trim(s).as_str().unicode_len() == 0
}

/// A text without the white space around it, where something is left.
pub open spec fn filled(s: Option<Seq<char>>) -> Option<Seq<char>> {
    match s {
        Some(s) => if trimmed(s).len() > 0 {
            Some(trimmed(s))
        } else {
            None
        },
        None => None,
    }
}

/// The member `field` where it is text other than white space, without the white space
/// around it.
pub open spec fn filled_field(v: JsonView, field: Seq<char>) -> Option<Seq<char>> {
    filled(v.text_field(field))
}

pub fn optional_string_field(value: &Json, field: &str) -> (r: Option<String>)
    ensures
        opt_text(r) == filled_field(value@, field@),
{
    match value.text_of(field) {
        Some(s) => {
            let t = trim(s);
            if t.as_str().unicode_len() > 0 {
                Some(t)
            } else {
                None
            }
        },
        None => None,
    }
}

pub open spec fn or_else(a: Option<Seq<char>>, b: Option<Seq<char>>) -> Option<Seq<char>> {
    match a {
        Some(_) => a,
        None => b,
    }
}

pub open spec fn or_text(a: Option<Seq<char>>, b: Seq<char>) -> Seq<char> {
    match a {
        Some(a) => a,
        None => b,
    }
}

/// The first of two members that is filled in.
pub fn optional_string_field2(value: &Json, field: &str, other: &str) -> (r: Option<String>)
    ensures
        opt_text(r) == or_else(filled_field(value@, field@), filled_field(value@, other@)),
{
    match optional_string_field(value, field) {
        Some(s) => Some(s),
        None => optional_string_field(value, other),
    }
}

/// The integer that a value holds, as a number or as decimal text.
pub open spec fn integer_in(v: JsonView, low: int, high: int) -> Option<int> {
    match v {
        JsonView::Int(n) => within(Some(n), low, high),
        JsonView::Str(s) => within(parsed_int(s), low, high),
        _ => None,
    }
}

pub open spec fn long_of(v: JsonView) -> Option<i64> {
    match integer_in(v, i64::MIN as int, i64::MAX as int) {
        Some(n) => Some(n as i64),
        None => None,
    }
}

pub open spec fn word_of(v: JsonView) -> Option<i32> {
    match integer_in(v, i32::MIN as int, i32::MAX as int) {
        Some(n) => Some(n as i32),
        None => None,
    }
}

pub fn json_i64(value: &Json) -> (r: Option<i64>)
    ensures
        r == long_of(value@),
{
    match value {
        Json::Int(_) => value.as_i64(),
        Json::Str(s) => parse_i64(s.as_str()),
        _ => None,
    }
}

pub fn json_i32(value: &Json) -> (r: Option<i32>)
    ensures
        r == word_of(value@),
{
    match value {
        Json::Int(n) => if -0x8000_0000 <= *n && *n <= 0x7fff_ffff {
            Some(*n as i32)
        } else {
            None
        },
        Json::Str(s) => parse_i32(s.as_str()),
        _ => None,
    }
}

/// A member of the metadata of a result.
pub open spec fn meta(v: JsonView, field: Seq<char>) -> Option<JsonView> {
    v.field2("metadata"@, field)
}

pub open spec fn meta_text(v: JsonView, field: Seq<char>) -> Option<Seq<char>> {
    v.text_field2("metadata"@, field)
}

pub open spec fn meta_long(v: JsonView, field: Seq<char>) -> Option<i64> {
    match meta(v, field) {
        Some(v) => long_of(v),
        None => None,
    }
}

pub open spec fn meta_exit_code(v: JsonView) -> Option<i32> {
    match meta(v, "exitCode"@) {
        Some(v) => word_of(v),
        None => None,
    }
}

pub fn metadata_string(value: &Json, field: &str) -> (r: Option<String>)
    ensures
        opt_text(r) == meta_text(value@, field@),
{
    match value.text_of2("metadata", field) {
        Some(s) => Some(s.to_owned()),
        None => None,
    }
}

pub fn metadata_i64(value: &Json, field: &str) -> (r: Option<i64>)
    ensures
        r == meta_long(value@, field@),
{
    match value.get2("metadata", field) {
        Some(v) => json_i64(v),
        None => None,
    }
}

pub fn metadata_exit_code_i32(value: &Json) -> (r: Option<i32>)
    ensures
        r == meta_exit_code(value@),
{
    match value.get2("metadata", "exitCode") {
        Some(v) => json_i32(v),
        None => None,
    }
}

/// The unsigned number in a member, `0` where there is none.
pub open spec fn count_of(v: Option<JsonView>) -> int {
    match v {
        Some(v) => match v.unsigned() {
            Some(n) => n,
            None => 0,
        },
        None => 0,
    }
}

pub fn read_count(v: Option<&Json>) -> (r: u64)
    ensures
        r == count_of(opt_ref_view(v)),
{
    match v {
        Some(v) => match v.as_u64() {
            Some(n) => n,
            None => 0,
        },
        None => 0,
    }
}

/// A value with a member of its metadata set; metadata that is no object is replaced by
/// one.
pub open spec fn with_meta(v: JsonView, field: Seq<char>, data: JsonView) -> JsonView {
    let metadata = match v.field("metadata"@) {
        Some(JsonView::Obj(m)) => m,
        _ => Map::empty(),
    };
    let members = match v {
        JsonView::Obj(m) => m,
        _ => Map::empty(),
    };
    JsonView::Obj(members.insert("metadata"@, JsonView::Obj(metadata.insert(field, data))))
}

/// Sets a member of the metadata of a result.
pub fn set_metadata_field(value: Json, field: &str, data: Json) -> (r: Json)
    requires
        value@ is Obj || value@ is Null,
    ensures
        r@ == with_meta(value@, field@, data@),
{
    let mut object = match value {
        Json::Object(o) => o,
        _ => crate::json::JsonObject::new(),
    };
    let ghost members = object@;
    let metadata = match object.remove("metadata") {
        Some(Json::Object(m)) => m.with(field, data),
        _ => crate::json::JsonObject::new().with(field, data),
    };
    object.insert("metadata", Json::Object(metadata));
    assert(object@ =~= members.insert("metadata"@, JsonView::Obj(metadata@)));
    Json::Object(object)
}

} // verus!
