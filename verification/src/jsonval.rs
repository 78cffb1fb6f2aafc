//! Access to JSON documents through the generic serialization library.
//!
//! JSON parsing itself is an external collaborator. The parsed value is
//! opaque here, so the contracts speak of it through a spec-level document
//! model: `json_model` names the document a value holds, and each accessor
//! wrapper states what the library's source shows of that model. The
//! verified helpers then turn looked-up fields into plain optional values,
//! reporting a wrong-typed field as a decode failure exactly where a
//! schema-driven decoder would.

use vstd::prelude::*;
use vstd::string::StringExecFns;

use crate::error::ErrorKind;
use crate::strutil::segs_view;

verus! {

#[verifier::external_type_specification]
#[verifier::external_body]
pub struct ExJsonValue(serde_json::Value);

/// The spec-level shape of a JSON document. A number that is exactly an
/// integer (as the library stores signed and unsigned integers) is `Int`;
/// any other number is `Inexact` and yields no integer view.
pub enum JsonData {
    Null,
    Bool(bool),
    Int(int),
    Inexact,
    Str(Seq<char>),
    Arr(Seq<JsonData>),
    Obj(Seq<(Seq<char>, JsonData)>),
}

/// The document a parsed JSON value holds.
pub uninterp spec fn json_model(v: serde_json::Value) -> JsonData;

/// The document a JSON text parses to, a function of the text alone.
pub uninterp spec fn parsed_json(s: Seq<char>) -> JsonData;

/// Whether a text parses as JSON, a function of the text alone.
pub uninterp spec fn json_text_parses(s: Seq<char>) -> bool;

/// The value under a key of an object's entries, if any.
pub open spec fn entries_lookup(entries: Seq<(Seq<char>, JsonData)>, key: Seq<char>) -> Option<
    JsonData,
>
    decreases entries.len(),
{
    if entries.len() == 0 {
        None
    } else if entries[0].0 == key {
        Some(entries[0].1)
    } else {
        entries_lookup(entries.drop_first(), key)
    }
}

/// The value under a key of a document: None when the document is no
/// object or has no such key.
pub open spec fn obj_lookup(d: JsonData, key: Seq<char>) -> Option<JsonData> {
    match d {
        JsonData::Obj(entries) => entries_lookup(entries, key),
        _ => None,
    }
}

/// A field the wire treats as absent: missing or explicitly null.
pub open spec fn absent_or_null(f: Option<JsonData>) -> bool {
    f is None || f == Some(JsonData::Null)
}

/// An integer field within the given bounds.
pub open spec fn int_in_range(f: Option<JsonData>, lo: int, hi: int) -> bool {
    f matches Some(JsonData::Int(n)) && lo <= n <= hi
}

/// The string documents of a sequence of texts.
pub open spec fn str_items(xs: Seq<Seq<char>>) -> Seq<JsonData> {
    xs.map_values(|x: Seq<char>| JsonData::Str(x))
}

/// An array document whose elements are all strings.
pub open spec fn str_array(f: Option<JsonData>) -> bool {
    f matches Some(JsonData::Arr(elems)) && (forall|i: int|
        0 <= i < elems.len() ==> elems[i] is Str)
}

/// An optional string field holds exactly the optional value.
pub open spec fn opt_str_field_matches(d: JsonData, key: Seq<char>, o: Option<String>) -> bool {
    match o {
        Some(s) => obj_lookup(d, key) == Some(JsonData::Str(s@)),
        None => absent_or_null(obj_lookup(d, key)),
    }
}

/// An optional list-of-strings field holds exactly the optional list.
pub open spec fn opt_strs_field_matches(d: JsonData, key: Seq<char>, o: Option<Vec<String>>) -> bool {
    match o {
        Some(list) => obj_lookup(d, key) matches Some(JsonData::Arr(elems)) && elems == str_items(
            segs_view(list@),
        ),
        None => absent_or_null(obj_lookup(d, key)),
    }
}

/// An optional u32 field holds exactly the optional value.
pub open spec fn opt_u32_field_matches(d: JsonData, key: Seq<char>, o: Option<u32>) -> bool {
    match o {
        Some(n) => obj_lookup(d, key) == Some(JsonData::Int(n as int)),
        None => absent_or_null(obj_lookup(d, key)),
    }
}

/// An optional u16 field holds exactly the optional value.
pub open spec fn opt_u16_field_matches(d: JsonData, key: Seq<char>, o: Option<u16>) -> bool {
    match o {
        Some(n) => obj_lookup(d, key) == Some(JsonData::Int(n as int)),
        None => absent_or_null(obj_lookup(d, key)),
    }
}

/// An optional u8 field holds exactly the optional value.
pub open spec fn opt_u8_field_matches(d: JsonData, key: Seq<char>, o: Option<u8>) -> bool {
    match o {
        Some(n) => obj_lookup(d, key) == Some(JsonData::Int(n as int)),
        None => absent_or_null(obj_lookup(d, key)),
    }
}

/// An optional i8 field holds exactly the optional value.
pub open spec fn opt_i8_field_matches(d: JsonData, key: Seq<char>, o: Option<i8>) -> bool {
    match o {
        Some(n) => obj_lookup(d, key) == Some(JsonData::Int(n as int)),
        None => absent_or_null(obj_lookup(d, key)),
    }
}

/// A field that decodes as an optional string: absent, null, or a string.
pub open spec fn opt_str_field_ok(d: JsonData, key: Seq<char>) -> bool {
    absent_or_null(obj_lookup(d, key)) || obj_lookup(d, key) matches Some(JsonData::Str(_))
}

/// A field that decodes as an optional list of strings.
pub open spec fn opt_strs_field_ok(d: JsonData, key: Seq<char>) -> bool {
    absent_or_null(obj_lookup(d, key)) || str_array(obj_lookup(d, key))
}

/// A field that decodes as an optional u32.
pub open spec fn opt_u32_field_ok(d: JsonData, key: Seq<char>) -> bool {
    absent_or_null(obj_lookup(d, key)) || int_in_range(obj_lookup(d, key), 0, u32::MAX as int)
}

/// A field that decodes as an optional u16.
pub open spec fn opt_u16_field_ok(d: JsonData, key: Seq<char>) -> bool {
    absent_or_null(obj_lookup(d, key)) || int_in_range(obj_lookup(d, key), 0, u16::MAX as int)
}

/// A field that decodes as an optional u8.
pub open spec fn opt_u8_field_ok(d: JsonData, key: Seq<char>) -> bool {
    absent_or_null(obj_lookup(d, key)) || int_in_range(obj_lookup(d, key), 0, u8::MAX as int)
}

/// A field that decodes as an optional i8.
pub open spec fn opt_i8_field_ok(d: JsonData, key: Seq<char>) -> bool {
    absent_or_null(obj_lookup(d, key)) || int_in_range(
        obj_lookup(d, key),
        i8::MIN as int,
        i8::MAX as int,
    )
}

/// Relies on serde_json::from_str::<Value>: parses one JSON document
/// deterministically; a parse failure is handed back as the description
/// its Display impl gives.
#[verifier::external_body]
pub fn json_parse(s: &str) -> (r: Result<serde_json::Value, String>)
    ensures
        r is Ok <==> json_text_parses(s@),
        r matches Ok(v) ==> json_model(v) == parsed_json(s@),
{
    match serde_json::from_str(s) {
        Ok(v) => Ok(v),
        Err(e) => Err(format!("{}", e)),
    }
}

/// Relies on serde_json::Value::get with a string index: the value under a
/// key of a JSON object, None if the value is no object or has no such key.
#[verifier::external_body]
pub fn json_get<'a>(v: &'a serde_json::Value, key: &str) -> (r: Option<&'a serde_json::Value>)
    ensures
        match r {
            Some(x) => obj_lookup(json_model(*v), key@) == Some(json_model(*x)),
            None => obj_lookup(json_model(*v), key@) is None,
        },
{
    v.get(key)
}

/// Relies on serde_json::Value::is_null.
#[verifier::external_body]
pub fn json_is_null(v: &serde_json::Value) -> (r: bool)
    ensures
        r == (json_model(*v) is Null),
{
    v.is_null()
}

/// Relies on serde_json::Value::as_i64: the value as a signed integer,
/// None if it is no exact integer or does not fit.
#[verifier::external_body]
pub fn json_as_i64(v: &serde_json::Value) -> (r: Option<i64>)
    ensures
        r == (match json_model(*v) {
            JsonData::Int(n) => if i64::MIN <= n <= i64::MAX {
                Some(n as i64)
            } else {
                None::<i64>
            },
            _ => None::<i64>,
        }),
{
    v.as_i64()
}

/// Relies on serde_json::Value::as_u64: the value as an unsigned integer,
/// None if it is no exact non-negative integer.
#[verifier::external_body]
pub fn json_as_u64(v: &serde_json::Value) -> (r: Option<u64>)
    ensures
        r == (match json_model(*v) {
            JsonData::Int(n) => if 0 <= n <= u64::MAX {
                Some(n as u64)
            } else {
                None::<u64>
            },
            _ => None::<u64>,
        }),
{
    v.as_u64()
}

/// Relies on serde_json::Value::as_str: the value as a string, None if it
/// is none.
#[verifier::external_body]
pub fn json_as_str<'a>(v: &'a serde_json::Value) -> (r: Option<&'a str>)
    ensures
        match r {
            Some(s) => json_model(*v) == JsonData::Str(s@),
            None => !(json_model(*v) is Str),
        },
{
    v.as_str()
}

/// Relies on serde_json::Value::as_bool: the value as a boolean, None if
/// it is none.
#[verifier::external_body]
pub fn json_as_bool(v: &serde_json::Value) -> (r: Option<bool>)
    ensures
        r == (match json_model(*v) {
            JsonData::Bool(b) => Some(b),
            _ => None::<bool>,
        }),
{
    v.as_bool()
}

/// Relies on serde_json::Value::as_array: the elements of a JSON array in
/// order, None if the value is no array.
#[verifier::external_body]
pub fn json_as_array<'a>(v: &'a serde_json::Value) -> (r: Option<&'a Vec<serde_json::Value>>)
    ensures
        match r {
            Some(items) => json_model(*v) matches JsonData::Arr(elems) && elems.len()
                == items@.len() && (forall|i: int|
                0 <= i < elems.len() ==> elems[i] == json_model(items@[i])),
            None => !(json_model(*v) is Arr),
        },
{
    v.as_array()
}

/// A decode failure naming the field that did not match the wire shape.
pub fn field_decode_error(key: &str) -> (r: crate::error::Error)
    ensures
        r.0 matches ErrorKind::Decode(_),
{
    let mut msg = String::from_str(key);
    msg.append(": field does not match the expected shape");
    crate::error::Error(ErrorKind::Decode(msg))
}

/// Looks a field up: absent or null yields Ok(None); a present field that
/// is no integer, or one outside i64, is a decode failure.
pub fn json_field_i64(v: &serde_json::Value, key: &str) -> (r: Result<
    Option<i64>,
    crate::error::Error,
>)
    ensures
        ({
            let f = obj_lookup(json_model(*v), key@);
            match r {
                Ok(o) => match o {
                    None => absent_or_null(f),
                    Some(n) => f == Some(JsonData::Int(n as int)),
                },
                Err(e) => e.0 matches ErrorKind::Decode(_) && !absent_or_null(f) && !int_in_range(
                    f,
                    i64::MIN as int,
                    i64::MAX as int,
                ),
            }
        }),
{
    match json_get(v, key) {
        None => Ok(None),
        Some(x) => {
            if json_is_null(x) {
                Ok(None)
            } else {
                match json_as_i64(x) {
                    Some(n) => Ok(Some(n)),
                    None => Err(field_decode_error(key)),
                }
            }
        },
    }
}

/// Looks a field up: absent or null yields Ok(None); a present field that
/// is no unsigned integer fitting u64 is a decode failure.
pub fn json_field_u64(v: &serde_json::Value, key: &str) -> (r: Result<
    Option<u64>,
    crate::error::Error,
>)
    ensures
        ({
            let f = obj_lookup(json_model(*v), key@);
            match r {
                Ok(o) => match o {
                    None => absent_or_null(f),
                    Some(n) => f == Some(JsonData::Int(n as int)),
                },
                Err(e) => e.0 matches ErrorKind::Decode(_) && !absent_or_null(f) && !int_in_range(
                    f,
                    0,
                    u64::MAX as int,
                ),
            }
        }),
{
    match json_get(v, key) {
        None => Ok(None),
        Some(x) => {
            if json_is_null(x) {
                Ok(None)
            } else {
                match json_as_u64(x) {
                    Some(n) => Ok(Some(n)),
                    None => Err(field_decode_error(key)),
                }
            }
        },
    }
}

/// Looks a field up: absent or null yields Ok(None); a present field that
/// is no string is a decode failure.
pub fn json_field_string(v: &serde_json::Value, key: &str) -> (r: Result<
    Option<String>,
    crate::error::Error,
>)
    ensures
        ({
            let f = obj_lookup(json_model(*v), key@);
            match r {
                Ok(o) => match o {
                    None => absent_or_null(f),
                    Some(s) => f == Some(JsonData::Str(s@)),
                },
                Err(e) => e.0 matches ErrorKind::Decode(_) && !absent_or_null(f) && !(f
                    matches Some(JsonData::Str(_))),
            }
        }),
{
    match json_get(v, key) {
        None => Ok(None),
        Some(x) => {
            if json_is_null(x) {
                Ok(None)
            } else {
                match json_as_str(x) {
                    Some(s) => Ok(Some(s.to_owned())),
                    None => Err(field_decode_error(key)),
                }
            }
        },
    }
}

/// Looks a field up: absent or null yields Ok(None); a present field that
/// is no boolean is a decode failure.
pub fn json_field_bool(v: &serde_json::Value, key: &str) -> (r: Result<
    Option<bool>,
    crate::error::Error,
>)
    ensures
        ({
            let f = obj_lookup(json_model(*v), key@);
            match r {
                Ok(o) => match o {
                    None => absent_or_null(f),
                    Some(b) => f == Some(JsonData::Bool(b)),
                },
                Err(e) => e.0 matches ErrorKind::Decode(_) && !absent_or_null(f) && !(f
                    matches Some(JsonData::Bool(_))),
            }
        }),
{
    match json_get(v, key) {
        None => Ok(None),
        Some(x) => {
            if json_is_null(x) {
                Ok(None)
            } else {
                match json_as_bool(x) {
                    Some(b) => Ok(Some(b)),
                    None => Err(field_decode_error(key)),
                }
            }
        },
    }
}

/// Looks a field up: absent or null yields Ok(None); a present field that
/// is no array of strings is a decode failure.
pub fn json_field_string_list(v: &serde_json::Value, key: &str) -> (r: Result<
    Option<Vec<String>>,
    crate::error::Error,
>)
    ensures
        ({
            let f = obj_lookup(json_model(*v), key@);
            match r {
                Ok(o) => match o {
                    None => absent_or_null(f),
                    Some(list) => f matches Some(JsonData::Arr(elems)) && elems == str_items(
                        segs_view(list@),
                    ),
                },
                Err(e) => e.0 matches ErrorKind::Decode(_) && !absent_or_null(f) && !str_array(f),
            }
        }),
{
    match json_get(v, key) {
        None => Ok(None),
        Some(x) => {
            if json_is_null(x) {
                Ok(None)
            } else {
                match json_as_array(x) {
                    None => Err(field_decode_error(key)),
                    Some(items) => {
                        let ghost elems = json_model(*x)->Arr_0;
                        let mut out: Vec<String> = Vec::new();
                        let mut i: usize = 0;
                        while i < items.len()
                            invariant
                                i <= items.len(),
                                out@.len() == i,
                                elems.len() == items@.len(),
                                json_model(*x) == JsonData::Arr(elems),
                                obj_lookup(json_model(*v), key@) == Some(JsonData::Arr(elems)),
                                forall|j: int|
                                    0 <= j < elems.len() ==> elems[j] == json_model(items@[j]),
                                forall|j: int|
                                    0 <= j < i ==> elems[j] == JsonData::Str(out@[j]@),
                            decreases items.len() - i,
                        {
                            match json_as_str(&items[i]) {
                                Some(s) => out.push(s.to_owned()),
                                None => {
                                    proof {
                                        assert(elems[i as int] == json_model(items@[i as int]));
                                        assert(!(elems[i as int] is Str));
                                        assert(!str_array(Some(JsonData::Arr(elems))));
                                        assert(obj_lookup(json_model(*v), key@) == Some(
                                            JsonData::Arr(elems),
                                        ));
                                    }
                                    return Err(field_decode_error(key));
                                },
                            }
                            i = i + 1;
                        }
                        proof {
                            assert(elems =~= str_items(segs_view(out@)));
                        }
                        Ok(Some(out))
                    },
                }
            }
        },
    }
}

/// Unwraps a boolean field the wire contract requires: its absence is a
/// decode failure.
pub fn require_bool(o: Option<bool>, key: &str) -> (r: Result<bool, crate::error::Error>)
    ensures
        match o {
            Some(b) => r matches Ok(c) && c == b,
            None => r matches Err(e) && e.0 matches ErrorKind::Decode(_),
        },
{
    match o {
        Some(b) => Ok(b),
        None => Err(field_decode_error(key)),
    }
}

/// Looks an optional i32 field up: a wrong-typed or out-of-range value is
/// a decode failure.
pub fn field_i32(v: &serde_json::Value, key: &str) -> (r: Result<Option<i32>, crate::error::Error>)
    ensures
        ({
            let f = obj_lookup(json_model(*v), key@);
            match r {
                Ok(o) => match o {
                    None => absent_or_null(f),
                    Some(n) => f == Some(JsonData::Int(n as int)),
                },
                Err(e) => e.0 matches ErrorKind::Decode(_) && !absent_or_null(f) && !int_in_range(
                    f,
                    i32::MIN as int,
                    i32::MAX as int,
                ),
            }
        }),
{
    let o = match json_field_i64(v, key) {
        Ok(x) => x,
        Err(e) => {
            return Err(e);
        },
    };
    narrow_opt_i32(o, key)
}

/// Looks an optional i8 field up: a wrong-typed or out-of-range value is
/// a decode failure.
pub fn field_i8(v: &serde_json::Value, key: &str) -> (r: Result<Option<i8>, crate::error::Error>)
    ensures
        ({
            let f = obj_lookup(json_model(*v), key@);
            match r {
                Ok(o) => match o {
                    None => absent_or_null(f),
                    Some(n) => f == Some(JsonData::Int(n as int)),
                },
                Err(e) => e.0 matches ErrorKind::Decode(_) && !absent_or_null(f) && !int_in_range(
                    f,
                    i8::MIN as int,
                    i8::MAX as int,
                ),
            }
        }),
{
    let o = match json_field_i64(v, key) {
        Ok(x) => x,
        Err(e) => {
            return Err(e);
        },
    };
    narrow_opt_i8(o, key)
}

/// Looks an optional u32 field up: a wrong-typed or out-of-range value is
/// a decode failure.
pub fn field_u32(v: &serde_json::Value, key: &str) -> (r: Result<Option<u32>, crate::error::Error>)
    ensures
        ({
            let f = obj_lookup(json_model(*v), key@);
            match r {
                Ok(o) => match o {
                    None => absent_or_null(f),
                    Some(n) => f == Some(JsonData::Int(n as int)),
                },
                Err(e) => e.0 matches ErrorKind::Decode(_) && !absent_or_null(f) && !int_in_range(
                    f,
                    0,
                    u32::MAX as int,
                ),
            }
        }),
{
    let o = match json_field_u64(v, key) {
        Ok(x) => x,
        Err(e) => {
            return Err(e);
        },
    };
    narrow_opt_u32(o, key)
}

/// Looks an optional u16 field up: a wrong-typed or out-of-range value is
/// a decode failure.
pub fn field_u16(v: &serde_json::Value, key: &str) -> (r: Result<Option<u16>, crate::error::Error>)
    ensures
        ({
            let f = obj_lookup(json_model(*v), key@);
            match r {
                Ok(o) => match o {
                    None => absent_or_null(f),
                    Some(n) => f == Some(JsonData::Int(n as int)),
                },
                Err(e) => e.0 matches ErrorKind::Decode(_) && !absent_or_null(f) && !int_in_range(
                    f,
                    0,
                    u16::MAX as int,
                ),
            }
        }),
{
    let o = match json_field_u64(v, key) {
        Ok(x) => x,
        Err(e) => {
            return Err(e);
        },
    };
    narrow_opt_u16(o, key)
}

/// Looks an optional u8 field up: a wrong-typed or out-of-range value is
/// a decode failure.
pub fn field_u8(v: &serde_json::Value, key: &str) -> (r: Result<Option<u8>, crate::error::Error>)
    ensures
        ({
            let f = obj_lookup(json_model(*v), key@);
            match r {
                Ok(o) => match o {
                    None => absent_or_null(f),
                    Some(n) => f == Some(JsonData::Int(n as int)),
                },
                Err(e) => e.0 matches ErrorKind::Decode(_) && !absent_or_null(f) && !int_in_range(
                    f,
                    0,
                    u8::MAX as int,
                ),
            }
        }),
{
    let o = match json_field_u64(v, key) {
        Ok(x) => x,
        Err(e) => {
            return Err(e);
        },
    };
    narrow_opt_u8(o, key)
}

/// Narrows an optional wire integer to i32: a value outside the range is a
/// decode failure.
pub fn narrow_opt_i32(o: Option<i64>, key: &str) -> (r: Result<Option<i32>, crate::error::Error>)
    ensures
        match o {
            None => r matches Ok(None),
            Some(n) => if i32::MIN <= n <= i32::MAX {
                r matches Ok(Some(m)) && m == n
            } else {
                r matches Err(e) && e.0 matches ErrorKind::Decode(_)
            },
        },
{
    match o {
        None => Ok(None),
        Some(n) => {
            if i32::MIN as i64 <= n && n <= i32::MAX as i64 {
                Ok(Some(n as i32))
            } else {
                Err(field_decode_error(key))
            }
        },
    }
}

/// Narrows an optional wire integer to i8: a value outside the range is a
/// decode failure.
pub fn narrow_opt_i8(o: Option<i64>, key: &str) -> (r: Result<Option<i8>, crate::error::Error>)
    ensures
        match o {
            None => r matches Ok(None),
            Some(n) => if i8::MIN <= n <= i8::MAX {
                r matches Ok(Some(m)) && m == n
            } else {
                r matches Err(e) && e.0 matches ErrorKind::Decode(_)
            },
        },
{
    match o {
        None => Ok(None),
        Some(n) => {
            if i8::MIN as i64 <= n && n <= i8::MAX as i64 {
                Ok(Some(n as i8))
            } else {
                Err(field_decode_error(key))
            }
        },
    }
}

/// Narrows an optional wire integer to u32: a value above the range is a
/// decode failure.
pub fn narrow_opt_u32(o: Option<u64>, key: &str) -> (r: Result<Option<u32>, crate::error::Error>)
    ensures
        match o {
            None => r matches Ok(None),
            Some(n) => if n <= u32::MAX {
                r matches Ok(Some(m)) && m == n
            } else {
                r matches Err(e) && e.0 matches ErrorKind::Decode(_)
            },
        },
{
    match o {
        None => Ok(None),
        Some(n) => {
            if n <= u32::MAX as u64 {
                Ok(Some(n as u32))
            } else {
                Err(field_decode_error(key))
            }
        },
    }
}

/// Narrows an optional wire integer to u16: a value above the range is a
/// decode failure.
pub fn narrow_opt_u16(o: Option<u64>, key: &str) -> (r: Result<Option<u16>, crate::error::Error>)
    ensures
        match o {
            None => r matches Ok(None),
            Some(n) => if n <= u16::MAX {
                r matches Ok(Some(m)) && m == n
            } else {
                r matches Err(e) && e.0 matches ErrorKind::Decode(_)
            },
        },
{
    match o {
        None => Ok(None),
        Some(n) => {
            if n <= u16::MAX as u64 {
                Ok(Some(n as u16))
            } else {
                Err(field_decode_error(key))
            }
        },
    }
}

/// Narrows an optional wire integer to u8: a value above the range is a
/// decode failure.
pub fn narrow_opt_u8(o: Option<u64>, key: &str) -> (r: Result<Option<u8>, crate::error::Error>)
    ensures
        match o {
            None => r matches Ok(None),
            Some(n) => if n <= u8::MAX {
                r matches Ok(Some(m)) && m == n
            } else {
                r matches Err(e) && e.0 matches ErrorKind::Decode(_)
            },
        },
{
    match o {
        None => Ok(None),
        Some(n) => {
            if n <= u8::MAX as u64 {
                Ok(Some(n as u8))
            } else {
                Err(field_decode_error(key))
            }
        },
    }
}

/// Unwraps a field the wire contract requires on every response: its
/// absence is a decode failure.
pub fn require_i32(o: Option<i32>, key: &str) -> (r: Result<i32, crate::error::Error>)
    ensures
        match o {
            Some(n) => r matches Ok(m) && m == n,
            None => r matches Err(e) && e.0 matches ErrorKind::Decode(_),
        },
{
    match o {
        Some(n) => Ok(n),
        None => Err(field_decode_error(key)),
    }
}

/// Unwraps a string field the wire contract requires on every response:
/// its absence is a decode failure.
pub fn require_string(o: Option<String>, key: &str) -> (r: Result<String, crate::error::Error>)
    ensures
        match o {
            Some(s) => r matches Ok(t) && t == s,
            None => r matches Err(e) && e.0 matches ErrorKind::Decode(_),
        },
{
    match o {
        Some(s) => Ok(s),
        None => Err(field_decode_error(key)),
    }
}

} // verus!
