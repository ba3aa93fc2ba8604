//! A JSON document held as plain values, with verified field accessors.
//!
//! Parsing text into a document is delegated to an outside parser behind
//! [`parse_json`]; everything that reads a document — field lookup, the
//! typed accessors the resource decoders build on — is verified here.

use crate::error::DecodeError;
use vstd::prelude::*;

verus! {

/// A JSON document.
///
/// A number is kept twice over: as an unsigned integer where its value is
/// one, and as its literal text in any case, so that fractional values can
/// be carried without the library holding floating point.  An object is a
/// field list in source order; lookup takes the first binding of a key.
#[derive(Debug, PartialEq, Eq)]
pub enum Json {
    Null,
    Bool(bool),
    Num(Option<u64>, String),
    Str(String),
    Arr(Vec<Json>),
    Obj(Vec<(String, Json)>),
}

/// The first binding of `key` in a field list, if any.
pub open spec fn spec_lookup(fields: Seq<(String, Json)>, key: Seq<char>) -> Option<Json>
    decreases fields.len(),
{
    if fields.len() == 0 {
        None
    } else if fields[0].0@ == key {
        Some(fields[0].1)
    } else {
        spec_lookup(fields.skip(1), key)
    }
}

/// The value of `key` in `j`, if `j` is an object that binds it.
pub open spec fn spec_field(j: Json, key: Seq<char>) -> Option<Json> {
    match j {
        Json::Obj(fields) => spec_lookup(fields@, key),
        _ => None,
    }
}

proof fn lemma_lookup_step(fields: Seq<(String, Json)>, key: Seq<char>, i: int)
    requires
        0 <= i < fields.len(),
        fields[i].0@ != key,
    ensures
        spec_lookup(fields.skip(i), key) == spec_lookup(fields.skip(i + 1), key),
{
    assert(fields.skip(i)[0] == fields[i]);
    assert(fields.skip(i).skip(1) =~= fields.skip(i + 1));
}

/// A reference to the first binding of `key` in `fields`, if any.
pub fn lookup<'a>(fields: &'a Vec<(String, Json)>, key: &str) -> (r: Option<&'a Json>)
    ensures
        match r {
            Some(v) => spec_lookup(fields@, key@) == Some(*v),
            None => spec_lookup(fields@, key@) is None,
        },
{
    let k: String = key.to_owned();
    let n = fields.len();
    proof {
        assert(fields@.skip(0) =~= fields@);
    }
    for i in 0..n
        invariant
            n == fields@.len(),
            k@ == key@,
            spec_lookup(fields@, key@) == spec_lookup(fields@.skip(i as int), key@),
    {
        if fields[i].0 == k {
            proof {
                assert(fields@.skip(i as int)[0] == fields@[i as int]);
            }
            return Some(&fields[i].1);
        }
        proof {
            lemma_lookup_step(fields@, key@, i as int);
        }
    }
    proof {
        assert(fields@.skip(n as int) =~= Seq::<(String, Json)>::empty());
    }
    None
}

/// A reference to the value of `key` in `j`, if `j` is an object binding it.
pub fn field<'a>(j: &'a Json, key: &str) -> (r: Option<&'a Json>)
    ensures
        match r {
            Some(v) => spec_field(*j, key@) == Some(*v),
            None => spec_field(*j, key@) is None,
        },
{
    match j {
        Json::Obj(fields) => lookup(fields, key),
        _ => None,
    }
}

/// The string bound to `key`, where the field is present and a string.
pub open spec fn spec_str_field(j: Json, key: Seq<char>) -> Option<Seq<char>> {
    match spec_field(j, key) {
        Some(Json::Str(s)) => Some(s@),
        _ => None,
    }
}

/// Reads a required string field.
pub fn str_field(j: &Json, key: &str) -> (r: Result<String, DecodeError>)
    ensures
        match r {
            Ok(s) => spec_str_field(*j, key@) == Some(s@),
            Err(e) => ({
                &&& spec_str_field(*j, key@) is None
                &&& e matches DecodeError::Field(f) && f@ == key@
            }),
        },
{
    match field(j, key) {
        Some(Json::Str(s)) => Ok(s.clone()),
        _ => Err(DecodeError::Field(key.to_owned())),
    }
}

/// The unsigned integer bound to `key`, where the field is present and its
/// value is one.
pub open spec fn spec_u64_field(j: Json, key: Seq<char>) -> Option<u64> {
    match spec_field(j, key) {
        Some(Json::Num(Some(n), _)) => Some(n),
        _ => None,
    }
}

/// Reads a required unsigned integer field.
pub fn u64_field(j: &Json, key: &str) -> (r: Result<u64, DecodeError>)
    ensures
        match r {
            Ok(n) => spec_u64_field(*j, key@) == Some(n),
            Err(e) => ({
                &&& spec_u64_field(*j, key@) is None
                &&& e matches DecodeError::Field(f) && f@ == key@
            }),
        },
{
    match field(j, key) {
        Some(Json::Num(Some(n), _)) => Ok(*n),
        _ => Err(DecodeError::Field(key.to_owned())),
    }
}

/// The unsigned integer bound to `key`, narrowed to 32 bits, where the
/// field is present and its value fits.
pub open spec fn spec_u32_field(j: Json, key: Seq<char>) -> Option<u32> {
    match spec_field(j, key) {
        Some(Json::Num(Some(n), _)) => if n <= u32::MAX {
            Some(n as u32)
        } else {
            None
        },
        _ => None,
    }
}

/// Reads a required unsigned integer field that must fit in 32 bits.
pub fn u32_field(j: &Json, key: &str) -> (r: Result<u32, DecodeError>)
    ensures
        match r {
            Ok(n) => spec_u32_field(*j, key@) == Some(n),
            Err(e) => ({
                &&& spec_u32_field(*j, key@) is None
                &&& e matches DecodeError::Field(f) && f@ == key@
            }),
        },
{
    match field(j, key) {
        Some(Json::Num(Some(n), _)) => {
            if *n <= u32::MAX as u64 {
                Ok(*n as u32)
            } else {
                Err(DecodeError::Field(key.to_owned()))
            }
        },
        _ => Err(DecodeError::Field(key.to_owned())),
    }
}

/// The boolean bound to `key`, where the field is present and a boolean.
pub open spec fn spec_bool_field(j: Json, key: Seq<char>) -> Option<bool> {
    match spec_field(j, key) {
        Some(Json::Bool(b)) => Some(b),
        _ => None,
    }
}

/// Reads a required boolean field.
pub fn bool_field(j: &Json, key: &str) -> (r: Result<bool, DecodeError>)
    ensures
        match r {
            Ok(b) => spec_bool_field(*j, key@) == Some(b),
            Err(e) => ({
                &&& spec_bool_field(*j, key@) is None
                &&& e matches DecodeError::Field(f) && f@ == key@
            }),
        },
{
    match field(j, key) {
        Some(Json::Bool(b)) => Ok(*b),
        _ => Err(DecodeError::Field(key.to_owned())),
    }
}

/// The literal text of the number bound to `key`, where the field is
/// present and a number of any kind.
pub open spec fn spec_num_text_field(j: Json, key: Seq<char>) -> Option<Seq<char>> {
    match spec_field(j, key) {
        Some(Json::Num(_, t)) => Some(t@),
        _ => None,
    }
}

/// Reads a required numeric field as its literal text.
pub fn num_text_field(j: &Json, key: &str) -> (r: Result<String, DecodeError>)
    ensures
        match r {
            Ok(t) => spec_num_text_field(*j, key@) == Some(t@),
            Err(e) => ({
                &&& spec_num_text_field(*j, key@) is None
                &&& e matches DecodeError::Field(f) && f@ == key@
            }),
        },
{
    match field(j, key) {
        Some(Json::Num(_, t)) => Ok(t.clone()),
        _ => Err(DecodeError::Field(key.to_owned())),
    }
}

/// Whether every element of `a` is a string.
pub open spec fn all_strings(a: Seq<Json>) -> bool {
    forall|i: int| 0 <= i < a.len() ==> a[i] is Str
}

/// The elements of `a` as character sequences, meaningful under
/// [`all_strings`].
pub open spec fn string_views(a: Seq<Json>) -> Seq<Seq<char>> {
    Seq::new(a.len(), |i: int| a[i]->Str_0@)
}

/// The string array bound to `key`, where the field is present, an array,
/// and every element a string.
pub open spec fn spec_str_arr_field(j: Json, key: Seq<char>) -> Option<Seq<Seq<char>>> {
    match spec_field(j, key) {
        Some(Json::Arr(a)) => if all_strings(a@) {
            Some(string_views(a@))
        } else {
            None
        },
        _ => None,
    }
}

/// Reads a required array-of-strings field.
pub fn str_arr_field(j: &Json, key: &str) -> (r: Result<Vec<String>, DecodeError>)
    ensures
        match r {
            Ok(v) => spec_str_arr_field(*j, key@) == Some(v.deep_view()),
            Err(e) => ({
                &&& spec_str_arr_field(*j, key@) is None
                &&& e matches DecodeError::Field(f) && f@ == key@
            }),
        },
{
    match field(j, key) {
        Some(Json::Arr(a)) => {
            match clone_strings(a) {
                Some(v) => Ok(v),
                None => Err(DecodeError::Field(key.to_owned())),
            }
        },
        _ => Err(DecodeError::Field(key.to_owned())),
    }
}

/// Copies an all-string element list out of a document, or reports that
/// some element is not a string.
fn clone_strings(a: &Vec<Json>) -> (r: Option<Vec<String>>)
    ensures
        match r {
            Some(v) => all_strings(a@) && v.deep_view() == string_views(a@),
            None => !all_strings(a@),
        },
{
    let mut out: Vec<String> = Vec::new();
    let n = a.len();
    for i in 0..n
        invariant
            n == a@.len(),
            out@.len() == i,
            forall|k: int| 0 <= k < i ==> a@[k] is Str,
            forall|k: int| 0 <= k < i ==> out@[k]@ == a@[k]->Str_0@,
    {
        match &a[i] {
            Json::Str(s) => out.push(s.clone()),
            _ => {
                return None;
            },
        }
    }
    proof {
        assert(out.deep_view() =~= string_views(a@));
    }
    Some(out)
}

/// The optional string bound to `key`: explicitly absent when the field is
/// missing or null, present when it is a string, and ill-shaped otherwise.
pub open spec fn spec_opt_str_field(j: Json, key: Seq<char>) -> Option<Option<Seq<char>>> {
    match spec_field(j, key) {
        None => Some(None),
        Some(Json::Null) => Some(None),
        Some(Json::Str(s)) => Some(Some(s@)),
        Some(_) => None,
    }
}

/// Reads an optional string field.
pub fn opt_str_field(j: &Json, key: &str) -> (r: Result<Option<String>, DecodeError>)
    ensures
        match r {
            Ok(o) => spec_opt_str_field(*j, key@) == Some(o.deep_view()),
            Err(e) => ({
                &&& spec_opt_str_field(*j, key@) is None
                &&& e matches DecodeError::Field(f) && f@ == key@
            }),
        },
{
    match field(j, key) {
        None => Ok(None),
        Some(Json::Null) => Ok(None),
        Some(Json::Str(s)) => Ok(Some(s.clone())),
        Some(_) => Err(DecodeError::Field(key.to_owned())),
    }
}

/// The optional 32-bit unsigned integer bound to `key`.
pub open spec fn spec_opt_u32_field(j: Json, key: Seq<char>) -> Option<Option<u32>> {
    match spec_field(j, key) {
        None => Some(None),
        Some(Json::Null) => Some(None),
        Some(Json::Num(Some(n), _)) => if n <= u32::MAX {
            Some(Some(n as u32))
        } else {
            None
        },
        Some(_) => None,
    }
}

/// Reads an optional unsigned integer field that must fit in 32 bits.
pub fn opt_u32_field(j: &Json, key: &str) -> (r: Result<Option<u32>, DecodeError>)
    ensures
        match r {
            Ok(o) => spec_opt_u32_field(*j, key@) == Some(o),
            Err(e) => ({
                &&& spec_opt_u32_field(*j, key@) is None
                &&& e matches DecodeError::Field(f) && f@ == key@
            }),
        },
{
    match field(j, key) {
        None => Ok(None),
        Some(Json::Null) => Ok(None),
        Some(Json::Num(Some(n), _)) => {
            if *n <= u32::MAX as u64 {
                Ok(Some(*n as u32))
            } else {
                Err(DecodeError::Field(key.to_owned()))
            }
        },
        Some(_) => Err(DecodeError::Field(key.to_owned())),
    }
}

/// The optional string array bound to `key`.
pub open spec fn spec_opt_str_arr_field(j: Json, key: Seq<char>) -> Option<Option<Seq<Seq<char>>>> {
    match spec_field(j, key) {
        None => Some(None),
        Some(Json::Null) => Some(None),
        Some(Json::Arr(a)) => if all_strings(a@) {
            Some(Some(string_views(a@)))
        } else {
            None
        },
        Some(_) => None,
    }
}

/// Reads an optional array-of-strings field.
pub fn opt_str_arr_field(j: &Json, key: &str) -> (r: Result<Option<Vec<String>>, DecodeError>)
    ensures
        match r {
            Ok(o) => spec_opt_str_arr_field(*j, key@) == Some(o.deep_view()),
            Err(e) => ({
                &&& spec_opt_str_arr_field(*j, key@) is None
                &&& e matches DecodeError::Field(f) && f@ == key@
            }),
        },
{
    match field(j, key) {
        None => Ok(None),
        Some(Json::Null) => Ok(None),
        Some(Json::Arr(a)) => {
            match clone_strings(a) {
                Some(v) => Ok(Some(v)),
                None => Err(DecodeError::Field(key.to_owned())),
            }
        },
        Some(_) => Err(DecodeError::Field(key.to_owned())),
    }
}

#[verifier::external_type_specification]
#[verifier::external_body]
pub struct ExValue(serde_json::Value);

/// The document that a piece of text parses to, or `None` where the text is
/// not well-formed JSON.  Parsing is a function of the text alone.
pub uninterp spec fn json_of_text(s: Seq<char>) -> Option<Json>;

/// The conversion half of [`parse_json`]: re-expresses a parsed
/// `serde_json::Value` as the library's [`Json`], shape for shape.  Each
/// number is carried as `serde_json::Number::as_u64` beside its
/// `Display` text.  Only [`parse_json`]'s body calls this.
#[verifier::external_body]
fn json_of_value(v: serde_json::Value) -> Json {
    match v {
        serde_json::Value::Null => Json::Null,
        serde_json::Value::Bool(b) => Json::Bool(b),
        serde_json::Value::Number(n) => Json::Num(n.as_u64(), n.to_string()),
        serde_json::Value::String(s) => Json::Str(s),
        serde_json::Value::Array(a) => Json::Arr(a.into_iter().map(json_of_value).collect()),
        serde_json::Value::Object(o) => Json::Obj(
            o.into_iter().map(|(k, x)| (k, json_of_value(x))).collect(),
        ),
    }
}

/// Relies on `serde_json::from_str::<serde_json::Value>`: the parse depends
/// on the text alone, so the outcome is named by [`json_of_text`].  The
/// parser accepts exactly well-formed JSON within its own nesting-depth
/// bound; what it hands back is carried over by [`json_of_value`].
#[verifier::external_body]
pub fn parse_json(s: &str) -> (r: Result<Json, DecodeError>)
    ensures
        r matches Ok(j) ==> json_of_text(s@) == Some(j),
        r is Err ==> json_of_text(s@) is None,
        r matches Err(e) ==> e == DecodeError::Syntax,
{
    match serde_json::from_str::<serde_json::Value>(s) {
        Ok(v) => Ok(json_of_value(v)),
        Err(_) => Err(DecodeError::Syntax),
    }
}

} // verus!
