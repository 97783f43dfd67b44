use vstd::prelude::*;

use serde_json::Value;

use crate::numstr::dec_str;

verus! {

// ---------------------------------------------------------------------------
// The engine's config file is JSON, held as `serde_json::Value`.  The value
// itself is opaque to the verifier; `vmodel` names what it holds, and every
// operation the document store makes goes through a trusted call whose
// contract speaks over that model.  Objects are modelled as maps: the engine
// file's key order is the crate's own (sorted), determined by the contents.
// ---------------------------------------------------------------------------

#[verifier::external_type_specification]
#[verifier::external_body]
pub struct ExValue(Value);

/// The shape of one JSON value: a number is carried as its canonical printed
/// text, an object as a map from key to value.
#[verifier::ext_equal]
pub ghost enum JModel {
    Null,
    Bool(bool),
    Num(Seq<char>),
    Str(Seq<char>),
    Arr(Seq<JModel>),
    Obj(Map<Seq<char>, JModel>),
}

/// What a `serde_json::Value` holds.
pub uninterp spec fn vmodel(v: Value) -> JModel;

/// What parsing `s` as a JSON document yields, if it is well-formed.  The
/// result depends on `s` alone.
pub uninterp spec fn jparse_of(s: Seq<char>) -> Option<JModel>;

/// How deep serde_json's parser will go: it refuses any document whose
/// containers nest to this many levels, so every value it yields stays
/// within the bound, counting each node as one level.
pub open spec fn json_parse_depth() -> nat {
    128
}

/// Whether a value nests no deeper than `d` levels, each node counting one.
pub open spec fn jbounded(j: JModel, d: nat) -> bool
    decreases d,
{
    d > 0 && match j {
        JModel::Null => true,
        JModel::Bool(_) => true,
        JModel::Num(_) => true,
        JModel::Str(_) => true,
        JModel::Arr(a) => forall|i: int|
            0 <= i < a.len() ==> jbounded(#[trigger] a[i], (d - 1) as nat),
        JModel::Obj(m) => forall|k: Seq<char>|
            m.contains_key(k) ==> jbounded(#[trigger] m[k], (d - 1) as nat),
    }
}

/// Relies on `serde_json::from_str::<Value>`: parses a well-formed JSON
/// document and rejects anything else, among it anything whose containers
/// nest past the parser's recursion limit, so whatever comes back lies
/// within that depth.
#[verifier::external_body]
pub fn jv_parse(s: &str) -> (r: Option<Value>)
    ensures
        match r {
            Some(v) => jparse_of(s@) == Some(vmodel(v)) && jbounded(
                vmodel(v),
                json_parse_depth(),
            ),
            None => jparse_of(s@) is None,
        },
{
    serde_json::from_str(s).ok()
}

/// Relies on `serde_json::to_string_pretty`: printing cannot fail for a
/// `Value`, and whenever the printed text parses at all it parses back to an
/// equal value.  Float fidelity rests on serde_json's `float_roundtrip`
/// feature, named in Cargo.toml, whose stated purpose is exactly that a
/// printed float reads back as itself; without it the default parse is not
/// correctly rounded.  The parse is owed only below the parser's recursion
/// limit: serialization is unbounded while parsing is not, so a deeper value
/// prints to text the parser then refuses.
#[verifier::external_body]
pub fn jv_to_pretty(v: &Value) -> (r: String)
    ensures
        jparse_of(r@) matches Some(j) ==> j == vmodel(*v),
        jbounded(vmodel(*v), (json_parse_depth() - 1) as nat) ==> jparse_of(r@) == Some(
            vmodel(*v),
        ),
{
    serde_json::to_string_pretty(v).unwrap_or_default()
}

/// Relies on `Value::Null`'s construction.
#[verifier::external_body]
pub fn jv_null() -> (r: Value)
    ensures
        vmodel(r) == JModel::Null,
{
    Value::Null
}

/// Relies on `Value::Bool`'s construction.
#[verifier::external_body]
pub fn jv_bool(b: bool) -> (r: Value)
    ensures
        vmodel(r) == JModel::Bool(b),
{
    Value::Bool(b)
}

/// Relies on `serde_json::Number::from`: a whole number prints as its plain
/// decimal digits.
#[verifier::external_body]
pub fn jv_num_u64(n: u64) -> (r: Value)
    ensures
        vmodel(r) == JModel::Num(dec_str(n as nat)),
{
    Value::Number(serde_json::Number::from(n))
}

/// Relies on `Value::String`'s construction.
#[verifier::external_body]
pub fn jv_string(s: &str) -> (r: Value)
    ensures
        vmodel(r) == JModel::Str(s@),
{
    Value::String(s.to_string())
}

/// Relies on `serde_json::Map::new`: an empty object.
#[verifier::external_body]
pub fn jv_new_obj() -> (r: Value)
    ensures
        vmodel(r) == JModel::Obj(Map::empty()),
{
    Value::Object(serde_json::Map::new())
}

/// Relies on `Vec::new`: an empty array value.
#[verifier::external_body]
pub fn jv_new_arr() -> (r: Value)
    ensures
        vmodel(r) == JModel::Arr(Seq::empty()),
{
    Value::Array(Vec::new())
}

/// Relies on `Value::clone`: an equal value.
#[verifier::external_body]
pub fn jv_clone(v: &Value) -> (r: Value)
    ensures
        vmodel(r) == vmodel(*v),
{
    v.clone()
}

/// Relies on `Value::is_object`.
#[verifier::external_body]
pub fn jv_is_obj(v: &Value) -> (r: bool)
    ensures
        r == (vmodel(*v) is Obj),
{
    v.is_object()
}

/// Relies on `Value::is_array`.
#[verifier::external_body]
pub fn jv_is_arr(v: &Value) -> (r: bool)
    ensures
        r == (vmodel(*v) is Arr),
{
    v.is_array()
}

/// Relies on `Value::get` with a string index: the value under a key of an
/// object, nothing for other shapes.
#[verifier::external_body]
pub fn jv_obj_get<'a>(v: &'a Value, k: &str) -> (r: Option<&'a Value>)
    ensures
        (r is Some) == (vmodel(*v) is Obj && vmodel(*v)->Obj_0.contains_key(k@)),
        r matches Some(x) ==> vmodel(*x) == vmodel(*v)->Obj_0[k@],
{
    v.get(k)
}

/// Relies on `Value::as_object_mut` and `serde_json::Map::insert`: sets a key
/// of an object, leaving anything else unchanged.
#[verifier::external_body]
pub fn jv_obj_insert(v: &mut Value, k: &str, x: Value) -> (r: bool)
    ensures
        (vmodel(*old(v)) is Obj) ==> r && vmodel(*final(v)) == JModel::Obj(
            vmodel(*old(v))->Obj_0.insert(k@, vmodel(x)),
        ),
        !(vmodel(*old(v)) is Obj) ==> !r && vmodel(*final(v)) == vmodel(*old(v)),
{
    match v.as_object_mut() {
        Some(m) => {
            m.insert(k.to_string(), x);
            true
        },
        None => false,
    }
}

/// Relies on `Value::as_object_mut` and `serde_json::Map::remove`: drops a
/// key of an object, leaving anything else unchanged.
#[verifier::external_body]
pub fn jv_obj_remove(v: &mut Value, k: &str) -> (r: bool)
    ensures
        (vmodel(*old(v)) is Obj) ==> r && vmodel(*final(v)) == JModel::Obj(
            vmodel(*old(v))->Obj_0.remove(k@),
        ),
        !(vmodel(*old(v)) is Obj) ==> !r && vmodel(*final(v)) == vmodel(*old(v)),
{
    match v.as_object_mut() {
        Some(m) => {
            m.remove(k);
            true
        },
        None => false,
    }
}

/// Relies on `Value::as_array` and `Vec::len`: the length of an array, zero
/// for other shapes.
#[verifier::external_body]
pub fn jv_arr_len(v: &Value) -> (r: usize)
    ensures
        vmodel(*v) matches JModel::Arr(a) ==> r == a.len(),
        !(vmodel(*v) is Arr) ==> r == 0,
{
    match v.as_array() {
        Some(a) => a.len(),
        None => 0,
    }
}

/// Relies on `Value::as_array` and slice indexing: one element of an array.
#[verifier::external_body]
pub fn jv_arr_get<'a>(v: &'a Value, i: usize) -> (r: &'a Value)
    requires
        vmodel(*v) is Arr,
        i < vmodel(*v)->Arr_0.len(),
    ensures
        vmodel(*r) == vmodel(*v)->Arr_0[i as int],
{
    &v.as_array().unwrap()[i]
}

/// Relies on `Value::as_array_mut` and `Vec::push`: appends to an array.
#[verifier::external_body]
pub fn jv_arr_push(v: &mut Value, x: Value)
    requires
        vmodel(*old(v)) is Arr,
    ensures
        vmodel(*final(v)) == JModel::Arr(vmodel(*old(v))->Arr_0.push(vmodel(x))),
{
    v.as_array_mut().unwrap().push(x);
}

/// Relies on `Value::as_str`: the characters of a string value.
#[verifier::external_body]
pub fn jv_as_str<'a>(v: &'a Value) -> (r: Option<&'a str>)
    ensures
        (r is Some) == (vmodel(*v) is Str),
        r matches Some(s) ==> vmodel(*v) == JModel::Str(s@),
{
    v.as_str()
}

/// Relies on `Value::as_bool`.
#[verifier::external_body]
pub fn jv_as_bool(v: &Value) -> (r: Option<bool>)
    ensures
        match r {
            Some(b) => vmodel(*v) == JModel::Bool(b),
            None => !(vmodel(*v) is Bool),
        },
{
    v.as_bool()
}

/// Relies on `Value::as_u64`: yields the number exactly when the value is a
/// number whose canonical text is a plain decimal that fits, the only form
/// in which serde_json holds an unsigned whole number.
#[verifier::external_body]
pub fn jv_as_u64(v: &Value) -> (r: Option<u64>)
    ensures
        vmodel(*v) matches JModel::Num(t) ==> r == crate::numstr::spec_num_u64(t),
        !(vmodel(*v) is Num) ==> r is None,
{
    v.as_u64()
}

} // verus!

verus! {

/// Relies on `Value::is_null`.
#[verifier::external_body]
pub fn jv_is_null(v: &Value) -> (r: bool)
    ensures
        r == (vmodel(*v) is Null),
{
    v.is_null()
}

} // verus!
