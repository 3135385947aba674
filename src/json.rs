//! JSON documents, as `serde_json` parses and builds them, and the typed
//! reading of their members.
use vstd::prelude::*;

use crate::query::{opt_seq, opt_text};

verus! {

/// `serde_json::Value`, carried through opaque; [`tree_of`] names its document.
#[verifier::external_type_specification]
#[verifier::external_body]
pub struct ExValue(serde_json::Value);

/// `serde_json::Map`, the members of an object; [`members_of`] names them.
#[verifier::external_type_specification]
#[verifier::external_body]
#[verifier::reject_recursive_types(K)]
#[verifier::reject_recursive_types(V)]
pub struct ExMap<K, V>(serde_json::Map<K, V>);

/// `serde_json::Error`, the diagnostic of a text that does not parse.
#[verifier::external_type_specification]
#[verifier::external_body]
pub struct ExJsonError(serde_json::Error);

/// The abstract value of a JSON document.
pub enum JsonTree {
    Null,
    Bool(bool),
    /// A number held as a 64-bit integer: no fraction or exponent, within
    /// the range of `i64` or `u64`.
    Int(int),
    /// Any other number.
    Float,
    Str(Seq<char>),
    Array(Seq<JsonTree>),
    Object(Map<Seq<char>, JsonTree>),
}

/// An object without members.
pub open spec fn no_members() -> Map<Seq<char>, JsonTree> {
    Map::empty()
}

/// The document a `serde_json::Value` holds.
pub uninterp spec fn tree_of(v: serde_json::Value) -> JsonTree;

/// The members a `serde_json::Map` holds, by key.
pub uninterp spec fn members_of(m: serde_json::Map<String, serde_json::Value>) -> Map<Seq<char>, JsonTree>;

/// What `serde_json::from_slice` reads from a text, if it is a JSON document.
pub uninterp spec fn parsed_tree(bytes: Seq<u8>) -> Option<JsonTree>;

/// Relies on `serde_json::from_slice`: whether a text is a JSON document,
/// and which one, depends on its bytes alone.
#[verifier::external_body]
pub fn parse_value(bytes: &[u8]) -> (r: Result<serde_json::Value, serde_json::Error>)
    ensures
        r is Ok <==> parsed_tree(bytes@) is Some,
        r is Ok ==> tree_of(r->Ok_0) == parsed_tree(bytes@)->Some_0,
{
    serde_json::from_slice(bytes)
}

/// Relies on `serde_json::Value::get` with a key: the member of an object
/// under that key, and nothing for other values.
#[verifier::external_body]
pub fn member<'a>(v: &'a serde_json::Value, key: &str) -> (r: Option<&'a serde_json::Value>)
    ensures
        r is Some <==> (tree_of(*v) is Object && tree_of(*v)->Object_0.contains_key(key@)),
        r is Some ==> tree_of(*r->Some_0) == tree_of(*v)->Object_0[key@],
{
    v.get(key)
}

/// Relies on `serde_json::Value::as_str`: the text of a string, nothing for
/// other values.
pub assume_specification[ serde_json::Value::as_str ](v: &serde_json::Value) -> (r: Option<&str>)
    ensures
        r is Some <==> tree_of(*v) is Str,
        r is Some ==> r->Some_0@ == tree_of(*v)->Str_0,
;

/// Relies on `serde_json::Value::as_u64`: a number without fraction that is
/// not negative, nothing for other values.
pub assume_specification[ serde_json::Value::as_u64 ](v: &serde_json::Value) -> (r: Option<u64>)
    ensures
        r is Some <==> (tree_of(*v) is Int && tree_of(*v)->Int_0 >= 0),
        r is Some ==> r->Some_0 as int == tree_of(*v)->Int_0,
;

/// Relies on `serde_json::Value::as_bool`: the flag of a boolean, nothing for
/// other values.
pub assume_specification[ serde_json::Value::as_bool ](v: &serde_json::Value) -> (r: Option<bool>)
    ensures
        r is Some <==> tree_of(*v) is Bool,
        r is Some ==> r->Some_0 == tree_of(*v)->Bool_0,
;

/// Relies on `serde_json::Value::is_null`: whether the value is null.
pub assume_specification[ serde_json::Value::is_null ](v: &serde_json::Value) -> (r: bool)
    ensures
        r <==> tree_of(*v) is Null,
;

/// Relies on `serde_json::Value::is_object`: whether the value is an object.
pub assume_specification[ serde_json::Value::is_object ](v: &serde_json::Value) -> (r: bool)
    ensures
        r <==> tree_of(*v) is Object,
;

/// Relies on `serde_json::Value::as_array`: the items of an array, in order,
/// nothing for other values.
pub assume_specification[ serde_json::Value::as_array ](v: &serde_json::Value) -> (r: Option<&Vec<serde_json::Value>>)
    ensures
        r is Some <==> tree_of(*v) is Array,
        r is Some ==> r->Some_0@.len() == tree_of(*v)->Array_0.len(),
        r is Some ==> forall|i: int|
            0 <= i < r->Some_0@.len() ==> #[trigger] tree_of(r->Some_0@[i]) == tree_of(*v)->Array_0[i],
;

/// Relies on `serde_json::Map::new`: an object without members.
pub assume_specification[ serde_json::Map::<String, serde_json::Value>::new ]() -> (r: serde_json::Map<String, serde_json::Value>)
    ensures
        members_of(r) == no_members(),
;

/// Relies on `serde_json::Map::insert`: the member under the key is set,
/// the others stay.
#[verifier::external_body]
pub fn insert_member(m: &mut serde_json::Map<String, serde_json::Value>, key: String, v: serde_json::Value)
    ensures
        members_of(*final(m)) == members_of(*old(m)).insert(key@, tree_of(v)),
{
    m.insert(key, v);
}

/// Relies on `serde_json::Value::Null`.
#[verifier::external_body]
pub fn null_value() -> (r: serde_json::Value)
    ensures
        tree_of(r) == JsonTree::Null,
{
    serde_json::Value::Null
}

/// Relies on `serde_json::Value::Bool`.
#[verifier::external_body]
pub fn bool_value(b: bool) -> (r: serde_json::Value)
    ensures
        tree_of(r) == JsonTree::Bool(b),
{
    serde_json::Value::Bool(b)
}

/// Relies on `serde_json::Value::from` on a `u64`: a whole number.
#[verifier::external_body]
pub fn number_value(n: u64) -> (r: serde_json::Value)
    ensures
        tree_of(r) == JsonTree::Int(n as int),
{
    serde_json::Value::from(n)
}

/// Relies on `serde_json::Value::String`.
#[verifier::external_body]
pub fn string_value(s: String) -> (r: serde_json::Value)
    ensures
        tree_of(r) == JsonTree::Str(s@),
{
    serde_json::Value::String(s)
}

/// Relies on `serde_json::Value::Array`.
#[verifier::external_body]
pub fn array_value(items: Vec<serde_json::Value>) -> (r: serde_json::Value)
    ensures
        tree_of(r) == JsonTree::Array(items@.map_values(|v: serde_json::Value| tree_of(v))),
{
    serde_json::Value::Array(items)
}

/// Relies on `serde_json::Value::Object`.
#[verifier::external_body]
pub fn object_value(members: serde_json::Map<String, serde_json::Value>) -> (r: serde_json::Value)
    ensures
        tree_of(r) == JsonTree::Object(members_of(members)),
{
    serde_json::Value::Object(members)
}

/// The member of an object under a key.
pub open spec fn field(j: JsonTree, key: Seq<char>) -> Option<JsonTree> {
    match j {
        JsonTree::Object(m) => if m.contains_key(key) {
            Some(m[key])
        } else {
            None
        },
        _ => None,
    }
}

/// A string.
pub open spec fn text_of(x: JsonTree) -> Option<Seq<char>> {
    match x {
        JsonTree::Str(s) => Some(s),
        _ => None,
    }
}

/// A whole number that fits in 16 bits.
pub open spec fn u16_of(x: JsonTree) -> Option<u16> {
    match x {
        JsonTree::Int(i) => if 0 <= i <= u16::MAX {
            Some(i as u16)
        } else {
            None
        },
        _ => None,
    }
}

/// A whole number that fits in 32 bits.
pub open spec fn u32_of(x: JsonTree) -> Option<u32> {
    match x {
        JsonTree::Int(i) => if 0 <= i <= u32::MAX {
            Some(i as u32)
        } else {
            None
        },
        _ => None,
    }
}

/// A whole number that fits in 64 bits.
pub open spec fn u64_of(x: JsonTree) -> Option<u64> {
    match x {
        JsonTree::Int(i) => if 0 <= i <= u64::MAX {
            Some(i as u64)
        } else {
            None
        },
        _ => None,
    }
}

/// A flag.
pub open spec fn bool_of(x: JsonTree) -> Option<bool> {
    match x {
        JsonTree::Bool(b) => Some(b),
        _ => None,
    }
}

/// A required string member.
pub open spec fn text_member(j: JsonTree, key: Seq<char>) -> Option<Seq<char>> {
    match field(j, key) {
        Some(x) => text_of(x),
        None => None,
    }
}

/// An optional string member: missing or null reads as absent.
pub open spec fn opt_text_member(j: JsonTree, key: Seq<char>) -> Option<Option<Seq<char>>> {
    match field(j, key) {
        None => Some(None),
        Some(JsonTree::Null) => Some(None),
        Some(x) => match text_of(x) {
            Some(s) => Some(Some(s)),
            None => None,
        },
    }
}

/// A required 16-bit member.
pub open spec fn u16_member(j: JsonTree, key: Seq<char>) -> Option<u16> {
    match field(j, key) {
        Some(x) => u16_of(x),
        None => None,
    }
}

/// A required 32-bit member.
pub open spec fn u32_member(j: JsonTree, key: Seq<char>) -> Option<u32> {
    match field(j, key) {
        Some(x) => u32_of(x),
        None => None,
    }
}

/// A required 64-bit member.
pub open spec fn u64_member(j: JsonTree, key: Seq<char>) -> Option<u64> {
    match field(j, key) {
        Some(x) => u64_of(x),
        None => None,
    }
}

/// An optional 64-bit member: missing or null reads as absent.
pub open spec fn opt_u64_member(j: JsonTree, key: Seq<char>) -> Option<Option<u64>> {
    match field(j, key) {
        None => Some(None),
        Some(JsonTree::Null) => Some(None),
        Some(x) => match u64_of(x) {
            Some(n) => Some(Some(n)),
            None => None,
        },
    }
}

/// The abstract values of a list.
pub open spec fn views<T: View>(s: Seq<T>) -> Seq<T::V> {
    s.map_values(|x: T| x@)
}

/// A required flag member.
pub open spec fn bool_member(j: JsonTree, key: Seq<char>) -> Option<bool> {
    match field(j, key) {
        Some(x) => bool_of(x),
        None => None,
    }
}

/// An optional flag member: missing or null reads as absent.
pub open spec fn opt_bool_member(j: JsonTree, key: Seq<char>) -> Option<Option<bool>> {
    match field(j, key) {
        None => Some(None),
        Some(JsonTree::Null) => Some(None),
        Some(x) => match bool_of(x) {
            Some(b) => Some(Some(b)),
            None => None,
        },
    }
}

/// A required member that is a list of 16-bit numbers.
pub open spec fn u16_list_member(j: JsonTree, key: Seq<char>) -> Option<Seq<u16>> {
    match field(j, key) {
        Some(JsonTree::Array(xs)) => if forall|i: int| 0 <= i < xs.len() ==> (#[trigger] u16_of(xs[i])) is Some {
            Some(Seq::new(xs.len(), |i: int| u16_of(xs[i])->Some_0))
        } else {
            None
        },
        _ => None,
    }
}

/// An optional member that is null or missing reads as absent, whatever
/// its type: absence never turns into a default value.
pub proof fn absent_members_stay_absent<T>(j: JsonTree, key: Seq<char>, dec: spec_fn(JsonTree) -> Option<T>)
    requires
        field(j, key) is None || field(j, key) == Some(JsonTree::Null),
    ensures
        opt_member(j, key, dec) == Some(Option::<T>::None),
        opt_text_member(j, key) == Some(Option::<Seq<char>>::None),
        opt_bool_member(j, key) == Some(Option::<bool>::None),
{
}

/// An optional member decoded by `dec`: missing or null reads as absent.
pub open spec fn opt_member<T>(j: JsonTree, key: Seq<char>, dec: spec_fn(JsonTree) -> Option<T>) -> Option<Option<T>> {
    match field(j, key) {
        None => Some(None),
        Some(JsonTree::Null) => Some(None),
        Some(x) => match dec(x) {
            Some(v) => Some(Some(v)),
            None => None,
        },
    }
}

/// Reads a required string member.
pub fn read_text(v: &serde_json::Value, key: &str) -> (r: Option<String>)
    ensures
        opt_text(r) == text_member(tree_of(*v), key@),
{
    match member(v, key) {
        Some(x) => match x.as_str() {
            Some(s) => Some(String::from_str(s)),
            None => None,
        },
        None => None,
    }
}

/// Reads an optional string member; `None` when it is neither absent nor a
/// string.
pub fn read_opt_text(v: &serde_json::Value, key: &str) -> (r: Option<Option<String>>)
    ensures
        r is Some <==> opt_text_member(tree_of(*v), key@) is Some,
        r is Some ==> opt_text_member(tree_of(*v), key@) == Some(opt_text(r->Some_0)),
{
    match member(v, key) {
        Some(x) => if x.is_null() {
            Some(None)
        } else {
            match x.as_str() {
                Some(s) => Some(Some(String::from_str(s))),
                None => None,
            }
        },
        None => Some(None),
    }
}

fn u16_value(x: &serde_json::Value) -> (r: Option<u16>)
    ensures
        r == u16_of(tree_of(*x)),
{
    match x.as_u64() {
        Some(n) => if n <= 65535 {
            Some(n as u16)
        } else {
            None
        },
        None => None,
    }
}

/// Reads a required 16-bit member.
pub fn read_u16(v: &serde_json::Value, key: &str) -> (r: Option<u16>)
    ensures
        r == u16_member(tree_of(*v), key@),
{
    match member(v, key) {
        Some(x) => u16_value(x),
        None => None,
    }
}

/// Reads a required 32-bit member.
pub fn read_u32(v: &serde_json::Value, key: &str) -> (r: Option<u32>)
    ensures
        r == u32_member(tree_of(*v), key@),
{
    match member(v, key) {
        Some(x) => match x.as_u64() {
            Some(n) => if n <= 4294967295 {
                Some(n as u32)
            } else {
                None
            },
            None => None,
        },
        None => None,
    }
}

/// Reads a required 64-bit member.
pub fn read_u64(v: &serde_json::Value, key: &str) -> (r: Option<u64>)
    ensures
        r == u64_member(tree_of(*v), key@),
{
    match member(v, key) {
        Some(x) => x.as_u64(),
        None => None,
    }
}

/// Reads an optional 64-bit member; `None` when it is neither absent nor a
/// whole number that fits.
pub fn read_opt_u64(v: &serde_json::Value, key: &str) -> (r: Option<Option<u64>>)
    ensures
        r == opt_u64_member(tree_of(*v), key@),
{
    match member(v, key) {
        Some(x) => if x.is_null() {
            Some(None)
        } else {
            match x.as_u64() {
                Some(n) => Some(Some(n)),
                None => None,
            }
        },
        None => Some(None),
    }
}

/// Reads a required flag member.
pub fn read_bool(v: &serde_json::Value, key: &str) -> (r: Option<bool>)
    ensures
        r == bool_member(tree_of(*v), key@),
{
    match member(v, key) {
        Some(x) => x.as_bool(),
        None => None,
    }
}

/// Reads an optional flag member; `None` when it is neither absent nor a
/// flag.
pub fn read_opt_bool(v: &serde_json::Value, key: &str) -> (r: Option<Option<bool>>)
    ensures
        r == opt_bool_member(tree_of(*v), key@),
{
    match member(v, key) {
        Some(x) => if x.is_null() {
            Some(None)
        } else {
            match x.as_bool() {
                Some(b) => Some(Some(b)),
                None => None,
            }
        },
        None => Some(None),
    }
}

/// Reads a required member that is a list of 16-bit numbers.
pub fn read_u16_list(v: &serde_json::Value, key: &str) -> (r: Option<Vec<u16>>)
    ensures
        opt_seq(r) == u16_list_member(tree_of(*v), key@),
{
    let xs = match member(v, key) {
        Some(x) => match x.as_array() {
            Some(xs) => xs,
            None => return None,
        },
        None => return None,
    };
    let ghost trees = field(tree_of(*v), key@)->Some_0->Array_0;
    let mut out: Vec<u16> = Vec::new();
    let mut i: usize = 0;
    while i < xs.len()
        invariant
            i <= xs.len(),
            field(tree_of(*v), key@) == Some(JsonTree::Array(trees)),
            xs@.len() == trees.len(),
            forall|k: int| 0 <= k < xs@.len() ==> #[trigger] tree_of(xs@[k]) == trees[k],
            out@.len() == i,
            forall|k: int| 0 <= k < i ==> Some(#[trigger] out@[k]) == u16_of(trees[k]),
        decreases xs.len() - i,
    {
        match u16_value(&xs[i]) {
            Some(n) => out.push(n),
            None => {
                assert(u16_of(trees[i as int]) is None);
                return None;
            },
        }
        i = i + 1;
    }
    assert forall|k: int| 0 <= k < trees.len() implies (#[trigger] u16_of(trees[k])) is Some by {
        assert(Some(out@[k]) == u16_of(trees[k]));
    }
    assert(out@ =~= Seq::new(trees.len(), |k: int| u16_of(trees[k])->Some_0));
    Some(out)
}

/// The documents of a list of 16-bit numbers.
pub open spec fn u16_list_json(items: Seq<u16>) -> Seq<JsonTree> {
    items.map_values(|n: u16| JsonTree::Int(n as int))
}

/// Builds the document of a list of 16-bit numbers.
pub fn u16_list_value(items: &Vec<u16>) -> (r: serde_json::Value)
    ensures
        tree_of(r) == JsonTree::Array(u16_list_json(items@)),
{
    let mut out: Vec<serde_json::Value> = Vec::new();
    let mut i: usize = 0;
    while i < items.len()
        invariant
            i <= items.len(),
            out@.len() == i,
            forall|k: int| 0 <= k < i ==> tree_of(#[trigger] out@[k]) == JsonTree::Int(items@[k] as int),
        decreases items.len() - i,
    {
        out.push(number_value(items[i] as u64));
        i = i + 1;
    }
    let r = array_value(out);
    assert(tree_of(r)->Array_0 =~= u16_list_json(items@));
    r
}

/// A list of 16-bit numbers reads back as itself.
pub proof fn u16_list_round_trip(j: JsonTree, key: Seq<char>, items: Seq<u16>)
    requires
        field(j, key) == Some(JsonTree::Array(u16_list_json(items))),
    ensures
        u16_list_member(j, key) == Some(items),
{
    let xs = u16_list_json(items);
    assert forall|i: int| 0 <= i < xs.len() implies (#[trigger] u16_of(xs[i])) == Some(items[i]) by {}
    assert(Seq::new(xs.len(), |i: int| u16_of(xs[i])->Some_0) =~= items);
}

} // verus!
