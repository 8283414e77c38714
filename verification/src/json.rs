//! A structured-data tree: the raw input shape handed to the feature decoder
//! and the output shape of the feature encoder. The generic text parsing that
//! produces such a tree is an external collaborator; this crate only works on
//! the tree itself. Numbers are unsigned integers, the only numeric values
//! the feature schema uses.

use vstd::prelude::*;

verus! {

/// A JSON-like value. An object is an ordered list of key/value pairs; when
/// a key occurs twice, the first occurrence wins.
pub enum Json {
    /// An explicit null.
    Null,
    /// A boolean.
    Bool(bool),
    /// An unsigned integer.
    UInt(u64),
    /// A string.
    Str(String),
    /// An array of values.
    Arr(Vec<Json>),
    /// An object: a list of key/value pairs.
    Obj(Vec<(String, Json)>),
}

/// The mathematical model of a [`Json`] tree: strings become sequences of
/// characters and vectors become sequences.
pub enum JsonV {
    /// An explicit null.
    Null,
    /// A boolean.
    Bool(bool),
    /// An unsigned integer.
    UInt(u64),
    /// A string.
    Str(Seq<char>),
    /// An array of values.
    Arr(Seq<JsonV>),
    /// An object: a sequence of key/value pairs.
    Obj(Seq<(Seq<char>, JsonV)>),
}

impl Json {
    /// The model of this tree.
    pub open spec fn model(self) -> JsonV
        decreases self,
    {
        match self {
            Json::Null => JsonV::Null,
            Json::Bool(b) => JsonV::Bool(b),
            Json::UInt(n) => JsonV::UInt(n),
            Json::Str(s) => JsonV::Str(s@),
            Json::Arr(items) => JsonV::Arr(arr_model(items@)),
            Json::Obj(fields) => JsonV::Obj(fields_model(fields@)),
        }
    }
}

impl View for Json {
    type V = JsonV;

    open spec fn view(&self) -> JsonV {
        self.model()
    }
}

/// The model of an array's item list.
pub open spec fn arr_model(items: Seq<Json>) -> Seq<JsonV>
    decreases items,
{
    Seq::new(
        items.len(),
        |i: int|
            if 0 <= i < items.len() {
                items[i].model()
            } else {
                JsonV::Null
            },
    )
}

/// The model of an object's field list.
pub open spec fn fields_model(fields: Seq<(String, Json)>) -> Seq<(Seq<char>, JsonV)>
    decreases fields,
{
    Seq::new(
        fields.len(),
        |i: int|
            if 0 <= i < fields.len() {
                (fields[i].0@, fields[i].1.model())
            } else {
                (Seq::empty(), JsonV::Null)
            },
    )
}

/// The value stored under `key` in an object's field list: the first pair
/// with that key, or `None` when the key is absent.
pub open spec fn entry(fields: Seq<(Seq<char>, JsonV)>, key: Seq<char>) -> Option<JsonV>
    decreases fields.len(),
{
    if fields.len() == 0 {
        None
    } else if fields[0].0 == key {
        Some(fields[0].1)
    } else {
        entry(fields.subrange(1, fields.len() as int), key)
    }
}

/// When no key among the first `i` pairs matches, the lookup is decided by
/// the remaining pairs alone.
proof fn lemma_entry_skip(fields: Seq<(Seq<char>, JsonV)>, key: Seq<char>, i: int)
    requires
        0 <= i <= fields.len(),
        forall|k: int| 0 <= k < i ==> fields[k].0 != key,
    ensures
        entry(fields, key) == entry(fields.subrange(i, fields.len() as int), key),
    decreases i,
{
    if i > 0 {
        assert(fields[0].0 != key);
        let rest = fields.subrange(1, fields.len() as int);
        assert(forall|k: int| 0 <= k < i - 1 ==> rest[k] == fields[k + 1]);
        lemma_entry_skip(rest, key, i - 1);
        assert(rest.subrange(i - 1, rest.len() as int) =~= fields.subrange(
            i,
            fields.len() as int,
        ));
    } else {
        assert(fields.subrange(0, fields.len() as int) =~= fields);
    }
}

/// When `fields[i]` is the first pair whose key is `key`, the lookup yields
/// its value.
pub proof fn lemma_entry_at(fields: Seq<(Seq<char>, JsonV)>, key: Seq<char>, i: int)
    requires
        0 <= i < fields.len(),
        fields[i].0 == key,
        forall|k: int| 0 <= k < i ==> fields[k].0 != key,
    ensures
        entry(fields, key) == Some(fields[i].1),
{
    lemma_entry_skip(fields, key, i);
    let rest = fields.subrange(i, fields.len() as int);
    assert(rest[0] == fields[i]);
}

/// When no pair's key is `key`, the lookup yields `None`.
pub proof fn lemma_entry_none(fields: Seq<(Seq<char>, JsonV)>, key: Seq<char>)
    requires
        forall|k: int| 0 <= k < fields.len() ==> fields[k].0 != key,
    ensures
        entry(fields, key) is None,
{
    lemma_entry_skip(fields, key, fields.len() as int);
}

/// Looks a key up in an object's field list: the first pair with that key
/// wins; `None` when the key is absent.
pub fn obj_get<'a>(fields: &'a Vec<(String, Json)>, key: &str) -> (r: Option<&'a Json>)
    ensures
        match r {
            Some(j) => entry(fields_model(fields@), key@) == Some(j.model()),
            None => entry(fields_model(fields@), key@) is None,
        },
{
    let key_string = String::from_str(key);
    let ghost m = fields_model(fields@);
    let mut i: usize = 0;
    while i < fields.len()
        invariant
            0 <= i <= fields.len(),
            key_string@ == key@,
            m == fields_model(fields@),
            forall|k: int| 0 <= k < i ==> m[k].0 != key@,
        decreases fields.len() - i,
    {
        let pair = &fields[i];
        if pair.0 == key_string {
            proof {
                lemma_entry_at(m, key@, i as int);
            }
            return Some(&pair.1);
        }
        i += 1;
    }
    proof {
        lemma_entry_none(m, key@);
    }
    None
}

} // verus!
