use vstd::prelude::*;

use crate::error::{Error, Expected, ValueKind};

verus! {

/// The mathematical form of a [`Value`]: sequences in place of vectors.
pub enum Json {
    Null,
    Bool(bool),
    Int(i64),
    /// A double, by its IEEE-754 bit pattern.
    Float(u64),
    Str(Seq<char>),
    Array(Seq<Json>),
    Object(Seq<(Seq<char>, Json)>),
}

/// A dynamically typed value, as carried by the protocol.
///
/// Floating-point numbers are kept as the bit pattern of a double
/// (`f64::to_bits`), so that the value is carried through unchanged.
#[derive(Debug, PartialEq)]
pub enum Value {
    Null,
    Bool(bool),
    Int(i64),
    Float(u64),
    String(String),
    Array(Vec<Value>),
    Object(Vec<(String, Value)>),
}

pub open spec fn json_of(v: Value) -> Json
    decreases v,
{
    match v {
        Value::Null => Json::Null,
        Value::Bool(b) => Json::Bool(b),
        Value::Int(n) => Json::Int(n),
        Value::Float(bits) => Json::Float(bits),
        Value::String(s) => Json::Str(s@),
        Value::Array(items) => Json::Array(json_of_items(items@)),
        Value::Object(entries) => Json::Object(json_of_entries(entries@)),
    }
}

pub open spec fn json_of_items(items: Seq<Value>) -> Seq<Json>
    decreases items,
{
    if items.len() == 0 {
        Seq::empty()
    } else {
        json_of_items(items.subrange(0, items.len() - 1)).push(json_of(items[items.len() - 1]))
    }
}

pub open spec fn json_of_entries(entries: Seq<(String, Value)>) -> Seq<(Seq<char>, Json)>
    decreases entries,
{
    if entries.len() == 0 {
        Seq::empty()
    } else {
        json_of_entries(entries.subrange(0, entries.len() - 1)).push(
            (entries[entries.len() - 1].0@, json_of(entries[entries.len() - 1].1)),
        )
    }
}

impl View for Value {
    type V = Json;

    open spec fn view(&self) -> Json {
        json_of(*self)
    }
}

/// The views of the items, one for one.
pub proof fn lemma_json_of_items(items: Seq<Value>)
    ensures
        json_of_items(items).len() == items.len(),
        forall|i: int|
            0 <= i < items.len() ==> #[trigger] json_of_items(items)[i] == json_of(items[i]),
    decreases items.len(),
{
    if items.len() > 0 {
        lemma_json_of_items(items.subrange(0, items.len() - 1));
    }
}

/// The views of the entries, one for one.
pub proof fn lemma_json_of_entries(entries: Seq<(String, Value)>)
    ensures
        json_of_entries(entries).len() == entries.len(),
        forall|i: int|
            0 <= i < entries.len() ==> #[trigger] json_of_entries(entries)[i] == (
                entries[i].0@,
                json_of(entries[i].1),
            ),
    decreases entries.len(),
{
    if entries.len() > 0 {
        lemma_json_of_entries(entries.subrange(0, entries.len() - 1));
    }
}

/// The shape of a value.
pub open spec fn kind_of(j: Json) -> ValueKind {
    match j {
        Json::Null => ValueKind::Null,
        Json::Bool(_) => ValueKind::Bool,
        Json::Int(_) => ValueKind::Int,
        Json::Float(_) => ValueKind::Float,
        Json::Str(_) => ValueKind::String,
        Json::Array(_) => ValueKind::Array,
        Json::Object(_) => ValueKind::Object,
    }
}

/// The value under `key` among `entries`: the first entry with that key.
pub open spec fn entry(entries: Seq<(Seq<char>, Json)>, key: Seq<char>) -> Option<Json>
    decreases entries.len(),
{
    if entries.len() == 0 {
        None
    } else if entries[0].0 == key {
        Some(entries[0].1)
    } else {
        entry(entries.subrange(1, entries.len() as int), key)
    }
}

/// The field `key` of an object; `None` where `j` is no object or lacks it.
pub open spec fn field(j: Json, key: Seq<char>) -> Option<Json> {
    match j {
        Json::Object(entries) => entry(entries, key),
        _ => None,
    }
}

impl Clone for Value {
    /// A deep copy.
    fn clone(&self) -> (r: Self)
        ensures
            r@ == self@,
        decreases self,
    {
        match self {
            Value::Null => Value::Null,
            Value::Bool(b) => Value::Bool(*b),
            Value::Int(n) => Value::Int(*n),
            Value::Float(bits) => Value::Float(*bits),
            Value::String(s) => Value::String(s.clone()),
            Value::Array(items) => {
                let mut out: Vec<Value> = Vec::new();
                let mut i: usize = 0;
                while i < items.len()
                    invariant
                        i <= items.len(),
                        *self == Value::Array(*items),
                        out@.len() == i,
                        forall|j: int|
                            0 <= j < i ==> json_of(#[trigger] out@[j]) == json_of(items@[j]),
                    decreases items.len() - i,
                {
                    proof {
                        assert(decreases_to!(*self => (*self)->Array_0));
                        assert(decreases_to!(*items => items@));
                        assert(decreases_to!(items@ => items@[i as int]));
                    }
                    let item = items[i].clone();
                    out.push(item);
                    i += 1;
                }
                proof {
                    lemma_json_of_items(out@);
                    lemma_json_of_items(items@);
                    assert(json_of_items(out@) =~= json_of_items(items@));
                }
                Value::Array(out)
            }
            Value::Object(entries) => {
                let mut out: Vec<(String, Value)> = Vec::new();
                let mut i: usize = 0;
                while i < entries.len()
                    invariant
                        i <= entries.len(),
                        *self == Value::Object(*entries),
                        out@.len() == i,
                        forall|j: int|
                            0 <= j < i ==> (#[trigger] out@[j]).0@ == entries@[j].0@ && json_of(
                                out@[j].1,
                            ) == json_of(entries@[j].1),
                    decreases entries.len() - i,
                {
                    proof {
                        assert(decreases_to!(*self => (*self)->Object_0));
                        assert(decreases_to!(*entries => entries@));
                        assert(decreases_to!(entries@ => entries@[i as int]));
                        assert(decreases_to!(entries@[i as int] => entries@[i as int].1));
                    }
                    let key = entries[i].0.clone();
                    let value = entries[i].1.clone();
                    out.push((key, value));
                    i += 1;
                }
                proof {
                    lemma_json_of_entries(out@);
                    lemma_json_of_entries(entries@);
                    assert(json_of_entries(out@) =~= json_of_entries(entries@));
                }
                Value::Object(out)
            }
        }
    }
}

/// Whether two strings hold the same characters.
pub(crate) fn text_eq(a: &str, b: &str) -> (r: bool)
    ensures
        r == (a@ == b@),
{
    a.to_owned() == b.to_owned()
}

impl Value {
    /// The shape of this value.
    pub fn kind(&self) -> (r: ValueKind)
        ensures
            r == kind_of(self@),
    {
        match self {
            Value::Null => ValueKind::Null,
            Value::Bool(_) => ValueKind::Bool,
            Value::Int(_) => ValueKind::Int,
            Value::Float(_) => ValueKind::Float,
            Value::String(_) => ValueKind::String,
            Value::Array(_) => ValueKind::Array,
            Value::Object(_) => ValueKind::Object,
        }
    }

    /// Whether this is the absent value.
    pub fn is_null(&self) -> (r: bool)
        ensures
            r == (self@ == Json::Null),
    {
        match self {
            Value::Null => true,
            _ => false,
        }
    }

    /// The value of an unsigned integer read off the wire: it is kept where it
    /// fits in `i64`, and refused where it does not.
    pub fn from_u64(n: u64) -> (r: Option<Value>)
        ensures
            n <= i64::MAX ==> r == Some(Value::Int(n as i64)),
            n > i64::MAX ==> r is None,
    {
        if n <= i64::MAX as u64 {
            Some(Value::Int(n as i64))
        } else {
            None
        }
    }

    /// The field `key` of this object; `None` where this is no object or has
    /// no such field.
    pub fn get(&self, key: &str) -> (r: Option<&Value>)
        ensures
            match r {
                Some(v) => field(self@, key@) == Some(v@),
                None => field(self@, key@) is None,
            },
    {
        match self {
            Value::Object(entries) => {
                let wanted = key.to_owned();
                let ghost es = json_of_entries(entries@);
                proof {
                    lemma_json_of_entries(entries@);
                    assert(es.subrange(0, es.len() as int) =~= es);
                }
                let mut i: usize = 0;
                while i < entries.len()
                    invariant
                        i <= entries.len(),
                        wanted@ == key@,
                        *self == Value::Object(*entries),
                        es == json_of_entries(entries@),
                        es.len() == entries@.len(),
                        forall|j: int|
                            0 <= j < entries@.len() ==> #[trigger] es[j] == (
                                entries@[j].0@,
                                json_of(entries@[j].1),
                            ),
                        entry(es, key@) == entry(es.subrange(i as int, es.len() as int), key@),
                    decreases entries.len() - i,
                {
                    proof {
                        let rest = es.subrange(i as int, es.len() as int);
                        assert(rest.subrange(1, rest.len() as int) =~= es.subrange(
                            i + 1,
                            es.len() as int,
                        ));
                    }
                    if entries[i].0 == wanted {
                        proof {
                            let rest = es.subrange(i as int, es.len() as int);
                            assert(rest[0] == es[i as int]);
                        }
                        return Some(&entries[i].1);
                    }
                    i += 1;
                }
                None
            }
            _ => None,
        }
    }
}

} // verus!
