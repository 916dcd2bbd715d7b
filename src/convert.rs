use vstd::prelude::*;

use crate::error::{Error, Expected};
use crate::value::{json_of_entries, json_of_items, kind_of, Json, Value};

verus! {

/// Typed extraction from a [`Value`]: the payload where the value has the
/// shape asked for, a type-mismatch error naming both shapes where not.
pub trait TryFromValue: Sized {
    /// Whether a value of view `v` converts.
    spec fn converts(v: Json) -> bool;

    /// Whether `r` is what a value of view `v` converts to.
    spec fn converted(v: Json, r: Self) -> bool;

    /// The shape that a failed conversion reports as expected.
    spec fn expected() -> Expected;

    fn try_from(value: Value) -> (r: Result<Self, Error>)
        ensures
            match r {
                Ok(x) => Self::converts(value@) && Self::converted(value@, x),
                Err(e) => !Self::converts(value@) && e == (Error::TypeMismatch {
                    expected: Self::expected(),
                    found: kind_of(value@),
                }),
            },
    ;
}

/// Every value converts to itself.
impl TryFromValue for Value {
    open spec fn converts(v: Json) -> bool {
        true
    }

    open spec fn converted(v: Json, r: Value) -> bool {
        r@ == v
    }

    /// Never reported: the conversion does not fail.
    open spec fn expected() -> Expected {
        Expected::Object
    }

    fn try_from(value: Value) -> (r: Result<Value, Error>) {
        Ok(value)
    }
}

impl TryFromValue for bool {
    open spec fn converts(v: Json) -> bool {
        v is Bool
    }

    open spec fn converted(v: Json, r: bool) -> bool {
        v == Json::Bool(r)
    }

    open spec fn expected() -> Expected {
        Expected::Bool
    }

    fn try_from(value: Value) -> (r: Result<bool, Error>) {
        match value {
            Value::Bool(b) => Ok(b),
            other => Err(Error::TypeMismatch { expected: Expected::Bool, found: other.kind() }),
        }
    }
}

impl TryFromValue for i64 {
    open spec fn converts(v: Json) -> bool {
        v is Int
    }

    open spec fn converted(v: Json, r: i64) -> bool {
        v == Json::Int(r)
    }

    open spec fn expected() -> Expected {
        Expected::I64
    }

    fn try_from(value: Value) -> (r: Result<i64, Error>) {
        match value {
            Value::Int(n) => Ok(n),
            other => Err(Error::TypeMismatch { expected: Expected::I64, found: other.kind() }),
        }
    }
}

/// Integers that are not negative convert.
impl TryFromValue for u64 {
    open spec fn converts(v: Json) -> bool {
        v matches Json::Int(n) && n >= 0
    }

    open spec fn converted(v: Json, r: u64) -> bool {
        v == Json::Int(r as i64) && r <= i64::MAX
    }

    open spec fn expected() -> Expected {
        Expected::U64
    }

    fn try_from(value: Value) -> (r: Result<u64, Error>) {
        match value {
            Value::Int(n) if n >= 0 => Ok(n as u64),
            other => Err(Error::TypeMismatch { expected: Expected::U64, found: other.kind() }),
        }
    }
}

impl TryFromValue for String {
    open spec fn converts(v: Json) -> bool {
        v is Str
    }

    open spec fn converted(v: Json, r: String) -> bool {
        v == Json::Str(r@)
    }

    open spec fn expected() -> Expected {
        Expected::String
    }

    fn try_from(value: Value) -> (r: Result<String, Error>) {
        match value {
            Value::String(s) => Ok(s),
            other => Err(Error::TypeMismatch { expected: Expected::String, found: other.kind() }),
        }
    }
}

impl TryFromValue for Vec<Value> {
    open spec fn converts(v: Json) -> bool {
        v is Array
    }

    open spec fn converted(v: Json, r: Vec<Value>) -> bool {
        v == Json::Array(json_of_items(r@))
    }

    open spec fn expected() -> Expected {
        Expected::Array
    }

    fn try_from(value: Value) -> (r: Result<Vec<Value>, Error>) {
        match value {
            Value::Array(items) => Ok(items),
            other => Err(Error::TypeMismatch { expected: Expected::Array, found: other.kind() }),
        }
    }
}

/// An object converts to its entries, in order.
impl TryFromValue for Vec<(String, Value)> {
    open spec fn converts(v: Json) -> bool {
        v is Object
    }

    open spec fn converted(v: Json, r: Vec<(String, Value)>) -> bool {
        v == Json::Object(json_of_entries(r@))
    }

    open spec fn expected() -> Expected {
        Expected::Object
    }

    fn try_from(value: Value) -> (r: Result<Vec<(String, Value)>, Error>) {
        match value {
            Value::Object(entries) => Ok(entries),
            other => Err(Error::TypeMismatch { expected: Expected::Object, found: other.kind() }),
        }
    }
}

} // verus!
