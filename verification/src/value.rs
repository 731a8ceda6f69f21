//! Dynamically-typed column values.

use vstd::prelude::*;

use crate::error::Error;

verus! {

/// A tagged union over the column types the database layer understands.
///
/// `Double` carries the raw IEEE-754 bit pattern of the floating-point
/// column, so that the tagged union stays within integer arithmetic; the
/// unverified edge converts with `f64::to_bits` / `f64::from_bits`.
#[derive(Clone, Debug)]
pub enum Value {
    Null,
    Bool(bool),
    BigInt(i64),
    Double(u64),
    Text(String),
    Blob(Vec<u8>),
}

/// The discriminant of a [`Value`].
#[derive(Clone, Copy, Debug, PartialEq, Eq, Structural)]
pub enum ValueKind {
    Null,
    Bool,
    BigInt,
    Double,
    Text,
    Blob,
}

/// The kind a value carries, as a spec-level function.
pub open spec fn kind_of(v: &Value) -> ValueKind {
    match v {
        Value::Null => ValueKind::Null,
        Value::Bool(_) => ValueKind::Bool,
        Value::BigInt(_) => ValueKind::BigInt,
        Value::Double(_) => ValueKind::Double,
        Value::Text(_) => ValueKind::Text,
        Value::Blob(_) => ValueKind::Blob,
    }
}

impl Value {
    pub fn is_null(&self) -> (r: bool)
        ensures
            r == (kind_of(self) == ValueKind::Null),
    {
        matches!(self, Value::Null)
    }

    /// The variant discriminant of the value.
    pub fn kind(&self) -> (r: ValueKind)
        ensures
            r == kind_of(self),
    {
        match *self {
            Value::Null => ValueKind::Null,
            Value::Bool(_) => ValueKind::Bool,
            Value::BigInt(_) => ValueKind::BigInt,
            Value::Double(_) => ValueKind::Double,
            Value::Text(_) => ValueKind::Text,
            Value::Blob(_) => ValueKind::Blob,
        }
    }

    /// Decodes a boolean column; any other variant is a `ValueParse` error.
    pub fn to_bool(&self) -> (r: Result<bool, Error>)
        ensures
            match r {
                Ok(b) => self == Value::Bool(b),
                Err(e) => !(self is Bool) && e.spec_kind() == crate::error::ErrorKind::ValueParse,
            },
    {
        match self {
            Value::Bool(v) => Ok(*v),
            _ => Err(Error::ValueParse("cannot parse bool".to_owned())),
        }
    }

    /// Decodes a 64-bit integer column.
    pub fn to_i64(&self) -> (r: Result<i64, Error>)
        ensures
            match r {
                Ok(v) => self == Value::BigInt(v),
                Err(e) => !(self is BigInt) && e.spec_kind() == crate::error::ErrorKind::ValueParse,
            },
    {
        match self {
            Value::BigInt(v) => Ok(*v),
            _ => Err(Error::ValueParse("cannot parse i64".to_owned())),
        }
    }

    /// Decodes a floating-point column as its raw bit pattern.
    pub fn to_double_bits(&self) -> (r: Result<u64, Error>)
        ensures
            match r {
                Ok(v) => self == Value::Double(v),
                Err(e) => !(self is Double) && e.spec_kind() == crate::error::ErrorKind::ValueParse,
            },
    {
        match self {
            Value::Double(v) => Ok(*v),
            _ => Err(Error::ValueParse("cannot parse f64".to_owned())),
        }
    }

    /// Decodes a text column.
    pub fn to_text(&self) -> (r: Result<String, Error>)
        ensures
            match r {
                Ok(v) => self matches Value::Text(t) && v@ == t@,
                Err(e) => !(self is Text) && e.spec_kind() == crate::error::ErrorKind::ValueParse,
            },
    {
        match self {
            Value::Text(v) => Ok(v.clone()),
            _ => Err(Error::ValueParse("cannot parse String".to_owned())),
        }
    }

    /// Decodes a blob column.
    pub fn to_blob(&self) -> (r: Result<Vec<u8>, Error>)
        ensures
            match r {
                Ok(v) => self matches Value::Blob(b) && v@ == b@,
                Err(e) => !(self is Blob) && e.spec_kind() == crate::error::ErrorKind::ValueParse,
            },
    {
        match self {
            Value::Blob(v) => Ok(v.clone()),
            _ => Err(Error::ValueParse("cannot parse Vec<u8>".to_owned())),
        }
    }

    /// Decodes a nullable 64-bit integer column: `Null` maps to `None`.
    pub fn to_opt_i64(&self) -> (r: Result<Option<i64>, Error>)
        ensures
            match r {
                Ok(v) => match v {
                    Some(i) => self == Value::BigInt(i),
                    None => self is Null,
                },
                Err(e) => !(self is BigInt) && !(self is Null)
                    && e.spec_kind() == crate::error::ErrorKind::ValueParse,
            },
    {
        match self {
            Value::Null => Ok(None),
            Value::BigInt(v) => Ok(Some(*v)),
            _ => Err(Error::ValueParse("cannot parse i64".to_owned())),
        }
    }

    /// Decodes a nullable text column: `Null` maps to `None`.
    pub fn to_opt_text(&self) -> (r: Result<Option<String>, Error>)
        ensures
            match r {
                Ok(v) => match v {
                    Some(s) => self matches Value::Text(t) && s@ == t@,
                    None => self is Null,
                },
                Err(e) => !(self is Text) && !(self is Null)
                    && e.spec_kind() == crate::error::ErrorKind::ValueParse,
            },
    {
        match self {
            Value::Null => Ok(None),
            Value::Text(v) => Ok(Some(v.clone())),
            _ => Err(Error::ValueParse("cannot parse String".to_owned())),
        }
    }

    /// Encodes an optional integer: `None` maps to `Null`.
    pub fn of_opt_i64(v: Option<i64>) -> (r: Value)
        ensures
            match v {
                Some(i) => r == Value::BigInt(i),
                None => r is Null,
            },
    {
        match v {
            Some(i) => Value::BigInt(i),
            None => Value::Null,
        }
    }
}

/// The kind a value reports pins its variant down exactly, and the
/// typed decoders re-wrap to the same value: decoding a non-Null variant
/// into its payload and encoding the payload again is the identity (see
/// the contracts of [`Value::to_bool`] and its siblings, whose `Ok`
/// case equates the input with the re-wrapped payload).
pub proof fn lemma_kind_pins_variant(v: Value)
    ensures
        (kind_of(&v) == ValueKind::Null) <==> v is Null,
        (kind_of(&v) == ValueKind::Bool) <==> v is Bool,
        (kind_of(&v) == ValueKind::BigInt) <==> v is BigInt,
        (kind_of(&v) == ValueKind::Double) <==> v is Double,
        (kind_of(&v) == ValueKind::Text) <==> v is Text,
        (kind_of(&v) == ValueKind::Blob) <==> v is Blob,
{
}

/// Deep equality on values, used by the hand-written `PartialEq`.
pub open spec fn value_eq(a: &Value, b: &Value) -> bool {
    match (a, b) {
        (Value::Null, Value::Null) => true,
        (Value::Bool(x), Value::Bool(y)) => x == y,
        (Value::BigInt(x), Value::BigInt(y)) => x == y,
        (Value::Double(x), Value::Double(y)) => x == y,
        (Value::Text(x), Value::Text(y)) => x@ == y@,
        (Value::Blob(x), Value::Blob(y)) => x@ == y@,
        _ => false,
    }
}

/// Two value sequences agree element by element up to string views:
/// what reaches the database is byte-identical.
pub open spec fn values_like(a: Seq<Value>, b: Seq<Value>) -> bool {
    a.len() == b.len() && forall|i: int| 0 <= i < a.len() ==> value_eq(&a[i], &b[i])
}

/// Byte-vector equality, element by element.
fn bytes_eq(a: &Vec<u8>, b: &Vec<u8>) -> (r: bool)
    ensures
        r == (a@ == b@),
{
    if a.len() != b.len() {
        assert(a@ != b@);
        return false;
    }
    let mut i: usize = 0;
    while i < a.len()
        invariant
            i <= a.len(),
            a.len() == b.len(),
            forall|j: int| 0 <= j < i ==> a@[j] == b@[j],
        decreases a.len() - i,
    {
        if a[i] != b[i] {
            assert(a@ != b@);
            return false;
        }
        i += 1;
    }
    proof {
        assert(a@ =~= b@);
    }
    true
}

impl PartialEq for Value {
    fn eq(&self, other: &Value) -> (r: bool) {
        match (self, other) {
            (Value::Null, Value::Null) => true,
            (Value::Bool(x), Value::Bool(y)) => {
                let r: bool = *x == *y;
                assert(r == value_eq(self, other));
                r
            },
            (Value::BigInt(x), Value::BigInt(y)) => {
                let r: bool = *x == *y;
                assert(r == value_eq(self, other));
                r
            },
            (Value::Double(x), Value::Double(y)) => {
                let r: bool = *x == *y;
                assert(r == value_eq(self, other));
                r
            },
            (Value::Text(x), Value::Text(y)) => {
                let r: bool = *x == *y;
                assert(r == value_eq(self, other));
                r
            },
            (Value::Blob(x), Value::Blob(y)) => {
                let r: bool = bytes_eq(x, y);
                assert(r == value_eq(self, other));
                r
            },
            _ => false,
        }
    }
}

impl vstd::std_specs::cmp::PartialEqSpecImpl for Value {
    open spec fn obeys_eq_spec() -> bool {
        true
    }

    open spec fn eq_spec(&self, other: &Value) -> bool {
        value_eq(self, other)
    }
}

} // verus!
