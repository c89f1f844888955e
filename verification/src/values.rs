use vstd::prelude::*;

verus! {

// ---------------------------------------------------------------------------
// Runtime values.  The conversion routines the engine synthesizes act on
// instances of the source and generated structures; this module models such
// an instance as one value per field.  A value is one of a small set of
// shapes, each with a canonical zero (the "zero-value fallback" of the
// infallible conversions).
// ---------------------------------------------------------------------------
/// A runtime field value.
#[derive(Debug)]
pub enum Value {
    Int(i64),
    Text(String),
    Flag(bool),
    Bytes(Vec<u8>),
}

/// Ghost image of `Value`.
pub enum ValueV {
    Int(int),
    Text(Seq<char>),
    Flag(bool),
    Bytes(Seq<u8>),
}

impl View for Value {
    type V = ValueV;

    open spec fn view(&self) -> ValueV {
        match self {
            Value::Int(n) => ValueV::Int(*n as int),
            Value::Text(s) => ValueV::Text(s@),
            Value::Flag(b) => ValueV::Flag(*b),
            Value::Bytes(v) => ValueV::Bytes(v@),
        }
    }
}

/// The shape of a value, used to pick the canonical zero of a field whose
/// value is absent.
#[derive(Clone, Copy, Debug, PartialEq, Eq, Structural)]
pub enum ValueKind {
    Int,
    Text,
    Flag,
    Bytes,
}

impl ValueV {
    /// The shape of a ghost value.
    pub open spec fn kind(self) -> ValueKind {
        match self {
            ValueV::Int(_) => ValueKind::Int,
            ValueV::Text(_) => ValueKind::Text,
            ValueV::Flag(_) => ValueKind::Flag,
            ValueV::Bytes(_) => ValueKind::Bytes,
        }
    }
}

/// The canonical zero of each value shape: integer 0, the empty string,
/// `false`, the empty byte sequence.
pub open spec fn spec_zero_value(kind: ValueKind) -> ValueV {
    match kind {
        ValueKind::Int => ValueV::Int(0),
        ValueKind::Text => ValueV::Text(Seq::empty()),
        ValueKind::Flag => ValueV::Flag(false),
        ValueKind::Bytes => ValueV::Bytes(Seq::empty()),
    }
}

/// Produce the canonical zero of a value shape.
pub fn zero_value(kind: ValueKind) -> (r: Value)
    ensures
        r@ == spec_zero_value(kind),
{
    match kind {
        ValueKind::Int => Value::Int(0),
        ValueKind::Text => Value::Text(String::new()),
        ValueKind::Flag => Value::Flag(false),
        ValueKind::Bytes => Value::Bytes(Vec::new()),
    }
}

impl Value {
    /// The shape of this value.
    pub fn kind(&self) -> (r: ValueKind)
        ensures
            r == self@.kind(),
    {
        match self {
            Value::Int(_) => ValueKind::Int,
            Value::Text(_) => ValueKind::Text,
            Value::Flag(_) => ValueKind::Flag,
            Value::Bytes(_) => ValueKind::Bytes,
        }
    }

    /// Structure-preserving copy.
    pub fn dup(&self) -> (r: Value)
        ensures
            r@ == self@,
    {
        match self {
            Value::Int(n) => Value::Int(*n),
            Value::Text(s) => Value::Text(s.clone()),
            Value::Flag(b) => Value::Flag(*b),
            Value::Bytes(v) => Value::Bytes(copy_bytes(v)),
        }
    }

    /// Compare two values for equality of content.
    pub fn same_as(&self, other: &Value) -> (r: bool)
        ensures
            r == (self@ == other@),
    {
        match (self, other) {
            (Value::Int(a), Value::Int(b)) => *a == *b,
            (Value::Text(a), Value::Text(b)) => a.eq(b),
            (Value::Flag(a), Value::Flag(b)) => *a == *b,
            (Value::Bytes(a), Value::Bytes(b)) => bytes_eq(a, b),
            _ => {
                proof {
                    assert(self@.kind() != other@.kind());
                }
                false
            },
        }
    }
}

/// Copy a byte vector.
fn copy_bytes(v: &Vec<u8>) -> (r: Vec<u8>)
    ensures
        r@ == v@,
{
    let mut out: Vec<u8> = Vec::new();
    for i in 0..v.len()
        invariant
            out@ == v@.subrange(0, i as int),
    {
        out.push(v[i]);
        proof {
            assert(out@ =~= v@.subrange(0, i + 1 as int));
        }
    }
    proof {
        assert(out@ =~= v@);
    }
    out
}

/// Compare two byte vectors for equality of content.
fn bytes_eq(a: &Vec<u8>, b: &Vec<u8>) -> (r: bool)
    ensures
        r == (a@ == b@),
{
    if a.len() != b.len() {
        proof {
            assert(a@ != b@);
        }
        return false;
    }
    for i in 0..a.len()
        invariant
            a@.len() == b@.len(),
            forall|j: int| 0 <= j < i ==> a@[j] == b@[j],
    {
        if a[i] != b[i] {
            return false;
        }
    }
    proof {
        assert(a@ =~= b@);
    }
    true
}

/// The runtime content of one field of a structure instance: an optional
/// field holds a possibly-absent value, a required field holds a value.
#[derive(Debug)]
pub enum FieldVal {
    Opt(Option<Value>),
    Req(Value),
}

/// Ghost image of `FieldVal`.
pub enum FieldValV {
    Opt(Option<ValueV>),
    Req(ValueV),
}

impl View for FieldVal {
    type V = FieldValV;

    open spec fn view(&self) -> FieldValV {
        match self {
            FieldVal::Opt(ov) => FieldValV::Opt(
                match ov {
                    Some(v) => Some(v@),
                    None => None,
                },
            ),
            FieldVal::Req(v) => FieldValV::Req(v@),
        }
    }
}

impl FieldVal {
    /// Structure-preserving copy.
    pub fn dup(&self) -> (r: FieldVal)
        ensures
            r@ == self@,
    {
        match self {
            FieldVal::Opt(ov) => FieldVal::Opt(
                match ov {
                    Some(v) => Some(v.dup()),
                    None => None,
                },
            ),
            FieldVal::Req(v) => FieldVal::Req(v.dup()),
        }
    }
}

/// Ghost image of a structure instance: one field value per field, in
/// declaration order.
pub open spec fn record_view(rec: Seq<FieldVal>) -> Seq<FieldValV> {
    Seq::new(rec.len(), |i: int| rec[i]@)
}

} // verus!
