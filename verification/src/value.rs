use vstd::prelude::*;

verus! {

/// The value types a declared field can carry.
#[derive(Clone, Copy, PartialEq, Eq, Structural, Debug)]
pub enum ValueKind {
    Flag,
    Int,
    Text,
}

/// A plain field value. Each declared field holds values of exactly one
/// kind, fixed when the field's level is constructed.
#[derive(PartialEq, Eq, Debug)]
pub enum Value {
    Flag(bool),
    Int(i64),
    Text(String),
}

impl Value {
    /// The kind of this value.
    pub open spec fn kind_spec(self) -> ValueKind {
        match self {
            Value::Flag(_) => ValueKind::Flag,
            Value::Int(_) => ValueKind::Int,
            Value::Text(_) => ValueKind::Text,
        }
    }

    /// Runtime counterpart of [`Value::kind_spec`].
    pub fn kind(&self) -> (k: ValueKind)
        ensures
            k == self.kind_spec(),
    {
        match self {
            Value::Flag(_) => ValueKind::Flag,
            Value::Int(_) => ValueKind::Int,
            Value::Text(_) => ValueKind::Text,
        }
    }
}

impl Clone for Value {
    /// Cloning yields an equal value: getters hand out snapshots.
    fn clone(&self) -> (r: Self)
        ensures
            r == self,
    {
        match self {
            Value::Flag(b) => Value::Flag(*b),
            Value::Int(i) => Value::Int(*i),
            Value::Text(s) => Value::Text(s.clone()),
        }
    }
}

} // verus!
