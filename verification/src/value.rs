//! The heterogeneous payload of a slot, and its runtime shape tag.
//!
//! Slots hold values of unrelated shapes under one table. The shapes form a
//! closed sum: each variant of [`Value`] is one shape, and [`ValueKind`] is
//! the runtime tag that distinguishes them. The tag doubles as the key of the
//! type-keyed view, and as the discriminant of the checked cast a caller
//! performs by matching on the variant it registered.

use vstd::prelude::*;

verus! {

/// The runtime shape tag of a [`Value`]: one tag per variant.
#[derive(Clone, Copy, PartialEq, Eq, Structural, Debug, Hash)]
pub enum ValueKind {
    /// Tag of [`Value::Int`].
    Int,
    /// Tag of [`Value::Uint`].
    Uint,
    /// Tag of [`Value::Flag`].
    Flag,
    /// Tag of [`Value::Text`].
    Text,
}

impl View for ValueKind {
    type V = ValueKind;

    open spec fn view(&self) -> ValueKind {
        *self
    }
}

/// One heterogeneous value: a closed sum of the shapes the store can hold.
pub enum Value {
    /// A signed machine integer.
    Int(i64),
    /// An unsigned machine integer.
    Uint(u64),
    /// A boolean flag.
    Flag(bool),
    /// An owned piece of text.
    Text(String),
}

impl Value {
    /// The shape tag of this value, as a specification-level function.
    pub open spec fn spec_kind(&self) -> ValueKind {
        match self {
            Value::Int(_) => ValueKind::Int,
            Value::Uint(_) => ValueKind::Uint,
            Value::Flag(_) => ValueKind::Flag,
            Value::Text(_) => ValueKind::Text,
        }
    }

    /// The shape tag of this value.
    #[verifier::when_used_as_spec(spec_kind)]
    pub fn kind(&self) -> (k: ValueKind)
        ensures
            k == self.spec_kind(),
    {
        match self {
            Value::Int(_) => ValueKind::Int,
            Value::Uint(_) => ValueKind::Uint,
            Value::Flag(_) => ValueKind::Flag,
            Value::Text(_) => ValueKind::Text,
        }
    }
}

impl Clone for Value {
    /// Cloning a value preserves it exactly.
    fn clone(&self) -> (r: Self)
        ensures
            r == *self,
    {
        match self {
            Value::Int(i) => Value::Int(*i),
            Value::Uint(u) => Value::Uint(*u),
            Value::Flag(b) => Value::Flag(*b),
            Value::Text(s) => Value::Text(s.clone()),
        }
    }
}

} // verus!
