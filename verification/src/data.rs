//! Runtime values and rows.
//!
//! A [`Value`] is the canonical typed scalar produced by storage reads and by
//! computed expressions; a [`Row`] is an ordered sequence of values aligned
//! positionally with a table's declared columns.

use vstd::prelude::*;

verus! {

/// A typed runtime value produced by storage reads or literal conversion.
#[derive(Debug)]
pub enum Value {
    I64(i64),
    Str(String),
    Bool(bool),
    Null,
}

impl Value {
    /// Type-aware structural equality: two values are equal exactly when they
    /// are the same variant carrying the same content. A null is equal to a
    /// null and unequal to every other value.
    pub open spec fn eq_spec(self, other: Value) -> bool {
        match (self, other) {
            (Value::I64(a), Value::I64(b)) => a == b,
            (Value::Str(a), Value::Str(b)) => a@ == b@,
            (Value::Bool(a), Value::Bool(b)) => a == b,
            (Value::Null, Value::Null) => true,
            _ => false,
        }
    }

    /// Decides equality of two values.
    pub fn matches(&self, other: &Value) -> (r: bool)
        ensures
            r == self.eq_spec(*other),
    {
        match (self, other) {
            (Value::I64(a), Value::I64(b)) => *a == *b,
            (Value::Str(a), Value::Str(b)) => *a == *b,
            (Value::Bool(a), Value::Bool(b)) => *a == *b,
            (Value::Null, Value::Null) => true,
            _ => false,
        }
    }
}

impl Clone for Value {
    /// A clone is the same value.
    fn clone(&self) -> (r: Value)
        ensures
            r == *self,
    {
        match self {
            Value::I64(a) => Value::I64(*a),
            Value::Str(s) => Value::Str(s.clone()),
            Value::Bool(b) => Value::Bool(*b),
            Value::Null => Value::Null,
        }
    }
}

/// An ordered sequence of values, positionally aligned with a table's columns.
#[derive(Debug)]
pub struct Row {
    pub values: Vec<Value>,
}

impl Row {
    /// Borrows the first column's value, used to collapse a subquery's row
    /// into a scalar; yields nothing when the row has no columns.
    pub fn first_value(&self) -> (r: Option<&Value>)
        ensures
            match r {
                Some(v) => self.values@.len() > 0 && *v == self.values@[0],
                None => self.values@.len() == 0,
            },
    {
        if self.values.len() > 0 {
            Some(&self.values[0])
        } else {
            None
        }
    }
}

} // verus!
