//! The condition-expression tree of a WHERE clause.
//!
//! These types are the library's own model of the parsed SQL constructs the
//! evaluator reads: a scalar literal, a column reference, an operator, and
//! the recursive condition tree built from them. A nested SELECT is carried
//! as an opaque [`Subquery`] token; executing it belongs to the storage
//! collaborator, never to this crate.

use vstd::prelude::*;

use crate::data::Value;

verus! {

/// A scalar parsed from SQL source text.
#[derive(Clone, Debug)]
pub enum Literal {
    Null,
    Integer(i64),
    Text(String),
}

impl Literal {
    /// The runtime value a literal denotes.
    pub open spec fn value_spec(self) -> Value {
        match self {
            Literal::Null => Value::Null,
            Literal::Integer(i) => Value::I64(i),
            Literal::Text(s) => Value::Str(s),
        }
    }

    /// Converts the literal to the runtime value it denotes.
    pub fn to_value(&self) -> (r: Value)
        ensures
            r == self.value_spec(),
    {
        match self {
            Literal::Null => Value::Null,
            Literal::Integer(i) => Value::I64(*i),
            Literal::Text(s) => Value::Str(s.clone()),
        }
    }
}

/// A table named in a statement.
#[derive(Clone, Debug)]
pub struct Table {
    pub name: String,
}

/// A column reference, optionally qualified by a table name.
#[derive(Clone, Debug)]
pub struct Column {
    pub name: String,
    pub table: Option<String>,
}

/// A comparison or logical operator of a condition tree. The evaluator
/// supports `Equal`, `NotEqual`, `And`, `Or` and `In`; every other operator
/// evaluates fail-closed to false.
#[derive(Clone, Copy, PartialEq, Eq, Structural, Debug)]
pub enum Operator {
    Not,
    And,
    Or,
    Like,
    NotLike,
    Equal,
    NotEqual,
    Greater,
    GreaterOrEqual,
    Less,
    LessOrEqual,
    In,
    Is,
}

/// An opaque token naming a nested SELECT statement. The evaluator hands it
/// to the storage collaborator, which interprets it; the evaluator itself
/// never looks inside the statement.
#[derive(Clone, Copy, PartialEq, Eq, Structural, Debug)]
pub struct Subquery {
    pub id: u64,
}

/// A leaf operand of a condition tree.
#[derive(Clone, Debug)]
pub enum ConditionBase {
    /// A column reference, resolved against the context chain.
    Field(Column),
    /// A scalar literal.
    Literal(Literal),
    /// An eagerly available list of literals, for set membership.
    LiteralList(Vec<Literal>),
    /// A nested SELECT, executed lazily by the storage collaborator.
    NestedSelect(Subquery),
}

/// A binary node of a condition tree: an operator over two sub-expressions.
#[derive(Debug)]
pub struct ConditionTree {
    pub operator: Operator,
    pub left: Box<ConditionExpression>,
    pub right: Box<ConditionExpression>,
}

/// A WHERE-clause condition tree. Immutable once built; evaluation never
/// mutates it.
#[derive(Debug)]
pub enum ConditionExpression {
    ComparisonOp(ConditionTree),
    LogicalOp(ConditionTree),
    NegationOp(Box<ConditionExpression>),
    Bracketed(Box<ConditionExpression>),
    Base(ConditionBase),
    /// A node kind outside the evaluator's scope (for instance an arithmetic
    /// expression); it evaluates fail-closed to false.
    Unsupported,
}

} // verus!
