//! Predicate evaluation and row filtering for a SQL execution engine.
//!
//! The crate evaluates WHERE-clause condition trees against rows, resolving
//! column references through chained scopes (an outer filter scope and an
//! inner blended row scope), and comparing scalars uniformly whether they
//! arrived as parsed literals, references into stored rows, or freshly
//! computed subquery results.

pub mod ast;
pub mod context;
pub mod data;
pub mod evaluate;
pub mod filter;
pub mod laws;
pub mod store;

pub use ast::{Column, ConditionBase, ConditionExpression, ConditionTree, Literal, Operator};
pub use ast::{Subquery, Table};
pub use context::{BlendContext, FilterContext};
pub use data::{Row, Value};
pub use evaluate::{FilterError, Parsed, ParsedList};
pub use filter::{BlendedFilter, Filter};
pub use store::{FixedRows, QueryRows, Store};
