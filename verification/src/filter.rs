//! The public predicate objects bound to a WHERE clause.
//!
//! A [`Filter`] is a read-only view over an optional WHERE-clause tree and
//! an optional outer resolution scope; each check builds a fresh scope from
//! the (table, columns, row) triple it is given, chained to that outer
//! scope. A [`BlendedFilter`] additionally supplies the scope of a row
//! under construction, consulted between the current scope and the outer
//! chain. A missing WHERE clause admits every row.

use vstd::prelude::*;

use crate::ast::{Column, ConditionExpression, Table};
use crate::context::{BlendContext, FilterContext};
use crate::data::Row;
use crate::evaluate::{check_expr, eval_expr, FilterError};
use crate::store::Store;

verus! {

/// The row-filtering predicate of a WHERE clause, with an optional outer
/// scope for correlated evaluation.
#[derive(Clone, Copy)]
pub struct Filter<'a> {
    pub where_clause: Option<&'a ConditionExpression>,
    pub context: Option<&'a FilterContext<'a>>,
}

impl<'a> Filter<'a> {
    /// Binds a predicate to a WHERE clause and an outer scope.
    pub fn new(
        where_clause: Option<&'a ConditionExpression>,
        context: Option<&'a FilterContext<'a>>,
    ) -> (r: Filter<'a>)
        ensures
            r.where_clause == where_clause,
            r.context == context,
    {
        Filter { where_clause, context }
    }

    /// The verdict a check of this filter reaches on a (table, columns,
    /// row) triple, with an optional blend scope: true without a WHERE
    /// clause, else the evaluation of the clause against the fresh scope
    /// chained to the filter's outer scope.
    pub open spec fn check_spec<S: Store>(
        self,
        storage: &S,
        table: &Table,
        columns: &Vec<Column>,
        row: &Row,
        blend: Option<BlendContext<'a>>,
    ) -> Result<bool, FilterError> {
        match self.where_clause {
            None => Ok(true),
            Some(expr) => eval_expr(
                storage,
                FilterContext { table, columns, row, next: self.context },
                blend,
                *expr,
            ),
        }
    }

    /// Decides whether the row passes the filter. A missing WHERE clause
    /// admits every row.
    pub fn check<S: Store>(
        &self,
        storage: &S,
        table: &Table,
        columns: &Vec<Column>,
        row: &Row,
    ) -> (r: Result<bool, FilterError>)
        ensures
            r == self.check_spec(storage, table, columns, row, None::<BlendContext>),
            self.where_clause is None ==> r == Ok::<bool, FilterError>(true),
    {
        match self.where_clause {
            None => Ok(true),
            Some(expr) => {
                let ctx = FilterContext::new(table, columns, row, self.context);
                check_expr(storage, &ctx, None, expr)
            },
        }
    }
}

/// A filter paired with the scope of a row under construction, so that
/// blended column references resolve between the current scope and the
/// filter's outer chain.
#[derive(Clone, Copy)]
pub struct BlendedFilter<'a> {
    pub filter: &'a Filter<'a>,
    pub context: &'a BlendContext<'a>,
}

impl<'a> BlendedFilter<'a> {
    /// Pairs a filter with a blend scope.
    pub fn new(filter: &'a Filter<'a>, context: &'a BlendContext<'a>) -> (r: BlendedFilter<'a>)
        ensures
            r.filter == filter,
            r.context == context,
    {
        BlendedFilter { filter, context }
    }

    /// Decides whether the row passes the filter, with the blend scope
    /// supplied to resolution. A missing WHERE clause admits every row.
    pub fn check<S: Store>(
        &self,
        storage: &S,
        table: &Table,
        columns: &Vec<Column>,
        row: &Row,
    ) -> (r: Result<bool, FilterError>)
        ensures
            r == self.filter.check_spec(storage, table, columns, row, Some(*self.context)),
            self.filter.where_clause is None ==> r == Ok::<bool, FilterError>(true),
    {
        match self.filter.where_clause {
            None => Ok(true),
            Some(expr) => {
                let ctx = FilterContext::new(table, columns, row, self.filter.context);
                check_expr(storage, &ctx, Some(self.context), expr)
            },
        }
    }
}

} // verus!
