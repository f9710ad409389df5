//! The row-producing storage collaborator.
//!
//! The evaluator treats storage as an opaque capability: given a nested
//! SELECT and the scope it is correlated with, storage produces a finite
//! sequence of rows, addressable one at a time so that a membership scan can
//! stop pulling as soon as it has an answer. [`FixedRows`] is a verified
//! in-memory backend that serves a fixed result set per statement.

use vstd::prelude::*;

use crate::ast::Subquery;
use crate::context::FilterContext;
use crate::data::Row;

verus! {

/// A storage backend able to execute a nested SELECT statement. Pluggable:
/// in-memory, file-backed and other backends implement it alike.
pub trait Store {
    /// The finite sequence of rows the store produces for a nested SELECT
    /// in the given correlation scope, in order.
    spec fn rows(&self, query: Subquery, ctx: FilterContext<'_>) -> Seq<Row>;

    /// Produces row `i` of that sequence, or nothing when the sequence is
    /// exhausted. Each call addresses the sequence afresh, so a scan pulls
    /// only as many rows as it needs and may restart at will.
    fn select_row<'s>(&'s self, query: &Subquery, ctx: &FilterContext<'_>, i: usize) -> (r: Option<&'s Row>)
        ensures
            match r {
                Some(row) => {
                    &&& i < self.rows(*query, *ctx).len()
                    &&& *row == self.rows(*query, *ctx)[i as int]
                },
                None => self.rows(*query, *ctx).len() <= i,
            },
            self.rows(*query, *ctx).len() <= usize::MAX,
    ;
}

/// One stored result set: the rows a given nested SELECT produces.
#[derive(Debug)]
pub struct QueryRows {
    pub query: Subquery,
    pub rows: Vec<Row>,
}

/// An in-memory backend holding, for each known nested SELECT, a fixed
/// result set. A statement it does not know produces no rows, and the
/// correlation scope does not change what it returns.
#[derive(Debug)]
pub struct FixedRows {
    pub sets: Vec<QueryRows>,
}

/// The result set of the first entry of `sets` holding `query`; empty when
/// none does.
pub open spec fn rows_of(sets: Seq<QueryRows>, query: Subquery) -> Seq<Row>
    decreases sets.len(),
{
    if sets.len() == 0 {
        Seq::empty()
    } else if sets[0].query == query {
        sets[0].rows@
    } else {
        rows_of(sets.drop_first(), query)
    }
}

/// When no entry holds `query`, the result set is empty.
proof fn lemma_rows_of_none(sets: Seq<QueryRows>, query: Subquery)
    requires
        forall|k: int| 0 <= k < sets.len() ==> sets[k].query != query,
    ensures
        rows_of(sets, query) == Seq::<Row>::empty(),
    decreases sets.len(),
{
    if sets.len() > 0 {
        lemma_rows_of_none(sets.drop_first(), query);
    }
}

/// The result set comes from the first entry holding `query`.
proof fn lemma_rows_of_first(sets: Seq<QueryRows>, query: Subquery, j: int)
    requires
        0 <= j < sets.len(),
        sets[j].query == query,
        forall|k: int| 0 <= k < j ==> sets[k].query != query,
    ensures
        rows_of(sets, query) == sets[j].rows@,
    decreases sets.len(),
{
    if j > 0 {
        lemma_rows_of_first(sets.drop_first(), query, j - 1);
    }
}

impl Store for FixedRows {
    open spec fn rows(&self, query: Subquery, ctx: FilterContext<'_>) -> Seq<Row> {
        rows_of(self.sets@, query)
    }

    fn select_row<'s>(&'s self, query: &Subquery, ctx: &FilterContext<'_>, i: usize) -> (r: Option<&'s Row>) {
        let n = self.sets.len();
        let mut j: usize = 0;
        while j < n
            invariant
                n == self.sets@.len(),
                0 <= j <= n,
                forall|k: int| 0 <= k < j ==> self.sets@[k].query != *query,
            decreases n - j,
        {
            if self.sets[j].query == *query {
                proof {
                    lemma_rows_of_first(self.sets@, *query, j as int);
                }
                let set_rows = &self.sets[j].rows;
                let m = set_rows.len();
                if i < m {
                    return Some(&set_rows[i]);
                } else {
                    return None;
                }
            }
            j += 1;
        }
        proof {
            lemma_rows_of_none(self.sets@, *query);
        }
        None
    }
}

} // verus!
