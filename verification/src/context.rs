//! Column resolution over chained row scopes.
//!
//! A [`FilterContext`] is a resolution scope built from a (table, column
//! list, row) triple, optionally chained to a parent scope; a
//! [`BlendContext`] is an independent scope for a row being assembled from
//! several sources. Lookup walks a scope's own triple first and falls
//! through to the parent; two scopes are never merged into one namespace, so
//! an inner scope always shadows an outer one.

use vstd::prelude::*;

use crate::ast::{Column, Table};
use crate::data::{Row, Value};

verus! {

/// Whether a column reference's table qualifier admits the given table: an
/// unqualified reference admits any table, a qualified one only its own.
pub open spec fn qualifier_matches(col: Column, table: Table) -> bool {
    match col.table {
        Some(t) => t@ == table.name@,
        None => true,
    }
}

/// The position of the first column of `columns` named `name`.
pub open spec fn column_position(columns: Seq<Column>, name: Seq<char>) -> Option<int>
    decreases columns.len(),
{
    if columns.len() == 0 {
        None
    } else if columns[0].name@ == name {
        Some(0int)
    } else {
        match column_position(columns.drop_first(), name) {
            Some(j) => Some(j + 1),
            None => None,
        }
    }
}

/// When no column is named `name`, there is no position.
pub proof fn lemma_column_position_none(columns: Seq<Column>, name: Seq<char>)
    requires
        forall|k: int| 0 <= k < columns.len() ==> columns[k].name@ != name,
    ensures
        column_position(columns, name) is None,
    decreases columns.len(),
{
    if columns.len() > 0 {
        lemma_column_position_none(columns.drop_first(), name);
    }
}

/// The position of the first column named `name` is the least index holding
/// that name.
pub proof fn lemma_column_position_first(columns: Seq<Column>, name: Seq<char>, j: int)
    requires
        0 <= j < columns.len(),
        columns[j].name@ == name,
        forall|k: int| 0 <= k < j ==> columns[k].name@ != name,
    ensures
        column_position(columns, name) == Some(j),
    decreases columns.len(),
{
    if j > 0 {
        lemma_column_position_first(columns.drop_first(), name, j - 1);
    }
}

/// The value a single (table, columns, row) scope gives a column reference:
/// the row value at the first matching column's position, if the qualifier
/// admits the table and the position lies within the row.
pub open spec fn scope_value(table: Table, columns: Seq<Column>, row: Seq<Value>, col: Column) -> Option<Value> {
    if !qualifier_matches(col, table) {
        None
    } else {
        match column_position(columns, col.name@) {
            Some(j) => if j < row.len() {
                Some(row[j])
            } else {
                None
            },
            None => None,
        }
    }
}

/// Resolves a column reference against one (table, columns, row) triple,
/// borrowing the value from the row.
pub fn scope_get<'a>(table: &Table, columns: &Vec<Column>, row: &'a Row, col: &Column) -> (r: Option<&'a Value>)
    ensures
        match r {
            Some(v) => scope_value(*table, columns@, row.values@, *col) == Some(*v),
            None => scope_value(*table, columns@, row.values@, *col) is None,
        },
{
    let admitted = match &col.table {
        Some(t) => *t == table.name,
        None => true,
    };
    if !admitted {
        None
    } else {
        let n = columns.len();
        let mut j: usize = 0;
        while j < n
            invariant
                qualifier_matches(*col, *table),
                n == columns@.len(),
                0 <= j <= n,
                forall|k: int| 0 <= k < j ==> columns@[k].name@ != col.name@,
            decreases n - j,
        {
            if columns[j].name == col.name {
                proof {
                    lemma_column_position_first(columns@, col.name@, j as int);
                }
                if j < row.values.len() {
                    return Some(&row.values[j]);
                } else {
                    return None;
                }
            }
            j += 1;
        }
        proof {
            lemma_column_position_none(columns@, col.name@);
        }
        None
    }
}

/// A resolution scope over a (table, columns, row) triple, chained to an
/// optional parent scope. Constructed fresh per filter check and dropped
/// right after; it borrows the caller's data and owns nothing.
#[derive(Clone, Copy)]
pub struct FilterContext<'a> {
    pub table: &'a Table,
    pub columns: &'a Vec<Column>,
    pub row: &'a Row,
    pub next: Option<&'a FilterContext<'a>>,
}

impl<'a> FilterContext<'a> {
    /// The value this scope's own triple gives a column reference.
    pub open spec fn own_value(self, col: Column) -> Option<Value> {
        scope_value(*self.table, self.columns@, self.row.values@, col)
    }

    /// The value the whole chain gives a column reference: this scope's own
    /// triple first, then the parent chain.
    pub open spec fn chain_value(self, col: Column) -> Option<Value>
        decreases self,
    {
        match self.own_value(col) {
            Some(v) => Some(v),
            None => match self.next {
                Some(n) => n.chain_value(col),
                None => None,
            },
        }
    }

    /// Builds a scope from a triple and an optional parent.
    pub fn new(table: &'a Table, columns: &'a Vec<Column>, row: &'a Row, next: Option<&'a FilterContext<'a>>) -> (r: FilterContext<'a>)
        ensures
            r.table == table,
            r.columns == columns,
            r.row == row,
            r.next == next,
    {
        FilterContext { table, columns, row, next }
    }

    /// Resolves a column reference through the chain, innermost scope first.
    pub fn get_value(&self, col: &Column) -> (r: Option<&'a Value>)
        ensures
            match r {
                Some(v) => self.chain_value(*col) == Some(*v),
                None => self.chain_value(*col) is None,
            },
        decreases *self,
    {
        match scope_get(self.table, self.columns, self.row, col) {
            Some(v) => Some(v),
            None => match self.next {
                Some(n) => n.get_value(col),
                None => None,
            },
        }
    }
}

/// A scope for a row under construction from several sources, with its own
/// chain; consulted as an additional fallback between a filter's current
/// scope and the filter's outer chain.
#[derive(Clone, Copy)]
pub struct BlendContext<'a> {
    pub table: &'a Table,
    pub columns: &'a Vec<Column>,
    pub row: &'a Row,
    pub next: Option<&'a BlendContext<'a>>,
}

impl<'a> BlendContext<'a> {
    /// The value this scope's own triple gives a column reference.
    pub open spec fn own_value(self, col: Column) -> Option<Value> {
        scope_value(*self.table, self.columns@, self.row.values@, col)
    }

    /// The value the whole blend chain gives a column reference.
    pub open spec fn chain_value(self, col: Column) -> Option<Value>
        decreases self,
    {
        match self.own_value(col) {
            Some(v) => Some(v),
            None => match self.next {
                Some(n) => n.chain_value(col),
                None => None,
            },
        }
    }

    /// Builds a blend scope from a triple and an optional parent.
    pub fn new(table: &'a Table, columns: &'a Vec<Column>, row: &'a Row, next: Option<&'a BlendContext<'a>>) -> (r: BlendContext<'a>)
        ensures
            r.table == table,
            r.columns == columns,
            r.row == row,
            r.next == next,
    {
        BlendContext { table, columns, row, next }
    }

    /// Resolves a column reference through the blend chain.
    pub fn get_value(&self, col: &Column) -> (r: Option<&'a Value>)
        ensures
            match r {
                Some(v) => self.chain_value(*col) == Some(*v),
                None => self.chain_value(*col) is None,
            },
        decreases *self,
    {
        match scope_get(self.table, self.columns, self.row, col) {
            Some(v) => Some(v),
            None => match self.next {
                Some(n) => n.get_value(col),
                None => None,
            },
        }
    }
}

/// The value the full resolution order gives a column reference: the
/// filter's current (table, row) scope first, then the blend scope's own
/// chain, then the filter's parent chain. Ambiguity is settled by this
/// precedence alone; namespaces are never merged.
pub open spec fn resolve_value(ctx: FilterContext, blend: Option<BlendContext>, col: Column) -> Option<Value> {
    match ctx.own_value(col) {
        Some(v) => Some(v),
        None => {
            let from_blend = match blend {
                Some(b) => b.chain_value(col),
                None => None,
            };
            match from_blend {
                Some(v) => Some(v),
                None => match ctx.next {
                    Some(n) => n.chain_value(col),
                    None => None,
                },
            }
        },
    }
}

/// Resolves a column reference in the full order: current scope, then blend
/// chain, then outer chain.
pub fn resolve_get<'a>(ctx: &FilterContext<'a>, blend: Option<&BlendContext<'a>>, col: &Column) -> (r: Option<&'a Value>)
    ensures
        match r {
            Some(v) => resolve_value(*ctx, blend_view(blend), *col) == Some(*v),
            None => resolve_value(*ctx, blend_view(blend), *col) is None,
        },
{
    match scope_get(ctx.table, ctx.columns, ctx.row, col) {
        Some(v) => Some(v),
        None => {
            let from_blend = match blend {
                Some(b) => b.get_value(col),
                None => None,
            };
            match from_blend {
                Some(v) => Some(v),
                None => match ctx.next {
                    Some(n) => n.get_value(col),
                    None => None,
                },
            }
        },
    }
}

/// The scope an optional borrowed blend context stands for.
pub open spec fn blend_view<'a>(blend: Option<&'a BlendContext<'a>>) -> Option<BlendContext<'a>> {
    match blend {
        Some(b) => Some(*b),
        None => None,
    }
}

} // verus!
