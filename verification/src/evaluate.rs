//! Recursive evaluation of condition-expression trees.
//!
//! The evaluator walks an immutable tree, resolving leaf operands through
//! the context chain, comparing scalars through a representation-agnostic
//! comparator, and checking set membership against eager literal lists or
//! lazily produced subquery rows. Unresolved references and unsupported
//! operators evaluate fail-closed to false; only a nested SELECT that
//! misbehaves in scalar position surfaces as an error.

use vstd::prelude::*;

use crate::ast::{ConditionBase, ConditionExpression, ConditionTree, Literal, Operator, Subquery};
use crate::context::{blend_view, resolve_get, resolve_value, BlendContext, FilterContext};
use crate::data::{Row, Value};
use crate::store::Store;

verus! {

/// A failure of a filter check. Unresolved columns and unsupported
/// constructs never raise one of these; they evaluate to false instead.
#[derive(Clone, Copy, PartialEq, Eq, Structural, Debug)]
pub enum FilterError {
    /// A nested SELECT used in scalar position produced no rows.
    SubqueryNoRows,
    /// A row produced by a nested SELECT has no columns.
    SubqueryEmptyRow,
}

/// A scalar operand, in whichever of three representations it arrived:
/// a reference to a parsed source literal, a reference into a stored row,
/// or an owned value computed by a subquery.
#[derive(Debug)]
pub enum Parsed<'a> {
    LiteralRef(&'a Literal),
    ValueRef(&'a Value),
    Value(Value),
}

impl<'a> Parsed<'a> {
    /// The logical value the operand carries, independent of its
    /// representation.
    pub open spec fn value_spec(self) -> Value {
        match self {
            Parsed::LiteralRef(l) => l.value_spec(),
            Parsed::ValueRef(v) => *v,
            Parsed::Value(v) => v,
        }
    }

    /// Representation-agnostic equality: operands compare by the logical
    /// values they carry, never by how they arrived.
    pub fn equals(&self, other: &Parsed<'_>) -> (r: bool)
        ensures
            r == self.value_spec().eq_spec(other.value_spec()),
    {
        match (self, other) {
            (Parsed::LiteralRef(a), Parsed::LiteralRef(b)) => lit_matches(a, b),
            (Parsed::LiteralRef(a), Parsed::ValueRef(v)) => {
                let r = v.matches_literal(a);
                proof {
                    lemma_eq_spec_symmetric(a.value_spec(), **v);
                }
                r
            },
            (Parsed::LiteralRef(a), Parsed::Value(v)) => {
                let r = v.matches_literal(a);
                proof {
                    lemma_eq_spec_symmetric(a.value_spec(), *v);
                }
                r
            },
            (Parsed::ValueRef(v), Parsed::LiteralRef(b)) => v.matches_literal(b),
            (Parsed::ValueRef(v), Parsed::ValueRef(w)) => v.matches(w),
            (Parsed::ValueRef(v), Parsed::Value(w)) => v.matches(w),
            (Parsed::Value(v), Parsed::LiteralRef(b)) => v.matches_literal(b),
            (Parsed::Value(v), Parsed::ValueRef(w)) => v.matches(w),
            (Parsed::Value(v), Parsed::Value(w)) => v.matches(w),
        }
    }
}

/// Value equality does not depend on the order of its operands.
pub proof fn lemma_eq_spec_symmetric(a: Value, b: Value)
    ensures
        a.eq_spec(b) == b.eq_spec(a),
{
}

/// Decides whether a stored value equals the value a literal denotes.
fn lit_matches(a: &Literal, b: &Literal) -> (r: bool)
    ensures
        r == a.value_spec().eq_spec(b.value_spec()),
{
    match (a, b) {
        (Literal::Integer(x), Literal::Integer(y)) => *x == *y,
        (Literal::Text(x), Literal::Text(y)) => *x == *y,
        (Literal::Null, Literal::Null) => true,
        _ => false,
    }
}

impl Value {
    /// Decides whether this value equals the value a literal denotes.
    pub fn matches_literal(&self, lit: &Literal) -> (r: bool)
        ensures
            r == self.eq_spec(lit.value_spec()),
    {
        match (self, lit) {
            (Value::I64(a), Literal::Integer(b)) => *a == *b,
            (Value::Str(a), Literal::Text(b)) => *a == *b,
            (Value::Null, Literal::Null) => true,
            _ => false,
        }
    }
}

/// A list operand of a membership check: an eagerly available literal list,
/// or the lazily produced rows of a nested SELECT.
#[derive(Debug)]
pub enum ParsedList<'a> {
    LiteralRef(&'a Vec<Literal>),
    Produced(Subquery),
}

/// What a leaf resolves to in scalar position: the context value of a
/// column, the value of a literal, or the first value of a nested SELECT's
/// first row. An unresolvable or non-scalar leaf resolves to nothing; a
/// nested SELECT without rows, or with a columnless first row, is an error.
pub open spec fn parse_spec<'a, S: Store>(
    storage: &S,
    ctx: FilterContext<'a>,
    blend: Option<BlendContext<'a>>,
    expr: ConditionExpression,
) -> Result<Option<Value>, FilterError> {
    match expr {
        ConditionExpression::Base(base) => match base {
            ConditionBase::Field(col) => Ok(resolve_value(ctx, blend, col)),
            ConditionBase::Literal(lit) => Ok(Some(lit.value_spec())),
            ConditionBase::NestedSelect(q) => {
                let rows = storage.rows(q, ctx);
                if rows.len() == 0 {
                    Err(FilterError::SubqueryNoRows)
                } else if rows[0].values@.len() == 0 {
                    Err(FilterError::SubqueryEmptyRow)
                } else {
                    Ok(Some(rows[0].values@[0]))
                }
            },
            ConditionBase::LiteralList(_) => Ok(None),
        },
        _ => Ok(None),
    }
}

/// Membership of a value in a literal list.
pub open spec fn in_literals(target: Value, lits: Seq<Literal>) -> bool {
    exists|k: int| 0 <= k < lits.len() && target.eq_spec(lits[k].value_spec())
}

/// Whether a produced row has a head value equal to the target.
pub open spec fn row_head_matches(target: Value, row: Row) -> bool {
    row.values@.len() > 0 && target.eq_spec(row.values@[0])
}

/// Membership of a value among the first values of produced rows, checked
/// front to back: true at the first row whose head equals the target, an
/// error at the first columnless row before any match, false when the rows
/// run out.
pub open spec fn in_rows(target: Value, rows: Seq<Row>) -> Result<bool, FilterError>
    decreases rows.len(),
{
    if rows.len() == 0 {
        Ok(false)
    } else if rows[0].values@.len() == 0 {
        Err(FilterError::SubqueryEmptyRow)
    } else if target.eq_spec(rows[0].values@[0]) {
        Ok(true)
    } else {
        in_rows(target, rows.drop_first())
    }
}

/// How many rows a front-to-back membership scan pulls: it halts at the
/// first match or fault and consumes the whole sequence only when no row
/// matches.
pub open spec fn rows_consumed(target: Value, rows: Seq<Row>) -> nat
    decreases rows.len(),
{
    if rows.len() == 0 {
        0
    } else if rows[0].values@.len() == 0 {
        1
    } else if target.eq_spec(rows[0].values@[0]) {
        1
    } else {
        1 + rows_consumed(target, rows.drop_first())
    }
}

/// An equality comparison over two resolved scalar operands: an error on
/// either side propagates (left first), an unresolved side makes the
/// comparison false, and otherwise the operands compare by logical value.
pub open spec fn eval_equality(
    l: Result<Option<Value>, FilterError>,
    r: Result<Option<Value>, FilterError>,
    negate: bool,
) -> Result<bool, FilterError> {
    match (l, r) {
        (Err(e), _) => Err(e),
        (_, Err(e)) => Err(e),
        (Ok(Some(a)), Ok(Some(b))) => Ok(if negate {
            !a.eq_spec(b)
        } else {
            a.eq_spec(b)
        }),
        _ => Ok(false),
    }
}

/// The boolean a condition tree evaluates to against a resolution scope, or
/// the error that evaluation surfaces. Comparison and logical nodes carry a
/// tree whose operator dispatches the rule; `And`/`Or` evaluate both sides
/// unconditionally; any operator or node kind outside the supported set
/// evaluates fail-closed to false.
pub open spec fn eval_expr<'a, S: Store>(
    storage: &S,
    ctx: FilterContext<'a>,
    blend: Option<BlendContext<'a>>,
    expr: ConditionExpression,
) -> Result<bool, FilterError>
    decreases expr,
{
    match expr {
        ConditionExpression::ComparisonOp(tree) | ConditionExpression::LogicalOp(tree) => match tree.operator {
            Operator::Equal => eval_equality(
                parse_spec(storage, ctx, blend, *tree.left),
                parse_spec(storage, ctx, blend, *tree.right),
                false,
            ),
            Operator::NotEqual => eval_equality(
                parse_spec(storage, ctx, blend, *tree.left),
                parse_spec(storage, ctx, blend, *tree.right),
                true,
            ),
            Operator::And => match (
                eval_expr(storage, ctx, blend, *tree.left),
                eval_expr(storage, ctx, blend, *tree.right),
            ) {
                (Err(e), _) => Err(e),
                (_, Err(e)) => Err(e),
                (Ok(a), Ok(b)) => Ok(a && b),
            },
            Operator::Or => match (
                eval_expr(storage, ctx, blend, *tree.left),
                eval_expr(storage, ctx, blend, *tree.right),
            ) {
                (Err(e), _) => Err(e),
                (_, Err(e)) => Err(e),
                (Ok(a), Ok(b)) => Ok(a || b),
            },
            Operator::In => match parse_spec(storage, ctx, blend, *tree.left) {
                Err(e) => Err(e),
                Ok(None) => Ok(false),
                Ok(Some(target)) => match *tree.right {
                    ConditionExpression::Base(ConditionBase::LiteralList(lits)) => Ok(
                        in_literals(target, lits@),
                    ),
                    ConditionExpression::Base(ConditionBase::NestedSelect(q)) => in_rows(
                        target,
                        storage.rows(q, ctx),
                    ),
                    _ => Ok(false),
                },
            },
            _ => Ok(false),
        },
        ConditionExpression::NegationOp(inner) => match eval_expr(storage, ctx, blend, *inner) {
            Ok(b) => Ok(!b),
            Err(e) => Err(e),
        },
        ConditionExpression::Bracketed(inner) => eval_expr(storage, ctx, blend, *inner),
        _ => Ok(false),
    }
}

/// The scalar result a parse produced, stripped of its representation.
pub open spec fn parsed_result_view(r: Result<Option<Parsed<'_>>, FilterError>) -> Result<
    Option<Value>,
    FilterError,
> {
    match r {
        Ok(Some(p)) => Ok(Some(p.value_spec())),
        Ok(None) => Ok(None),
        Err(e) => Err(e),
    }
}

/// Resolves an expression in scalar position, keeping the operand in
/// whichever representation is cheapest: a borrowed literal, a borrowed row
/// value, or an owned subquery result.
pub fn parse_expr<'a, S: Store>(
    storage: &'a S,
    ctx: &FilterContext<'a>,
    blend: Option<&'a BlendContext<'a>>,
    expr: &'a ConditionExpression,
) -> (r: Result<Option<Parsed<'a>>, FilterError>)
    ensures
        parsed_result_view(r) == parse_spec(storage, *ctx, blend_view(blend), *expr),
{
    match expr {
        ConditionExpression::Base(base) => match base {
            ConditionBase::Field(col) => match resolve_get(ctx, blend, col) {
                Some(v) => Ok(Some(Parsed::ValueRef(v))),
                None => Ok(None),
            },
            ConditionBase::Literal(lit) => Ok(Some(Parsed::LiteralRef(lit))),
            ConditionBase::NestedSelect(q) => match storage.select_row(q, ctx, 0) {
                None => Err(FilterError::SubqueryNoRows),
                Some(row) => match row.first_value() {
                    None => Err(FilterError::SubqueryEmptyRow),
                    Some(v) => Ok(Some(Parsed::Value(v.clone()))),
                },
            },
            ConditionBase::LiteralList(_) => Ok(None),
        },
        _ => Ok(None),
    }
}

/// Whether an expression is no list operand: anything but a literal-list or
/// nested-SELECT leaf.
pub open spec fn no_list_operand(expr: ConditionExpression) -> bool {
    match expr {
        ConditionExpression::Base(ConditionBase::LiteralList(_)) => false,
        ConditionExpression::Base(ConditionBase::NestedSelect(_)) => false,
        _ => true,
    }
}

/// Resolves an expression in list position: an eager literal list or the
/// token of a nested SELECT, whose rows stay unproduced until the
/// membership scan pulls them.
pub fn parse_in_expr<'a>(expr: &'a ConditionExpression) -> (r: Option<ParsedList<'a>>)
    ensures
        match r {
            Some(ParsedList::LiteralRef(lits)) => *expr == ConditionExpression::Base(
                ConditionBase::LiteralList(*lits),
            ),
            Some(ParsedList::Produced(q)) => *expr == ConditionExpression::Base(
                ConditionBase::NestedSelect(q),
            ),
            None => no_list_operand(*expr),
        },
{
    match expr {
        ConditionExpression::Base(base) => match base {
            ConditionBase::LiteralList(lits) => Some(ParsedList::LiteralRef(lits)),
            ConditionBase::NestedSelect(q) => Some(ParsedList::Produced(*q)),
            _ => None,
        },
        _ => None,
    }
}

/// Scans a literal list for an operand equal to the target.
pub fn contains_literal(lits: &Vec<Literal>, target: &Parsed<'_>) -> (r: bool)
    ensures
        r == in_literals(target.value_spec(), lits@),
{
    let n = lits.len();
    let mut j: usize = 0;
    while j < n
        invariant
            n == lits@.len(),
            0 <= j <= n,
            forall|k: int| 0 <= k < j ==> !target.value_spec().eq_spec(lits@[k].value_spec()),
        decreases n - j,
    {
        if target.equals(&Parsed::LiteralRef(&lits[j])) {
            return true;
        }
        j += 1;
    }
    false
}

/// Scans the rows a nested SELECT produces for one whose first value equals
/// the target, pulling rows one at a time and stopping at the first match.
/// Returns the membership verdict and how many rows were pulled: the scan
/// consumes the whole sequence only when no row matches.
pub fn contains_produced<'a, S: Store>(
    storage: &S,
    query: &Subquery,
    ctx: &FilterContext<'a>,
    target: &Parsed<'_>,
) -> (r: (Result<bool, FilterError>, usize))
    ensures
        r.0 == in_rows(target.value_spec(), storage.rows(*query, *ctx)),
        r.1 == rows_consumed(target.value_spec(), storage.rows(*query, *ctx)),
{
    let ghost rows = storage.rows(*query, *ctx);
    let ghost t = target.value_spec();
    let mut i: usize = 0;
    proof {
        assert(rows.skip(0) =~= rows);
    }
    loop
        invariant
            rows == storage.rows(*query, *ctx),
            t == target.value_spec(),
            0 <= i <= rows.len(),
            in_rows(t, rows) == in_rows(t, rows.skip(i as int)),
            rows_consumed(t, rows) == i + rows_consumed(t, rows.skip(i as int)),
        decreases rows.len() - i,
    {
        match storage.select_row(query, ctx, i) {
            None => {
                proof {
                    assert(rows.skip(i as int) =~= Seq::<Row>::empty());
                }
                return (Ok(false), i);
            },
            Some(row) => {
                proof {
                    assert(rows.skip(i as int)[0] == rows[i as int]);
                    assert(rows.skip(i as int).drop_first() =~= rows.skip(i as int + 1));
                }
                match row.first_value() {
                    None => {
                        return (Err(FilterError::SubqueryEmptyRow), i + 1);
                    },
                    Some(v) => {
                        if target.equals(&Parsed::ValueRef(v)) {
                            return (Ok(true), i + 1);
                        }
                    },
                }
                i += 1;
            },
        }
    }
}

/// Evaluates a condition tree to the boolean the whole filter check uses,
/// or to the error a misbehaving scalar subquery surfaces.
pub fn check_expr<'a, S: Store>(
    storage: &'a S,
    ctx: &FilterContext<'a>,
    blend: Option<&'a BlendContext<'a>>,
    expr: &'a ConditionExpression,
) -> (r: Result<bool, FilterError>)
    ensures
        r == eval_expr(storage, *ctx, blend_view(blend), *expr),
    decreases *expr,
{
    match expr {
        ConditionExpression::ComparisonOp(tree) | ConditionExpression::LogicalOp(tree) => match tree.operator {
            Operator::Equal => check_equality(storage, ctx, blend, tree, false),
            Operator::NotEqual => check_equality(storage, ctx, blend, tree, true),
            Operator::And => {
                let l = check_expr(storage, ctx, blend, &tree.left);
                let r = check_expr(storage, ctx, blend, &tree.right);
                match (l, r) {
                    (Err(e), _) => Err(e),
                    (_, Err(e)) => Err(e),
                    (Ok(a), Ok(b)) => Ok(a && b),
                }
            },
            Operator::Or => {
                let l = check_expr(storage, ctx, blend, &tree.left);
                let r = check_expr(storage, ctx, blend, &tree.right);
                match (l, r) {
                    (Err(e), _) => Err(e),
                    (_, Err(e)) => Err(e),
                    (Ok(a), Ok(b)) => Ok(a || b),
                }
            },
            Operator::In => match parse_expr(storage, ctx, blend, &tree.left) {
                Err(e) => Err(e),
                Ok(None) => Ok(false),
                Ok(Some(target)) => match parse_in_expr(&tree.right) {
                    Some(ParsedList::LiteralRef(lits)) => Ok(contains_literal(lits, &target)),
                    Some(ParsedList::Produced(q)) => {
                        let scan = contains_produced(storage, &q, ctx, &target);
                        scan.0
                    },
                    None => Ok(false),
                },
            },
            _ => Ok(false),
        },
        ConditionExpression::NegationOp(inner) => match check_expr(storage, ctx, blend, inner) {
            Ok(b) => Ok(!b),
            Err(e) => Err(e),
        },
        ConditionExpression::Bracketed(inner) => check_expr(storage, ctx, blend, inner),
        _ => Ok(false),
    }
}

/// Evaluates an equality or inequality node: resolve both sides as scalars,
/// then compare representation-agnostically.
fn check_equality<'a, S: Store>(
    storage: &'a S,
    ctx: &FilterContext<'a>,
    blend: Option<&'a BlendContext<'a>>,
    tree: &'a ConditionTree,
    negate: bool,
) -> (r: Result<bool, FilterError>)
    ensures
        r == eval_equality(
            parse_spec(storage, *ctx, blend_view(blend), *tree.left),
            parse_spec(storage, *ctx, blend_view(blend), *tree.right),
            negate,
        ),
{
    match parse_expr(storage, ctx, blend, &tree.left) {
        Err(e) => Err(e),
        Ok(l_opt) => match parse_expr(storage, ctx, blend, &tree.right) {
            Err(e) => Err(e),
            Ok(r_opt) => match (l_opt, r_opt) {
                (Some(a), Some(b)) => {
                    let eq = a.equals(&b);
                    Ok(if negate {
                        !eq
                    } else {
                        eq
                    })
                },
                _ => Ok(false),
            },
        },
    }
}

} // verus!
