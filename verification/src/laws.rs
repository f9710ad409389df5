//! Laws the evaluator obeys, stated and proved once for all inputs.

use vstd::prelude::*;

use crate::ast::{ConditionBase, ConditionExpression, ConditionTree, Operator};
use crate::context::{BlendContext, FilterContext};
use crate::evaluate::{eval_expr, in_rows, parse_spec, row_head_matches, rows_consumed, FilterError, Parsed};
use crate::data::{Row, Value};
use crate::store::Store;

verus! {

/// The three scalar representations are pairwise interchangeable: two
/// operands carrying equal logical values compare equally against any third
/// operand, whichever representation each arrived in.
pub proof fn lemma_representation_interchange(a: Parsed<'_>, b: Parsed<'_>, c: Parsed<'_>)
    requires
        a.value_spec().eq_spec(b.value_spec()),
    ensures
        a.value_spec().eq_spec(c.value_spec()) == b.value_spec().eq_spec(c.value_spec()),
        c.value_spec().eq_spec(a.value_spec()) == c.value_spec().eq_spec(b.value_spec()),
{
}

/// `ComparisonOp` and `LogicalOp` nodes evaluate alike: only the tree they
/// carry decides the verdict.
pub proof fn lemma_tree_node_kinds_agree<'a, S: Store>(
    storage: &S,
    ctx: FilterContext<'a>,
    blend: Option<BlendContext<'a>>,
    tree: ConditionTree,
)
    ensures
        eval_expr(storage, ctx, blend, ConditionExpression::ComparisonOp(tree)) == eval_expr(
            storage,
            ctx,
            blend,
            ConditionExpression::LogicalOp(tree),
        ),
{
}

/// AND and OR are commutative to the extent boolean logic promises: unless
/// both sides fault, swapping the sides of an `And` or `Or` node keeps the
/// verdict.
pub proof fn lemma_logical_commutative<'a, S: Store>(
    storage: &S,
    ctx: FilterContext<'a>,
    blend: Option<BlendContext<'a>>,
    x: ConditionTree,
    y: ConditionTree,
)
    requires
        x.operator == y.operator,
        x.operator == Operator::And || x.operator == Operator::Or,
        x.left == y.right,
        x.right == y.left,
        !(eval_expr(storage, ctx, blend, *x.left) is Err) || !(eval_expr(
            storage,
            ctx,
            blend,
            *x.right,
        ) is Err),
    ensures
        eval_expr(storage, ctx, blend, ConditionExpression::LogicalOp(x)) == eval_expr(
            storage,
            ctx,
            blend,
            ConditionExpression::LogicalOp(y),
        ),
{
}

/// AND and OR are associative to the extent boolean logic promises: with no
/// operand faulting, regrouping nested `And` (or `Or`) nodes keeps the
/// verdict. Here `x` groups the first two operands on its left, `y` groups
/// the last two on its right, over the same three operands in order.
pub proof fn lemma_logical_associative<'a, S: Store>(
    storage: &S,
    ctx: FilterContext<'a>,
    blend: Option<BlendContext<'a>>,
    op: Operator,
    x: ConditionTree,
    xi: ConditionTree,
    y: ConditionTree,
    yi: ConditionTree,
)
    requires
        op == Operator::And || op == Operator::Or,
        x.operator == op,
        xi.operator == op,
        y.operator == op,
        yi.operator == op,
        *x.left == ConditionExpression::LogicalOp(xi),
        *y.right == ConditionExpression::LogicalOp(yi),
        y.left == xi.left,
        yi.left == xi.right,
        yi.right == x.right,
        !(eval_expr(storage, ctx, blend, *xi.left) is Err),
        !(eval_expr(storage, ctx, blend, *xi.right) is Err),
        !(eval_expr(storage, ctx, blend, *x.right) is Err),
    ensures
        eval_expr(storage, ctx, blend, ConditionExpression::LogicalOp(x)) == eval_expr(
            storage,
            ctx,
            blend,
            ConditionExpression::LogicalOp(y),
        ),
{
    let ra = eval_expr(storage, ctx, blend, *xi.left);
    let rb = eval_expr(storage, ctx, blend, *xi.right);
    let rc = eval_expr(storage, ctx, blend, *x.right);
    if let (Ok(a), Ok(b), Ok(c)) = (ra, rb, rc) {
        if op == Operator::And {
            assert(eval_expr(storage, ctx, blend, ConditionExpression::LogicalOp(xi)) == Ok::<
                bool,
                FilterError,
            >(a && b));
            assert(eval_expr(storage, ctx, blend, ConditionExpression::LogicalOp(yi)) == Ok::<
                bool,
                FilterError,
            >(b && c));
            assert(eval_expr(storage, ctx, blend, ConditionExpression::LogicalOp(x)) == Ok::<
                bool,
                FilterError,
            >((a && b) && c));
            assert(eval_expr(storage, ctx, blend, ConditionExpression::LogicalOp(y)) == Ok::<
                bool,
                FilterError,
            >(a && (b && c)));
        } else {
            assert(eval_expr(storage, ctx, blend, ConditionExpression::LogicalOp(xi)) == Ok::<
                bool,
                FilterError,
            >(a || b));
            assert(eval_expr(storage, ctx, blend, ConditionExpression::LogicalOp(yi)) == Ok::<
                bool,
                FilterError,
            >(b || c));
            assert(eval_expr(storage, ctx, blend, ConditionExpression::LogicalOp(x)) == Ok::<
                bool,
                FilterError,
            >((a || b) || c));
            assert(eval_expr(storage, ctx, blend, ConditionExpression::LogicalOp(y)) == Ok::<
                bool,
                FilterError,
            >(a || (b || c)));
        }
    }
}

/// Negating a negation evaluates exactly as the inner expression itself,
/// errors included.
pub proof fn lemma_double_negation<'a, S: Store>(
    storage: &S,
    ctx: FilterContext<'a>,
    blend: Option<BlendContext<'a>>,
    e: ConditionExpression,
    inner: ConditionExpression,
)
    requires
        e matches ConditionExpression::NegationOp(f) && *f matches ConditionExpression::NegationOp(
            g,
        ) && *g == inner,
    ensures
        eval_expr(storage, ctx, blend, e) == eval_expr(storage, ctx, blend, inner),
{
    if let ConditionExpression::NegationOp(f) = e {
        let mid = eval_expr(storage, ctx, blend, *f);
        let deep = eval_expr(storage, ctx, blend, inner);
        assert(mid == (match deep {
            Ok(b) => Ok::<bool, FilterError>(!b),
            Err(er) => Err(er),
        }));
        assert(eval_expr(storage, ctx, blend, e) == (match mid {
            Ok(b) => Ok::<bool, FilterError>(!b),
            Err(er) => Err(er),
        }));
    }
}

/// Brackets are transparent: a bracketed expression evaluates exactly as
/// its inner expression, errors included.
pub proof fn lemma_bracket_transparent<'a, S: Store>(
    storage: &S,
    ctx: FilterContext<'a>,
    blend: Option<BlendContext<'a>>,
    e: ConditionExpression,
    inner: ConditionExpression,
)
    requires
        e matches ConditionExpression::Bracketed(f) && *f == inner,
    ensures
        eval_expr(storage, ctx, blend, e) == eval_expr(storage, ctx, blend, inner),
{
}

/// IN with an empty literal list evaluates to false for every left operand
/// that itself resolves without fault.
pub proof fn lemma_in_empty_list<'a, S: Store>(
    storage: &S,
    ctx: FilterContext<'a>,
    blend: Option<BlendContext<'a>>,
    tree: ConditionTree,
)
    requires
        tree.operator == Operator::In,
        *tree.right matches ConditionExpression::Base(b) && b matches ConditionBase::LiteralList(
            l,
        ) && l@.len() == 0,
        !(parse_spec(storage, ctx, blend, *tree.left) is Err),
    ensures
        eval_expr(storage, ctx, blend, ConditionExpression::ComparisonOp(tree)) == Ok::<
            bool,
            FilterError,
        >(false),
{
}

/// A membership scan halts at the first matching row and fully consumes the
/// sequence only when no row matches: on a miss every row was pulled, and
/// on a match the pulled prefix ends at the first matching row.
pub proof fn lemma_scan_halts_at_first_match(target: Value, rows: Seq<Row>)
    ensures
        in_rows(target, rows) == Ok::<bool, FilterError>(false) ==> rows_consumed(target, rows)
            == rows.len(),
        in_rows(target, rows) == Ok::<bool, FilterError>(true) ==> {
            let k = rows_consumed(target, rows) - 1;
            &&& 0 <= k < rows.len()
            &&& row_head_matches(target, rows[k])
            &&& forall|j: int| 0 <= j < k ==> !row_head_matches(target, rows[j])
        },
    decreases rows.len(),
{
    if rows.len() > 0 && rows[0].values@.len() > 0 && !target.eq_spec(rows[0].values@[0]) {
        let rest = rows.drop_first();
        lemma_scan_halts_at_first_match(target, rest);
        if in_rows(target, rows) == Ok::<bool, FilterError>(true) {
            let k = rows_consumed(target, rows) - 1;
            let kr = rows_consumed(target, rest) - 1;
            assert(k == kr + 1);
            assert(rows[k] == rest[kr]);
            assert forall|j: int| 0 <= j < k implies !row_head_matches(target, rows[j]) by {
                if j > 0 {
                    assert(rows[j] == rest[j - 1]);
                }
            }
        }
    }
}

} // verus!
