use row_filter::{
    BlendContext, BlendedFilter, Column, ConditionBase, ConditionExpression, ConditionTree, Filter,
    FilterContext, FilterError, FixedRows, Literal, Operator, Parsed, QueryRows, Row, Subquery,
    Table, Value,
};
use row_filter::evaluate::contains_produced;

fn table(name: &str) -> Table {
    Table { name: name.to_string() }
}

fn column(name: &str) -> Column {
    Column { name: name.to_string(), table: None }
}

fn user_columns() -> Vec<Column> {
    vec![column("userId"), column("userName")]
}

fn user_row(id: i64, name: &str) -> Row {
    Row { values: vec![Value::I64(id), Value::Str(name.to_string())] }
}

fn user_rows() -> Vec<Row> {
    vec![user_row(1, "Taegit"), user_row(2, "Alice"), user_row(3, "Bob")]
}

fn empty_store() -> FixedRows {
    FixedRows { sets: vec![] }
}

fn field(name: &str) -> ConditionExpression {
    ConditionExpression::Base(ConditionBase::Field(column(name)))
}

fn int_literal(i: i64) -> ConditionExpression {
    ConditionExpression::Base(ConditionBase::Literal(Literal::Integer(i)))
}

fn tree(operator: Operator, left: ConditionExpression, right: ConditionExpression) -> ConditionExpression {
    ConditionExpression::ComparisonOp(ConditionTree {
        operator,
        left: Box::new(left),
        right: Box::new(right),
    })
}

fn logical(operator: Operator, left: ConditionExpression, right: ConditionExpression) -> ConditionExpression {
    ConditionExpression::LogicalOp(ConditionTree {
        operator,
        left: Box::new(left),
        right: Box::new(right),
    })
}

fn user_id_equals(i: i64) -> ConditionExpression {
    tree(Operator::Equal, field("userId"), int_literal(i))
}

fn admitted(expr: &ConditionExpression, store: &FixedRows) -> Vec<i64> {
    let t = table("User");
    let columns = user_columns();
    let filter = Filter::new(Some(expr), None);
    let mut ids = Vec::new();
    for (id, name) in [(1, "Taegit"), (2, "Alice"), (3, "Bob")] {
        let row = user_row(id, name);
        if filter.check(store, &t, &columns, &row).unwrap() {
            ids.push(id);
        }
    }
    ids
}

#[test]
fn no_where_clause_admits_every_row() {
    let store = empty_store();
    let t = table("User");
    let columns = user_columns();
    let filter = Filter::new(None, None);
    for row in user_rows() {
        assert_eq!(filter.check(&store, &t, &columns, &row), Ok(true));
    }
}

#[test]
fn representations_interchange_for_equality() {
    let lit = Literal::Integer(7);
    let stored = Value::I64(7);
    let computed = Value::I64(7);
    let a = Parsed::LiteralRef(&lit);
    let b = Parsed::ValueRef(&stored);
    let c = Parsed::Value(computed);
    assert!(a.equals(&b));
    assert!(b.equals(&a));
    assert!(a.equals(&c));
    assert!(c.equals(&a));
    assert!(b.equals(&c));
    assert!(c.equals(&b));

    let text_lit = Literal::Text("Alice".to_string());
    let text_val = Value::Str("Alice".to_string());
    assert!(Parsed::LiteralRef(&text_lit).equals(&Parsed::ValueRef(&text_val)));
    assert!(Parsed::Value(Value::Str("Alice".to_string())).equals(&Parsed::LiteralRef(&text_lit)));

    let other = Value::I64(8);
    assert!(!Parsed::ValueRef(&other).equals(&a));
    assert!(!Parsed::LiteralRef(&text_lit).equals(&a));
}

#[test]
fn null_compares_only_to_null() {
    assert!(Value::Null.matches(&Value::Null));
    assert!(!Value::Null.matches(&Value::I64(1)));
    assert!(!Value::I64(1).matches(&Value::Null));
    assert!(Value::Null.matches_literal(&Literal::Null));
    assert!(!Value::I64(0).matches_literal(&Literal::Null));
}

#[test]
fn and_or_commute_on_rows() {
    let store = empty_store();
    let ab = logical(Operator::Or, user_id_equals(1), user_id_equals(3));
    let ba = logical(Operator::Or, user_id_equals(3), user_id_equals(1));
    assert_eq!(admitted(&ab, &store), admitted(&ba, &store));
    let and_ab = logical(Operator::And, user_id_equals(1), user_id_equals(3));
    let and_ba = logical(Operator::And, user_id_equals(3), user_id_equals(1));
    assert_eq!(admitted(&and_ab, &store), admitted(&and_ba, &store));
}

#[test]
fn double_negation_and_brackets_are_transparent() {
    let store = empty_store();
    let plain = user_id_equals(2);
    let doubled = ConditionExpression::NegationOp(Box::new(ConditionExpression::NegationOp(
        Box::new(user_id_equals(2)),
    )));
    let bracketed = ConditionExpression::Bracketed(Box::new(user_id_equals(2)));
    assert_eq!(admitted(&plain, &store), vec![2]);
    assert_eq!(admitted(&doubled, &store), vec![2]);
    assert_eq!(admitted(&bracketed, &store), vec![2]);
}

#[test]
fn in_with_empty_literal_list_is_false() {
    let store = empty_store();
    let expr = tree(
        Operator::In,
        field("userId"),
        ConditionExpression::Base(ConditionBase::LiteralList(vec![])),
    );
    assert_eq!(admitted(&expr, &store), Vec::<i64>::new());
}

#[test]
fn scenario_equality_admits_one_row() {
    let store = empty_store();
    assert_eq!(admitted(&user_id_equals(2), &store), vec![2]);
}

#[test]
fn scenario_or_admits_two_rows() {
    let store = empty_store();
    let expr = logical(Operator::Or, user_id_equals(1), user_id_equals(3));
    assert_eq!(admitted(&expr, &store), vec![1, 3]);
}

#[test]
fn scenario_in_literal_list_matches_or() {
    let store = empty_store();
    let in_expr = tree(
        Operator::In,
        field("userId"),
        ConditionExpression::Base(ConditionBase::LiteralList(vec![
            Literal::Integer(1),
            Literal::Integer(3),
        ])),
    );
    let or_expr = logical(Operator::Or, user_id_equals(1), user_id_equals(3));
    assert_eq!(admitted(&in_expr, &store), vec![1, 3]);
    assert_eq!(admitted(&in_expr, &store), admitted(&or_expr, &store));
}

#[test]
fn scenario_unsupported_operator_fails_closed() {
    let store = empty_store();
    let expr = tree(Operator::Less, field("userId"), int_literal(2));
    assert_eq!(admitted(&expr, &store), Vec::<i64>::new());
    let like = tree(Operator::Like, field("userName"), int_literal(2));
    assert_eq!(admitted(&like, &store), Vec::<i64>::new());
}

#[test]
fn unresolved_column_fails_closed() {
    let store = empty_store();
    let expr = tree(Operator::Equal, field("missing"), int_literal(2));
    assert_eq!(admitted(&expr, &store), Vec::<i64>::new());
}

#[test]
fn qualified_column_resolves_only_in_its_table() {
    let store = empty_store();
    let t = table("User");
    let columns = user_columns();
    let row = user_row(2, "Alice");
    let mut qualified = column("userId");
    qualified.table = Some("User".to_string());
    let hit = tree(
        Operator::Equal,
        ConditionExpression::Base(ConditionBase::Field(qualified)),
        int_literal(2),
    );
    let filter = Filter::new(Some(&hit), None);
    assert_eq!(filter.check(&store, &t, &columns, &row), Ok(true));

    let mut foreign = column("userId");
    foreign.table = Some("Other".to_string());
    let miss = tree(
        Operator::Equal,
        ConditionExpression::Base(ConditionBase::Field(foreign)),
        int_literal(2),
    );
    let filter = Filter::new(Some(&miss), None);
    assert_eq!(filter.check(&store, &t, &columns, &row), Ok(false));
}

#[test]
fn scalar_subquery_with_no_rows_is_an_error() {
    let store = empty_store();
    let expr = tree(
        Operator::Equal,
        field("userId"),
        ConditionExpression::Base(ConditionBase::NestedSelect(Subquery { id: 9 })),
    );
    let t = table("User");
    let columns = user_columns();
    let row = user_row(1, "Taegit");
    let filter = Filter::new(Some(&expr), None);
    assert_eq!(
        filter.check(&store, &t, &columns, &row),
        Err(FilterError::SubqueryNoRows)
    );
}

#[test]
fn scalar_subquery_with_columnless_row_is_an_error() {
    let store = FixedRows {
        sets: vec![QueryRows { query: Subquery { id: 9 }, rows: vec![Row { values: vec![] }] }],
    };
    let expr = tree(
        Operator::Equal,
        field("userId"),
        ConditionExpression::Base(ConditionBase::NestedSelect(Subquery { id: 9 })),
    );
    let t = table("User");
    let columns = user_columns();
    let row = user_row(1, "Taegit");
    let filter = Filter::new(Some(&expr), None);
    assert_eq!(
        filter.check(&store, &t, &columns, &row),
        Err(FilterError::SubqueryEmptyRow)
    );
}

#[test]
fn scalar_subquery_first_value_compares() {
    let store = FixedRows {
        sets: vec![QueryRows {
            query: Subquery { id: 5 },
            rows: vec![Row { values: vec![Value::I64(2), Value::I64(99)] }],
        }],
    };
    let expr = tree(
        Operator::Equal,
        field("userId"),
        ConditionExpression::Base(ConditionBase::NestedSelect(Subquery { id: 5 })),
    );
    assert_eq!(admitted(&expr, &store), vec![2]);
}

#[test]
fn in_subquery_matches_or() {
    let store = FixedRows {
        sets: vec![QueryRows {
            query: Subquery { id: 7 },
            rows: vec![
                Row { values: vec![Value::I64(1)] },
                Row { values: vec![Value::I64(3)] },
            ],
        }],
    };
    let expr = tree(
        Operator::In,
        field("userId"),
        ConditionExpression::Base(ConditionBase::NestedSelect(Subquery { id: 7 })),
    );
    assert_eq!(admitted(&expr, &store), vec![1, 3]);
}

#[test]
fn membership_scan_halts_at_first_match() {
    let rows = vec![
        Row { values: vec![Value::I64(10)] },
        Row { values: vec![Value::I64(20)] },
        Row { values: vec![Value::I64(30)] },
    ];
    let store = FixedRows { sets: vec![QueryRows { query: Subquery { id: 1 }, rows }] };
    let t = table("User");
    let columns = user_columns();
    let row = user_row(1, "Taegit");
    let ctx = FilterContext::new(&t, &columns, &row, None);
    let query = Subquery { id: 1 };

    let first = Value::I64(10);
    assert_eq!(
        contains_produced(&store, &query, &ctx, &Parsed::ValueRef(&first)),
        (Ok(true), 1)
    );
    let second = Value::I64(20);
    assert_eq!(
        contains_produced(&store, &query, &ctx, &Parsed::ValueRef(&second)),
        (Ok(true), 2)
    );
    let absent = Value::I64(99);
    assert_eq!(
        contains_produced(&store, &query, &ctx, &Parsed::ValueRef(&absent)),
        (Ok(false), 3)
    );
}

#[test]
fn membership_scan_never_pulls_past_a_match() {
    let rows = vec![
        Row { values: vec![Value::I64(10)] },
        Row { values: vec![] },
    ];
    let store = FixedRows { sets: vec![QueryRows { query: Subquery { id: 1 }, rows }] };
    let t = table("User");
    let columns = user_columns();
    let row = user_row(1, "Taegit");
    let ctx = FilterContext::new(&t, &columns, &row, None);
    let query = Subquery { id: 1 };

    let first = Value::I64(10);
    assert_eq!(
        contains_produced(&store, &query, &ctx, &Parsed::ValueRef(&first)),
        (Ok(true), 1)
    );
    let absent = Value::I64(99);
    assert_eq!(
        contains_produced(&store, &query, &ctx, &Parsed::ValueRef(&absent)),
        (Err(FilterError::SubqueryEmptyRow), 2)
    );
}

#[test]
fn outer_context_resolves_absent_columns() {
    let store = empty_store();
    let outer_table = table("Outer");
    let outer_columns = vec![column("outerCol")];
    let outer_row = Row { values: vec![Value::I64(42)] };
    let outer_ctx = FilterContext::new(&outer_table, &outer_columns, &outer_row, None);

    let expr = tree(Operator::Equal, field("outerCol"), int_literal(42));
    let filter = Filter::new(Some(&expr), Some(&outer_ctx));

    let blend_table = table("Blend");
    let blend_columns = vec![column("blendCol")];
    let blend_row = Row { values: vec![Value::I64(7)] };
    let blend_ctx = BlendContext::new(&blend_table, &blend_columns, &blend_row, None);
    let blended = BlendedFilter::new(&filter, &blend_ctx);

    let t = table("User");
    let columns = user_columns();
    let row = user_row(1, "Taegit");
    assert_eq!(blended.check(&store, &t, &columns, &row), Ok(true));
}

#[test]
fn blend_scope_shadows_outer_chain() {
    let store = empty_store();
    let outer_table = table("Outer");
    let shared_columns = vec![column("shared")];
    let outer_row = Row { values: vec![Value::I64(1)] };
    let outer_ctx = FilterContext::new(&outer_table, &shared_columns, &outer_row, None);

    let expr = tree(Operator::Equal, field("shared"), int_literal(2));
    let filter = Filter::new(Some(&expr), Some(&outer_ctx));

    let blend_table = table("Blend");
    let blend_row = Row { values: vec![Value::I64(2)] };
    let blend_ctx = BlendContext::new(&blend_table, &shared_columns, &blend_row, None);
    let blended = BlendedFilter::new(&filter, &blend_ctx);

    let t = table("User");
    let columns = user_columns();
    let row = user_row(1, "Taegit");
    assert_eq!(blended.check(&store, &t, &columns, &row), Ok(true));
    assert_eq!(filter.check(&store, &t, &columns, &row), Ok(false));
}

#[test]
fn current_scope_shadows_blend_and_outer() {
    let store = empty_store();
    let shared_columns = vec![column("shared")];

    let outer_table = table("Outer");
    let outer_row = Row { values: vec![Value::I64(1)] };
    let outer_ctx = FilterContext::new(&outer_table, &shared_columns, &outer_row, None);

    let expr = tree(Operator::Equal, field("shared"), int_literal(3));
    let filter = Filter::new(Some(&expr), Some(&outer_ctx));

    let blend_table = table("Blend");
    let blend_row = Row { values: vec![Value::I64(2)] };
    let blend_ctx = BlendContext::new(&blend_table, &shared_columns, &blend_row, None);
    let blended = BlendedFilter::new(&filter, &blend_ctx);

    let t = table("User");
    let row = Row { values: vec![Value::I64(3)] };
    assert_eq!(blended.check(&store, &t, &shared_columns, &row), Ok(true));
}
