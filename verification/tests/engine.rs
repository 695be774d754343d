use sql_analysis::ast::{BinOp, Join, JoinOp, SelectFrom, SelectStmt, SqlExpr, TableRef};
use sql_analysis::nullable::{
    expr_matches_name, get_used_table_name, infer_select, test_expr, NullableResult,
};

fn id(name: &str) -> SqlExpr {
    SqlExpr::Id(name.to_string())
}

fn qualified(table: &str, name: &str) -> SqlExpr {
    SqlExpr::Qualified(table.to_string(), name.to_string())
}

#[test]
fn matches_bare_and_qualified_identifiers() {
    assert!(expr_matches_name("id", "foo", &id("id")));
    assert!(!expr_matches_name("id", "foo", &id("other")));
    assert!(expr_matches_name("id", "foo", &qualified("foo", "id")));
    assert!(!expr_matches_name("id", "foo", &qualified("bar", "id")));
    assert!(!expr_matches_name("id", "foo", &SqlExpr::NullLiteral));
}

#[test]
fn comparison_against_column_proves_not_null() {
    let e = SqlExpr::Binary(
        Box::new(id("id")),
        BinOp::Equals,
        Box::new(SqlExpr::Other),
    );
    assert_eq!(test_expr("id", "foo", &e), Some(NullableResult::NotNull));

    let e = SqlExpr::Binary(
        Box::new(SqlExpr::Other),
        BinOp::Less,
        Box::new(id("other")),
    );
    assert_eq!(test_expr("id", "foo", &e), None);
}

#[test]
fn is_null_on_column_proves_null() {
    let e = SqlExpr::Binary(
        Box::new(id("id")),
        BinOp::Is,
        Box::new(SqlExpr::NullLiteral),
    );
    assert_eq!(test_expr("id", "foo", &e), Some(NullableResult::Null));

    // IS between two column references proves nothing.
    let e = SqlExpr::Binary(Box::new(id("id")), BinOp::Is, Box::new(id("id")));
    assert_eq!(test_expr("id", "foo", &e), None);
}

#[test]
fn and_is_left_preferred_or_needs_agreement() {
    let not_null = SqlExpr::NotNull(Box::new(id("id")));
    let is_null = SqlExpr::Binary(
        Box::new(id("id")),
        BinOp::Is,
        Box::new(SqlExpr::NullLiteral),
    );
    let and = SqlExpr::Binary(
        Box::new(not_null),
        BinOp::And,
        Box::new(is_null),
    );
    assert_eq!(test_expr("id", "foo", &and), Some(NullableResult::NotNull));

    let not_null = SqlExpr::NotNull(Box::new(id("id")));
    let is_null = SqlExpr::Binary(
        Box::new(id("id")),
        BinOp::Is,
        Box::new(SqlExpr::NullLiteral),
    );
    let or = SqlExpr::Binary(Box::new(not_null), BinOp::Or, Box::new(is_null));
    assert_eq!(test_expr("id", "foo", &or), None);
}

#[test]
fn group_needs_identical_verdicts() {
    let group = SqlExpr::Paren(vec![
        SqlExpr::NotNull(Box::new(id("id"))),
        SqlExpr::NotNull(Box::new(id("id"))),
    ]);
    assert_eq!(test_expr("id", "foo", &group), Some(NullableResult::NotNull));

    let mixed = SqlExpr::Paren(vec![
        SqlExpr::NotNull(Box::new(id("id"))),
        SqlExpr::Binary(
            Box::new(id("id")),
            BinOp::Is,
            Box::new(SqlExpr::NullLiteral),
        ),
    ]);
    assert_eq!(test_expr("id", "foo", &mixed), None);

    let empty = SqlExpr::Paren(vec![]);
    assert_eq!(test_expr("id", "foo", &empty), None);

    // A group of all-indefinite members is itself indefinite.
    let opaque = SqlExpr::Paren(vec![SqlExpr::Other, SqlExpr::Other]);
    assert_eq!(test_expr("id", "foo", &opaque), None);
}

#[test]
fn unrecognized_shapes_are_opaque_leaves() {
    assert_eq!(test_expr("id", "foo", &SqlExpr::Other), None);
    assert_eq!(test_expr("id", "foo", &SqlExpr::NullLiteral), None);
    // No recursion into an opaque operator, even over a matching operand.
    let e = SqlExpr::Binary(Box::new(id("id")), BinOp::Other, Box::new(id("id")));
    assert_eq!(test_expr("id", "foo", &e), None);
}

#[test]
fn resolution_prefers_primary_then_eligible_joins() {
    let from = SelectFrom {
        primary: Some(TableRef { name: "foo".to_string(), alias: Some("f".to_string()) }),
        joins: vec![
            Join {
                op: JoinOp::Other,
                table: Some(TableRef { name: "bar".to_string(), alias: None }),
                on_clause: None,
            },
            Join {
                op: JoinOp::Inner,
                table: Some(TableRef { name: "bar".to_string(), alias: Some("b".to_string()) }),
                on_clause: None,
            },
        ],
    };
    assert_eq!(get_used_table_name("foo", &from), Some("f".to_string()));
    // The ineligible join is skipped; the later eligible one resolves.
    assert_eq!(get_used_table_name("bar", &from), Some("b".to_string()));
    assert_eq!(get_used_table_name("baz", &from), None);
}

#[test]
fn statement_without_from_is_unknown() {
    let stmt = SelectStmt { from: None, where_clause: Some(SqlExpr::NotNull(Box::new(id("id")))) };
    assert_eq!(infer_select("id", "foo", &stmt), None);
}

#[test]
fn join_constraints_are_scanned_when_where_is_indefinite() {
    let stmt = SelectStmt {
        from: Some(SelectFrom {
            primary: Some(TableRef { name: "foo".to_string(), alias: None }),
            joins: vec![Join {
                op: JoinOp::Inner,
                table: Some(TableRef { name: "bar".to_string(), alias: None }),
                on_clause: Some(SqlExpr::Binary(
                    Box::new(qualified("foo", "id")),
                    BinOp::Equals,
                    Box::new(qualified("bar", "id")),
                )),
            }],
        }),
        where_clause: None,
    };
    assert_eq!(infer_select("id", "foo", &stmt), Some(NullableResult::NotNull));
}
