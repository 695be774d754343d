//! The nullability inference engine: given a column name, a table name and
//! one SELECT statement, decide from the statement's syntax alone whether
//! the column's value is provably never null (`NotNull`), provably always
//! null (`Null`), or neither (`None`, meaning unknown).
//!
//! The engine is deliberately an optimization hint, not a validator: every
//! failure mode — unparsable query, unsupported statement shape, absent
//! table, unrecognized predicate — collapses into the absent verdict.
use vstd::prelude::*;

use crate::ast::{spec_eligible, spec_used_name, BinOp, SqlExpr, SelectFrom, Join, JoinOp, SelectStmt, TableRef};
use crate::parse::{parse_of, parse_select};

verus! {

broadcast use vstd::std_specs::vec::group_vec_axioms;

/// A definite verdict about a column within one statement's result rows;
/// absence of a verdict (`Option::None`) means unknown.
#[derive(Clone, Copy, Debug, PartialEq, Eq, Structural)]
pub enum NullableResult {
    NotNull,
    Null,
}

/// Relies on `<str as PartialEq>::eq` (core): string slices compare equal
/// exactly when they consist of the same characters.
pub assume_specification[ <str as PartialEq>::eq ](a: &str, b: &str) -> (r: bool)
    ensures
        r == (a@ == b@),
;

/// Character-wise equality of two string slices.
fn str_eq(a: &str, b: &str) -> (r: bool)
    ensures
        r == (a@ == b@),
{
    *a == *b
}

/// Whether the expression node refers to the column: either a bare
/// identifier equal to the column name (accepted regardless of which table
/// it belongs to — the engine knows no schema), or a qualified identifier
/// whose qualifier equals the table's used name.
pub open spec fn spec_matches_name(column: Seq<char>, table: Seq<char>, e: SqlExpr) -> bool {
    match e {
        SqlExpr::Id(id) => id@ == column,
        SqlExpr::Qualified(qualifier, id) => qualifier@ == table && id@ == column,
        _ => false,
    }
}

/// The comparison operators: a row surviving one of these has a non-null
/// value in any operand position that refers to the column.
pub open spec fn spec_is_comparison(op: BinOp) -> bool {
    ||| op == BinOp::Equals
    ||| op == BinOp::NotEquals
    ||| op == BinOp::Greater
    ||| op == BinOp::GreaterEquals
    ||| op == BinOp::Less
    ||| op == BinOp::LessEquals
}

/// The verdict a single expression yields for the column, under SQL's
/// three-valued logic. Total over the grammar: every unrecognized shape
/// yields `None`, and no rule recurses into an opaque leaf.
pub open spec fn spec_eval(column: Seq<char>, table: Seq<char>, e: SqlExpr) -> Option<NullableResult>
    decreases e,
        via spec_eval_decreases
{
    match e {
        SqlExpr::Binary(l, op, r) => {
            if spec_is_comparison(op) {
                if spec_matches_name(column, table, *l) || spec_matches_name(column, table, *r) {
                    Some(NullableResult::NotNull)
                } else {
                    None
                }
            } else if op == BinOp::Is {
                if *r is NullLiteral && spec_matches_name(column, table, *l) {
                    Some(NullableResult::Null)
                } else if *l is NullLiteral && spec_matches_name(column, table, *r) {
                    Some(NullableResult::Null)
                } else {
                    None
                }
            } else if op == BinOp::IsNot {
                if *r is NullLiteral && spec_matches_name(column, table, *l) {
                    Some(NullableResult::NotNull)
                } else if *l is NullLiteral && spec_matches_name(column, table, *r) {
                    Some(NullableResult::NotNull)
                } else {
                    None
                }
            } else if op == BinOp::And {
                // A definite verdict from either side suffices; the left side
                // is preferred and contradictions are not detected.
                if spec_eval(column, table, *l) is Some {
                    spec_eval(column, table, *l)
                } else {
                    spec_eval(column, table, *r)
                }
            } else if op == BinOp::Or {
                // Either branch alone could hold, so both sides must agree
                // on a definite verdict.
                let lv = spec_eval(column, table, *l);
                let rv = spec_eval(column, table, *r);
                if lv is Some && lv == rv {
                    lv
                } else {
                    None
                }
            } else {
                None
            }
        }
        SqlExpr::InList(lhs) => {
            if spec_matches_name(column, table, *lhs) {
                Some(NullableResult::NotNull)
            } else {
                None
            }
        }
        SqlExpr::Like(l, r) => {
            if spec_matches_name(column, table, *l) || spec_matches_name(column, table, *r) {
                Some(NullableResult::NotNull)
            } else {
                None
            }
        }
        SqlExpr::NotNull(inner) => {
            if spec_matches_name(column, table, *inner) {
                Some(NullableResult::NotNull)
            } else {
                None
            }
        }
        SqlExpr::Paren(es) => {
            if es@.len() == 0 {
                None
            } else {
                let first = spec_eval(column, table, es@[0]);
                if spec_all_eval_to(column, table, es@, first) {
                    first
                } else {
                    None
                }
            }
        }
        _ => None,
    }
}

#[via_fn]
proof fn spec_eval_decreases(column: Seq<char>, table: Seq<char>, e: SqlExpr) {
    match e {
        SqlExpr::Paren(es) => {
            assert(decreases_to!(e => e->Paren_0));
            assert(decreases_to!(e->Paren_0 => e->Paren_0@));
            if es@.len() > 0 {
                assert(decreases_to!(e->Paren_0@ => e->Paren_0@[0]));
            }
        }
        _ => {}
    }
}

/// Whether every expression in the group evaluates to the given verdict.
pub open spec fn spec_all_eval_to(
    column: Seq<char>,
    table: Seq<char>,
    es: Seq<SqlExpr>,
    v: Option<NullableResult>,
) -> bool
    decreases es,
{
    es.len() == 0 || (spec_eval(column, table, es[0]) == v && spec_all_eval_to(
        column,
        table,
        es.drop_first(),
        v,
    ))
}

/// The used name the FROM clause gives to the named table: the primary
/// source is inspected first, then the eligible joins in source order.
/// `None` covers both a table absent from the clause and one reachable
/// only through an ineligible join.
pub open spec fn spec_resolve(table: Seq<char>, from: SelectFrom) -> Option<Seq<char>> {
    match from.primary {
        Some(t) => {
            if t.name@ == table {
                Some(spec_used_name(t))
            } else {
                spec_resolve_joins(table, from.joins@)
            }
        }
        None => spec_resolve_joins(table, from.joins@),
    }
}

/// Resolution over the join list: the first eligible join whose table's
/// base name equals the requested name supplies the used name.
pub open spec fn spec_resolve_joins(table: Seq<char>, joins: Seq<Join>) -> Option<Seq<char>>
    decreases joins.len(),
{
    if joins.len() == 0 {
        None
    } else {
        let j = joins[0];
        match j.table {
            Some(t) => {
                if spec_eligible(j.op) && t.name@ == table {
                    Some(spec_used_name(t))
                } else {
                    spec_resolve_joins(table, joins.drop_first())
                }
            }
            None => spec_resolve_joins(table, joins.drop_first()),
        }
    }
}

/// The first definite verdict among the eligible joins' ON constraints,
/// in source order.
pub open spec fn spec_scan_joins(
    column: Seq<char>,
    used: Seq<char>,
    joins: Seq<Join>,
) -> Option<NullableResult>
    decreases joins.len(),
{
    if joins.len() == 0 {
        None
    } else {
        let j = joins[0];
        let v = if spec_eligible(j.op) && j.on_clause is Some {
            spec_eval(column, used, j.on_clause->0)
        } else {
            None
        };
        if v is Some {
            v
        } else {
            spec_scan_joins(column, used, joins.drop_first())
        }
    }
}

/// The engine's verdict for one SELECT statement: unknown without a FROM
/// clause or when the table does not resolve; otherwise the WHERE clause's
/// verdict when definite, else the first definite verdict among eligible
/// join constraints.
pub open spec fn spec_infer_select(
    column: Seq<char>,
    table: Seq<char>,
    s: SelectStmt,
) -> Option<NullableResult> {
    match s.from {
        None => None,
        Some(f) => match spec_resolve(table, f) {
            None => None,
            Some(used) => {
                let w = match s.where_clause {
                    Some(e) => spec_eval(column, used, e),
                    None => None,
                };
                if w is Some {
                    w
                } else {
                    spec_scan_joins(column, used, f.joins@)
                }
            }
        },
    }
}

/// The verdict for a parse result: a query that did not parse as a single
/// SELECT yields unknown.
pub open spec fn spec_infer(
    column: Seq<char>,
    table: Seq<char>,
    parsed: Option<SelectStmt>,
) -> Option<NullableResult> {
    match parsed {
        None => None,
        Some(s) => spec_infer_select(column, table, s),
    }
}

/// Whether the expression node refers to the column (executable form).
pub fn expr_matches_name(column_name: &str, table_name: &str, expr: &SqlExpr) -> (r: bool)
    ensures
        r == spec_matches_name(column_name@, table_name@, *expr),
{
    match expr {
        SqlExpr::Id(id) => str_eq(id.as_str(), column_name),
        SqlExpr::Qualified(qualifier, id) => {
            str_eq(qualifier.as_str(), table_name) && str_eq(id.as_str(), column_name)
        }
        _ => false,
    }
}

fn verdict_eq(a: &Option<NullableResult>, b: &Option<NullableResult>) -> (r: bool)
    ensures
        r == (*a == *b),
{
    match (a, b) {
        (None, None) => true,
        (Some(x), Some(y)) => *x == *y,
        _ => false,
    }
}

/// The verdict a single expression yields for the column (executable form).
#[verifier::loop_isolation(false)]
pub fn test_expr(column_name: &str, table_name: &str, expr: &SqlExpr) -> (r: Option<NullableResult>)
    ensures
        r == spec_eval(column_name@, table_name@, *expr),
    decreases *expr,
{
    match expr {
        SqlExpr::Binary(lf, op, rf) => {
            if op.is_comparison() {
                if expr_matches_name(column_name, table_name, &**lf)
                    || expr_matches_name(column_name, table_name, &**rf) {
                    Some(NullableResult::NotNull)
                } else {
                    None
                }
            } else if *op == BinOp::Is {
                if (matches!(**rf, SqlExpr::NullLiteral)
                    && expr_matches_name(column_name, table_name, &**lf))
                    || (matches!(**lf, SqlExpr::NullLiteral)
                        && expr_matches_name(column_name, table_name, &**rf)) {
                    Some(NullableResult::Null)
                } else {
                    None
                }
            } else if *op == BinOp::IsNot {
                if (matches!(**rf, SqlExpr::NullLiteral)
                    && expr_matches_name(column_name, table_name, &**lf))
                    || (matches!(**lf, SqlExpr::NullLiteral)
                        && expr_matches_name(column_name, table_name, &**rf)) {
                    Some(NullableResult::NotNull)
                } else {
                    None
                }
            } else if *op == BinOp::And {
                let lv = test_expr(column_name, table_name, &**lf);
                if lv.is_some() {
                    lv
                } else {
                    let rv = test_expr(column_name, table_name, &**rf);
                    rv
                }
            } else if *op == BinOp::Or {
                let lv = test_expr(column_name, table_name, &**lf);
                let rv = test_expr(column_name, table_name, &**rf);
                if lv.is_some() && verdict_eq(&lv, &rv) {
                    lv
                } else {
                    None
                }
            } else {
                None
            }
        }
        SqlExpr::InList(lhs) => {
            if expr_matches_name(column_name, table_name, &**lhs) {
                assert(spec_eval(column_name@, table_name@, *expr) == Some(NullableResult::NotNull));
                Some(NullableResult::NotNull)
            } else {
                None
            }
        }
        SqlExpr::Like(l, r) => {
            if expr_matches_name(column_name, table_name, &**l)
                || expr_matches_name(column_name, table_name, &**r) {
                assert(spec_eval(column_name@, table_name@, *expr) == Some(NullableResult::NotNull));
                Some(NullableResult::NotNull)
            } else {
                None
            }
        }
        SqlExpr::NotNull(inner) => {
            if expr_matches_name(column_name, table_name, &**inner) {
                assert(spec_eval(column_name@, table_name@, *expr) == Some(NullableResult::NotNull));
                Some(NullableResult::NotNull)
            } else {
                None
            }
        }
        SqlExpr::Paren(es) => {
            if es.len() == 0 {
                None
            } else {
                proof {
                    assert(decreases_to!(*expr => (*expr)->Paren_0));
                    assert(decreases_to!((*expr)->Paren_0 => (*expr)->Paren_0@));
                    assert(decreases_to!((*expr)->Paren_0@ => (*expr)->Paren_0@[0]));
                    assert(decreases_to!(*expr => es@[0]));
                }
                let first = test_expr(column_name, table_name, &es[0]);
                proof {
                    assert(es@.skip(1) =~= es@.drop_first());
                }
                let mut i: usize = 1;
                let mut agree = true;
                while i < es.len()
                    invariant
                        1 <= i <= es@.len(),
                        first == spec_eval(column_name@, table_name@, es@[0]),
                        spec_all_eval_to(column_name@, table_name@, es@, first) == (agree
                            && spec_all_eval_to(
                            column_name@,
                            table_name@,
                            es@.skip(i as int),
                            first,
                        )),
                    decreases es@.len() - i,
                {
                    proof {
                        assert(es@.skip(i as int)[0] == es@[i as int]);
                        assert(es@.skip(i as int).drop_first() =~= es@.skip(i as int + 1));
                    }
                    if !agree {
                        // Nothing past the first mismatch can restore agreement.
                    } else {
                        proof {
                            assert(decreases_to!(*expr => (*expr)->Paren_0));
                            assert(decreases_to!((*expr)->Paren_0 => (*expr)->Paren_0@));
                            assert(decreases_to!((*expr)->Paren_0@ => (*expr)->Paren_0@[i as int]));
                            assert(decreases_to!(*expr => es@[i as int]));
                        }
                        let v = test_expr(column_name, table_name, &es[i]);
                        if !verdict_eq(&v, &first) {
                            agree = false;
                        }
                    }
                    i += 1;
                }
                proof {
                    assert(es@.skip(es@.len() as int) =~= Seq::<SqlExpr>::empty());
                }
                if agree {
                    first
                } else {
                    None
                }
            }
        }
        _ => None,
    }
}

/// The used name the FROM clause gives to the named table (executable form).
#[verifier::loop_isolation(false)]
pub fn get_used_table_name(table_name: &str, from: &SelectFrom) -> (r: Option<String>)
    ensures
        match r {
            Some(used) => spec_resolve(table_name@, *from) == Some(used@),
            None => spec_resolve(table_name@, *from) is None,
        },
{
    if let Some(t) = &from.primary {
        if str_eq(t.name.as_str(), table_name) {
            return Some(used_name_of(t));
        }
    }
    proof {
        assert(from.joins@.skip(0) =~= from.joins@);
    }
    let mut i: usize = 0;
    while i < from.joins.len()
        invariant
            0 <= i <= from.joins@.len(),
            spec_resolve_joins(table_name@, from.joins@) == spec_resolve_joins(
                table_name@,
                from.joins@.skip(i as int),
            ),
        decreases from.joins@.len() - i,
    {
        proof {
            assert(from.joins@.skip(i as int)[0] == from.joins@[i as int]);
        }
        let j = &from.joins[i];
        if let Some(t) = &j.table {
            if j.op.is_eligible() && str_eq(t.name.as_str(), table_name) {
                return Some(used_name_of(t));
            }
        }
        proof {
            assert(from.joins@.skip(i as int).drop_first() =~= from.joins@.skip(i as int + 1));
        }
        i += 1;
    }
    proof {
        assert(from.joins@.skip(from.joins@.len() as int) =~= Seq::<Join>::empty());
    }
    None
}

/// The identifier by which the table is referenced inside the statement.
fn used_name_of(t: &TableRef) -> (r: String)
    ensures
        r@ == spec_used_name(*t),
{
    match &t.alias {
        Some(a) => a.clone(),
        None => t.name.clone(),
    }
}

/// The engine's verdict for an already-parsed SELECT statement.
#[verifier::loop_isolation(false)]
pub fn infer_select(column: &str, table_name: &str, stmt: &SelectStmt) -> (r: Option<
    NullableResult,
>)
    ensures
        r == spec_infer_select(column@, table_name@, *stmt),
{
    let from = match &stmt.from {
        Some(f) => f,
        None => {
            return None;
        }
    };
    let used = match get_used_table_name(table_name, from) {
        Some(u) => u,
        None => {
            return None;
        }
    };
    if let Some(w) = &stmt.where_clause {
        let v = test_expr(column, used.as_str(), w);
        if v.is_some() {
            return v;
        }
    }
    proof {
        assert(from.joins@.skip(0) =~= from.joins@);
    }
    let mut i: usize = 0;
    while i < from.joins.len()
        invariant
            0 <= i <= from.joins@.len(),
            spec_scan_joins(column@, used@, from.joins@) == spec_scan_joins(
                column@,
                used@,
                from.joins@.skip(i as int),
            ),
        decreases from.joins@.len() - i,
    {
        proof {
            assert(from.joins@.skip(i as int)[0] == from.joins@[i as int]);
        }
        let j = &from.joins[i];
        if j.op.is_eligible() {
            if let Some(on) = &j.on_clause {
                let v = test_expr(column, used.as_str(), on);
                if v.is_some() {
                    return v;
                }
            }
        }
        proof {
            assert(from.joins@.skip(i as int).drop_first() =~= from.joins@.skip(i as int + 1));
        }
        i += 1;
    }
    proof {
        assert(from.joins@.skip(from.joins@.len() as int) =~= Seq::<Join>::empty());
    }
    None
}

/// The engine's entry point: parse the query text and infer the column's
/// nullability within the resulting SELECT statement. Every input yields
/// a result; a verdict is absent whenever nothing can be proven.
pub fn is_column_nullable(column: &str, table_name: &str, query: &str) -> (r: Option<
    NullableResult,
>)
    ensures
        r == spec_infer(column@, table_name@, parse_of(query@)),
{
    match parse_select(query) {
        Some(stmt) => infer_select(column, table_name, &stmt),
        None => None,
    }
}

/// Law: a query that does not parse as a single SELECT statement, or
/// whose statement has no FROM clause, yields no verdict.
pub proof fn lemma_unsupported_shape_unknown(
    column: Seq<char>,
    table: Seq<char>,
    parsed: Option<SelectStmt>,
)
    requires
        parsed matches Some(s) ==> s.from is None,
    ensures
        spec_infer(column, table, parsed) is None,
{
}

/// Law: the engine is a pure function of its three inputs — any two
/// results that meet the entry point's contract for the same column,
/// table and query are equal, so repeated calls agree.
pub proof fn lemma_infer_deterministic(
    column: Seq<char>,
    table: Seq<char>,
    query: Seq<char>,
    r1: Option<NullableResult>,
    r2: Option<NullableResult>,
)
    requires
        r1 == spec_infer(column, table, parse_of(query)),
        r2 == spec_infer(column, table, parse_of(query)),
    ensures
        r1 == r2,
{
}

/// Law: conjunction is asymmetric — a definite verdict from the left side
/// is returned even when the right side would say otherwise, and only an
/// indefinite left side defers to the right; disjunction is symmetric —
/// it yields a definite verdict exactly when both sides agree on one.
pub proof fn lemma_and_or_combination(column: Seq<char>, table: Seq<char>, e: SqlExpr)
    requires
        e is Binary,
    ensures
        e->Binary_1 == BinOp::And ==> spec_eval(column, table, e) == (if spec_eval(
            column,
            table,
            *e->Binary_0,
        ) is Some {
            spec_eval(column, table, *e->Binary_0)
        } else {
            spec_eval(column, table, *e->Binary_2)
        }),
        e->Binary_1 == BinOp::Or ==> spec_eval(column, table, e) == (match (
            spec_eval(column, table, *e->Binary_0),
            spec_eval(column, table, *e->Binary_2),
        ) {
            (Some(NullableResult::NotNull), Some(NullableResult::NotNull)) => Some(
                NullableResult::NotNull,
            ),
            (Some(NullableResult::Null), Some(NullableResult::Null)) => Some(NullableResult::Null),
            _ => None,
        }),
{
}

impl BinOp {
    /// Executable form of `spec_is_comparison`.
    pub fn is_comparison(&self) -> (r: bool)
        ensures
            r == spec_is_comparison(*self),
    {
        matches!(
            self,
            BinOp::Equals
                | BinOp::NotEquals
                | BinOp::Greater
                | BinOp::GreaterEquals
                | BinOp::Less
                | BinOp::LessEquals
        )
    }
}

impl JoinOp {
    /// Executable form of `spec_eligible`.
    pub fn is_eligible(&self) -> (r: bool)
        ensures
            r == spec_eligible(*self),
    {
        matches!(self, JoinOp::Comma | JoinOp::Plain | JoinOp::Inner | JoinOp::Cross)
    }
}

} // verus!
