//! The trusted boundary to the external SQL parser: the query text is
//! handed to `sqlite3_parser`, and the resulting syntax tree is carried
//! over, node by node, into this crate's own data model. What the parser
//! produces is named by the uninterpreted functions `parse_of` and
//! `params_of`; all reasoning about the engine happens over those names.
use vstd::prelude::*;

use crate::ast as own;
use fallible_iterator::FallibleIterator;
use sqlite3_parser::ast as sqlast;
use sqlite3_parser::lexer::sql::Parser;

verus! {

/// The result of parsing a query as a single SELECT statement, reduced to
/// the shapes the engine reads; `None` when the text does not parse or is
/// not such a statement. A function of the query text alone.
pub uninterp spec fn parse_of(q: Seq<char>) -> Option<own::SelectStmt>;

/// The parameter information of a parsed statement: the parameter count
/// and the named parameters (prefix character included) in order of first
/// occurrence; `None` when the text does not parse. A function of the
/// query text alone.
pub uninterp spec fn params_of(q: Seq<char>) -> Option<(u16, Seq<Seq<char>>)>;

#[verifier::external_type_specification]
#[verifier::external_body]
pub struct ExSqlExpr<'a>(sqlast::Expr<'a>);

#[verifier::external_type_specification]
#[verifier::external_body]
pub struct ExSqlOperator(sqlast::Operator);

#[verifier::external_type_specification]
#[verifier::external_body]
pub struct ExSqlFromClause<'a>(sqlast::FromClause<'a>);

#[verifier::external_type_specification]
#[verifier::external_body]
pub struct ExSqlJoinedSelectTable<'a>(sqlast::JoinedSelectTable<'a>);

#[verifier::external_type_specification]
#[verifier::external_body]
pub struct ExSqlSelectTable<'a>(sqlast::SelectTable<'a>);

#[verifier::external_type_specification]
#[verifier::external_body]
pub struct ExSqlJoinOperator(sqlast::JoinOperator);

/// Relies on `sqlite3_parser::lexer::sql::Parser`: parsing the text and
/// keeping the first command exactly when it is a single SELECT
/// statement. The parse is a function of the query text alone, so the
/// result is `parse_of` of the text.
#[verifier::external_body]
pub(crate) fn parse_select(query: &str) -> (r: Option<own::SelectStmt>)
    ensures
        r == parse_of(query@),
{
    let bump = bumpalo::Bump::new();
    let mut parser = Parser::new(&bump, query.as_bytes());
    let cmd = parser.next().ok()??;
    if let sqlast::Cmd::Stmt(sqlast::Stmt::Select(s)) = cmd {
        if let sqlast::OneSelect::Select { from, where_clause, .. } = &s.body.select {
            return Some(own::SelectStmt {
                from: from.as_ref().map(convert_from),
                where_clause: where_clause.map(convert_expr),
            });
        }
    }
    None
}

/// Relies on `sqlite3_parser`'s `Parser` and `ParameterInfo`: walking the
/// parsed command's tokens collects its parameters — the named ones in
/// first-occurrence order, each kept once — and counts them. Both are
/// functions of the query text alone, so the result is `params_of` of
/// the text.
#[verifier::external_body]
pub(crate) fn collect_parameters(query: &str) -> (r: Option<(u16, Vec<String>)>)
    ensures
        match r {
            Some(p) => params_of(query@) == Some((p.0, p.1.deep_view())),
            None => params_of(query@) is None,
        },
{
    let bump = bumpalo::Bump::new();
    let mut parser = Parser::new(&bump, query.as_bytes());
    let cmd = parser.next().ok()??;
    let mut info = sqlast::ParameterInfo::default();
    sqlast::fmt::ToTokens::to_tokens(&cmd, &mut info).ok()?;
    Some((info.count, info.names.into_iter().collect()))
}

/// Carries one parsed expression node over into the engine's model,
/// variant by variant; unrecognized nodes become the opaque leaf.
#[verifier::external_body]
fn convert_expr(e: &sqlast::Expr<'_>) -> own::SqlExpr {
    match e {
        sqlast::Expr::Id(id) => own::SqlExpr::Id(id.0.to_string()),
        sqlast::Expr::Qualified(t, id) => own::SqlExpr::Qualified(t.0.to_string(), id.0.to_string()),
        sqlast::Expr::Literal(sqlast::Literal::Null) => own::SqlExpr::NullLiteral,
        _ => convert_compound(e),
    }
}

/// Carries the compound expression nodes over: binary operations,
/// membership tests, pattern matches, the postfix not-null assertion and
/// parenthesized groups; anything else becomes the opaque leaf.
#[verifier::external_body]
fn convert_compound(e: &sqlast::Expr<'_>) -> own::SqlExpr {
    match e {
        sqlast::Expr::Binary(l, op, r) => own::SqlExpr::Binary(cb(l), convert_op(op), cb(r)),
        sqlast::Expr::InList { lhs, .. } => own::SqlExpr::InList(cb(lhs)),
        sqlast::Expr::Like { lhs, rhs, .. } => own::SqlExpr::Like(cb(lhs), cb(rhs)),
        sqlast::Expr::NotNull(inner) => own::SqlExpr::NotNull(cb(inner)),
        sqlast::Expr::Parenthesized(es) => own::SqlExpr::Paren(es.iter().map(convert_expr).collect()),
        _ => own::SqlExpr::Other,
    }
}

/// Converts one parsed subexpression into a boxed node of the model.
#[verifier::external_body]
fn cb(e: &sqlast::Expr<'_>) -> Box<own::SqlExpr> {
    Box::new(convert_expr(e))
}

/// Carries a parsed binary operator tag over, one variant each; operators
/// the engine draws no conclusion from become `Other`.
#[verifier::external_body]
fn convert_op(op: &sqlast::Operator) -> own::BinOp {
    match op {
        sqlast::Operator::Equals => own::BinOp::Equals,
        sqlast::Operator::NotEquals => own::BinOp::NotEquals,
        sqlast::Operator::Greater => own::BinOp::Greater,
        sqlast::Operator::GreaterEquals => own::BinOp::GreaterEquals,
        sqlast::Operator::Less => own::BinOp::Less,
        sqlast::Operator::LessEquals => own::BinOp::LessEquals,
        sqlast::Operator::Is => own::BinOp::Is,
        sqlast::Operator::IsNot => own::BinOp::IsNot,
        sqlast::Operator::And => own::BinOp::And,
        sqlast::Operator::Or => own::BinOp::Or,
        _ => own::BinOp::Other,
    }
}

/// Carries a parsed join operator over: the comma, the bare `JOIN`, and
/// the joins typed exactly `INNER` or exactly `CROSS` (which the parser
/// spells `INNER | CROSS`); every other operator, outer joins among
/// them, becomes `Other`.
#[verifier::external_body]
fn convert_join_op(op: &sqlast::JoinOperator) -> own::JoinOp {
    match op {
        sqlast::JoinOperator::Comma => own::JoinOp::Comma,
        sqlast::JoinOperator::TypedJoin(None) => own::JoinOp::Plain,
        sqlast::JoinOperator::TypedJoin(Some(t)) if *t == sqlast::JoinType::INNER => own::JoinOp::Inner,
        sqlast::JoinOperator::TypedJoin(Some(t)) if *t == sqlast::JoinType::INNER
            | sqlast::JoinType::CROSS => own::JoinOp::Cross,
        _ => own::JoinOp::Other,
    }
}

/// Carries a parsed source over when it is a plain table: its base name
/// and its alias, whether written with `AS` or elided; any other source
/// (a subquery, say) becomes `None`.
#[verifier::external_body]
fn convert_select_table(t: &sqlast::SelectTable<'_>) -> Option<own::TableRef> {
    match t {
        sqlast::SelectTable::Table(name, as_name, _) => Some(own::TableRef {
            name: name.name.0.to_string(),
            alias: match as_name {
                Some(sqlast::As::As(a)) => Some(a.0.to_string()),
                Some(sqlast::As::Elided(a)) => Some(a.0.to_string()),
                None => None,
            },
        }),
        _ => None,
    }
}

/// Carries one parsed join over: its operator, its table when the joined
/// source is a plain table, and its constraint when that is an `ON`
/// expression (`USING` constraints are dropped).
#[verifier::external_body]
fn convert_join(j: &sqlast::JoinedSelectTable<'_>) -> own::Join {
    own::Join {
        op: convert_join_op(&j.operator),
        table: convert_select_table(&j.table),
        on_clause: match &j.constraint {
            Some(sqlast::JoinConstraint::On(e)) => Some(convert_expr(e)),
            _ => None,
        },
    }
}

/// Carries a parsed FROM clause over: the primary source when it is a
/// plain table, and the joined sources in source order.
#[verifier::external_body]
fn convert_from(f: &sqlast::FromClause<'_>) -> own::SelectFrom {
    own::SelectFrom {
        primary: f.select.and_then(convert_select_table),
        joins: match &f.joins {
            Some(js) => js.iter().map(convert_join).collect(),
            None => Vec::new(),
        },
    }
}

} // verus!
