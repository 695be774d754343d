//! Data model for the fragment of the SQL grammar that the nullability
//! engine inspects: a single SELECT statement's FROM clause and the
//! expression trees of its WHERE clause and join constraints.
//!
//! Every node kind the engine does not recognize is collapsed into an
//! opaque leaf (`SqlExpr::Other`, `JoinOp::Other`), so that unrecognized
//! syntax can never yield a definite verdict.
use vstd::prelude::*;

verus! {

/// Binary operator tags that can appear between two expressions.
/// Operators the engine draws no conclusion from are collapsed to `Other`.
#[derive(Clone, Copy, Debug, PartialEq, Eq, Structural)]
pub enum BinOp {
    Equals,
    NotEquals,
    Greater,
    GreaterEquals,
    Less,
    LessEquals,
    Is,
    IsNot,
    And,
    Or,
    Other,
}

/// Join operator classification. Only `Comma`, `Plain` (a bare JOIN),
/// `Inner` and `Cross` behave like filtered cross products; every other
/// operator (outer joins among them) is `Other` and never eligible.
#[derive(Clone, Copy, Debug, PartialEq, Eq, Structural)]
pub enum JoinOp {
    Comma,
    Plain,
    Inner,
    Cross,
    Other,
}

/// An expression tree, restricted to the shapes the engine recognizes.
#[derive(Debug)]
pub enum SqlExpr {
    /// A bare identifier.
    Id(String),
    /// A qualified identifier: table qualifier, then column name.
    Qualified(String, String),
    /// A binary operation.
    Binary(Box<SqlExpr>, BinOp, Box<SqlExpr>),
    /// A membership test; only the left-hand operand matters here.
    InList(Box<SqlExpr>),
    /// A pattern match (LIKE), with or without NOT.
    Like(Box<SqlExpr>, Box<SqlExpr>),
    /// A postfix not-null assertion (NOTNULL / NOT NULL).
    NotNull(Box<SqlExpr>),
    /// The literal NULL.
    NullLiteral,
    /// A parenthesized group of one or more expressions.
    Paren(Vec<SqlExpr>),
    /// Any node kind the engine treats as an opaque leaf.
    Other,
}

/// A table reference: its base name and, when present, its alias
/// (explicit `AS name` and the elided form are not distinguished).
#[derive(Debug)]
pub struct TableRef {
    pub name: String,
    pub alias: Option<String>,
}

/// One joined source in a FROM clause. `table` is `None` when the joined
/// source is not a plain table (a subquery, say); such a source can never
/// resolve a table name, though its ON constraint is still inspected.
/// `on_clause` is `None` when the join has no constraint or a USING
/// constraint, which the engine ignores.
#[derive(Debug)]
pub struct Join {
    pub op: JoinOp,
    pub table: Option<TableRef>,
    pub on_clause: Option<SqlExpr>,
}

/// A FROM clause: the primary source (when it is a plain table) and the
/// joined sources in source order.
#[derive(Debug)]
pub struct SelectFrom {
    pub primary: Option<TableRef>,
    pub joins: Vec<Join>,
}

/// A single SELECT statement, reduced to what the engine reads:
/// its FROM clause and its WHERE expression, either possibly absent.
#[derive(Debug)]
pub struct SelectStmt {
    pub from: Option<SelectFrom>,
    pub where_clause: Option<SqlExpr>,
}

/// The identifier by which a table is referenced inside the statement:
/// its alias when one is present, else its base name.
pub open spec fn spec_used_name(t: TableRef) -> Seq<char> {
    match t.alias {
        Some(a) => a@,
        None => t.name@,
    }
}

/// The allow-list of join operators that behave like filtered cross
/// products; only these may resolve a table name or contribute an
/// ON constraint.
pub open spec fn spec_eligible(op: JoinOp) -> bool {
    op == JoinOp::Comma || op == JoinOp::Plain || op == JoinOp::Inner || op == JoinOp::Cross
}

} // verus!
