//! Static analysis of SQL statements without executing them: a syntactic
//! nullability inference engine for SELECT statements, collection of a
//! statement's named parameters, and a check that all named parameters
//! share one prefix character.
pub mod ast;
pub mod nullable;
pub mod parameters;
pub mod prefix;
pub mod query;

mod parse;
