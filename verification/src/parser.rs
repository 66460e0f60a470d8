//! The trusted boundary to the outside SQL grammar.
//!
//! The grammar's syntax tree is lowered here, variant by variant and
//! field by field, into the plain statement nodes of `stmt`. Parsing is
//! deterministic, so what a parse returns is named by the uninterpreted
//! function `sql_parse`; everything done with the nodes afterwards is
//! verified against that name.

use crate::dialect::Dialect;
use crate::stmt::{
    AlterOpNode, ColumnDefNode, ColumnOptionNode, ConstraintNode, StatementNode,
    StatementNodeView,
};
use vstd::prelude::*;

verus! {

#[verifier::external_type_specification]
#[verifier::external_body]
pub struct ExStatement(sqlparser::ast::Statement);

#[verifier::external_type_specification]
#[verifier::external_body]
pub struct ExCreateTable(sqlparser::ast::CreateTable);

#[verifier::external_type_specification]
#[verifier::external_body]
pub struct ExCreateIndex(sqlparser::ast::CreateIndex);

#[verifier::external_type_specification]
#[verifier::external_body]
pub struct ExAlterTable(sqlparser::ast::AlterTable);

#[verifier::external_type_specification]
#[verifier::external_body]
pub struct ExAlterTableOperation(sqlparser::ast::AlterTableOperation);

#[verifier::external_type_specification]
#[verifier::external_body]
pub struct ExTableConstraint(sqlparser::ast::TableConstraint);

#[verifier::external_type_specification]
#[verifier::external_body]
pub struct ExForeignKeyConstraint(sqlparser::ast::ForeignKeyConstraint);

#[verifier::external_type_specification]
#[verifier::external_body]
pub struct ExColumnDef(sqlparser::ast::ColumnDef);

#[verifier::external_type_specification]
#[verifier::external_body]
pub struct ExColumnOptionDef(sqlparser::ast::ColumnOptionDef);

#[verifier::external_type_specification]
#[verifier::external_body]
pub struct ExObjectName(sqlparser::ast::ObjectName);

#[verifier::external_type_specification]
#[verifier::external_body]
pub struct ExIdent(sqlparser::ast::Ident);

#[verifier::external_type_specification]
#[verifier::external_body]
pub struct ExReferentialAction(sqlparser::ast::ReferentialAction);

#[verifier::external_type_specification]
#[verifier::external_body]
pub struct ExIndexColumn(sqlparser::ast::IndexColumn);

/// What the outside grammar returns for a dialect and an SQL text, as
/// statement-node models in statement order, or as its error message.
/// Parsing is a function of its arguments alone.
pub uninterp spec fn sql_parse(dialect: Dialect, sql: Seq<char>) -> Result<
    Seq<StatementNodeView>,
    Seq<char>,
>;

/// A parse result, as models.
pub open spec fn parse_outcome_view(r: &Result<Vec<StatementNode>, String>) -> Result<
    Seq<StatementNodeView>,
    Seq<char>,
> {
    match r {
        Ok(ns) => Ok(ns.deep_view()),
        Err(m) => Err(m@),
    }
}

/// Relies on the `Display` form of `sqlparser::ast::ObjectNamePart`:
/// one string for each segment of the identifier chain, in order.
#[verifier::external_body]
fn lower_object_name(name: sqlparser::ast::ObjectName) -> Vec<String> {
    name.0.iter().map(|p| p.to_string()).collect()
}

/// Relies on the `Display` form of `sqlparser::ast::Ident`; an absent
/// identifier becomes the empty string.
#[verifier::external_body]
fn lower_ident_opt(name: Option<sqlparser::ast::Ident>) -> String {
    name.map(|n| n.to_string()).unwrap_or_default()
}

/// Relies on the `Display` form of `sqlparser::ast::ReferentialAction`,
/// carried verbatim; an absent action becomes the empty string.
#[verifier::external_body]
fn lower_action(a: Option<sqlparser::ast::ReferentialAction>) -> String {
    a.map(|x| x.to_string()).unwrap_or_default()
}

/// Relies on the `Display` form of the column expression of each
/// `sqlparser::ast::IndexColumn`, in order.
#[verifier::external_body]
fn lower_index_columns(cols: Vec<sqlparser::ast::IndexColumn>) -> Vec<String> {
    cols.iter().map(|c| c.column.to_string()).collect()
}

/// Relies on the `Display` form of `sqlparser::ast::Ident`, in order.
#[verifier::external_body]
fn lower_idents(cols: Vec<sqlparser::ast::Ident>) -> Vec<String> {
    cols.iter().map(|c| c.to_string()).collect()
}

/// Moves the fields of `sqlparser::ast::ForeignKeyConstraint` into a
/// foreign-key constraint node.
#[verifier::external_body]
fn lower_fk_constraint(fk: sqlparser::ast::ForeignKeyConstraint) -> ConstraintNode {
    ConstraintNode::ForeignKey {
        name: lower_ident_opt(fk.name),
        columns: lower_idents(fk.columns),
        referenced_table: fk.foreign_table.to_string(),
        referenced_columns: lower_idents(fk.referred_columns),
        on_delete: lower_action(fk.on_delete),
        on_update: lower_action(fk.on_update),
    }
}

/// Tells the variants of `sqlparser::ast::TableConstraint` apart: the
/// primary-key, foreign-key and unique clauses are carried over, every
/// other constraint kind maps to the inert node.
#[verifier::external_body]
fn lower_constraint(c: sqlparser::ast::TableConstraint) -> ConstraintNode {
    match c {
        sqlparser::ast::TableConstraint::PrimaryKey(pk) => ConstraintNode::PrimaryKey {
            name: lower_ident_opt(pk.name),
            columns: lower_index_columns(pk.columns),
        },
        sqlparser::ast::TableConstraint::ForeignKey(fk) => lower_fk_constraint(fk),
        sqlparser::ast::TableConstraint::Unique(u) => ConstraintNode::Unique {
            name: u.name.map(|n| n.to_string()),
            columns: lower_index_columns(u.columns),
        },
        _ => ConstraintNode::Other,
    }
}

/// Moves the fields of an inline references-clause into a column-option
/// node, together with the option's constraint name.
#[verifier::external_body]
fn lower_fk_option(
    constraint_name: String,
    fk: sqlparser::ast::ForeignKeyConstraint,
) -> ColumnOptionNode {
    ColumnOptionNode::ForeignKey {
        constraint_name,
        referenced_table: fk.foreign_table.to_string(),
        referenced_columns: lower_idents(fk.referred_columns),
        on_delete: lower_action(fk.on_delete),
        on_update: lower_action(fk.on_update),
    }
}

/// Tells the variants of `sqlparser::ast::ColumnOption` apart: NOT NULL,
/// the inline primary-key option and the inline references-clause are
/// carried over, every other option maps to the inert node.
#[verifier::external_body]
fn lower_option(o: sqlparser::ast::ColumnOptionDef) -> ColumnOptionNode {
    match o.option {
        sqlparser::ast::ColumnOption::NotNull => ColumnOptionNode::NotNull,
        sqlparser::ast::ColumnOption::PrimaryKey(_) => ColumnOptionNode::PrimaryKey {
            constraint_name: lower_ident_opt(o.name),
        },
        sqlparser::ast::ColumnOption::ForeignKey(fk) => lower_fk_option(
            lower_ident_opt(o.name),
            fk,
        ),
        _ => ColumnOptionNode::Other,
    }
}

/// Relies on the `Display` forms of `sqlparser::ast::Ident` and
/// `sqlparser::ast::DataType` for a column's name and raw type text.
#[verifier::external_body]
fn lower_column_def(cd: sqlparser::ast::ColumnDef) -> ColumnDefNode {
    ColumnDefNode {
        name: cd.name.to_string(),
        type_text: cd.data_type.to_string(),
        options: cd.options.into_iter().map(lower_option).collect(),
    }
}

/// Tells the variants of `sqlparser::ast::AlterTableOperation` apart:
/// ADD CONSTRAINT is carried over, every other operation maps to the
/// inert node.
#[verifier::external_body]
fn lower_alter_op(op: sqlparser::ast::AlterTableOperation) -> AlterOpNode {
    match op {
        sqlparser::ast::AlterTableOperation::AddConstraint { constraint, .. } => {
            AlterOpNode::AddConstraint(lower_constraint(constraint))
        },
        _ => AlterOpNode::Other,
    }
}

/// Moves the name, column definitions and table constraints of
/// `sqlparser::ast::CreateTable` into a statement node.
#[verifier::external_body]
fn lower_create_table(ct: sqlparser::ast::CreateTable) -> StatementNode {
    StatementNode::CreateTable {
        name: lower_object_name(ct.name),
        columns: ct.columns.into_iter().map(lower_column_def).collect(),
        constraints: ct.constraints.into_iter().map(lower_constraint).collect(),
    }
}

/// Moves the name, target table, columns and uniqueness flag of
/// `sqlparser::ast::CreateIndex` into a statement node.
#[verifier::external_body]
fn lower_create_index(ci: sqlparser::ast::CreateIndex) -> StatementNode {
    StatementNode::CreateIndex {
        name: ci.name.map(|n| n.to_string()),
        table: lower_object_name(ci.table_name),
        columns: lower_index_columns(ci.columns),
        unique: ci.unique,
    }
}

/// Moves the name and operations of `sqlparser::ast::AlterTable` into a
/// statement node.
#[verifier::external_body]
fn lower_alter_table(at: sqlparser::ast::AlterTable) -> StatementNode {
    StatementNode::AlterTable {
        name: lower_object_name(at.name),
        operations: at.operations.into_iter().map(lower_alter_op).collect(),
    }
}

/// Tells the variants of `sqlparser::ast::Statement` apart: CREATE
/// TABLE, CREATE INDEX and ALTER TABLE are lowered, every other
/// statement kind maps to the inert node.
#[verifier::external_body]
fn lower_statement(s: sqlparser::ast::Statement) -> StatementNode {
    match s {
        sqlparser::ast::Statement::CreateTable(ct) => lower_create_table(ct),
        sqlparser::ast::Statement::CreateIndex(ci) => lower_create_index(ci),
        sqlparser::ast::Statement::AlterTable(at) => lower_alter_table(at),
        _ => StatementNode::Other,
    }
}

/// Relies on `sqlparser::parser::Parser::parse_sql` with the MySQL
/// grammar: deterministic in the text, statements in order, the error's
/// `Display` message verbatim.
#[verifier::external_body]
fn parse_mysql(sql: &str) -> (r: Result<Vec<StatementNode>, String>)
    ensures
        parse_outcome_view(&r) == sql_parse(Dialect::MySql, sql@),
{
    match sqlparser::parser::Parser::parse_sql(&sqlparser::dialect::MySqlDialect {}, sql) {
        Ok(stmts) => Ok(stmts.into_iter().map(lower_statement).collect()),
        Err(e) => Err(e.to_string()),
    }
}

/// Relies on `sqlparser::parser::Parser::parse_sql` with the PostgreSQL
/// grammar: deterministic in the text, statements in order, the error's
/// `Display` message verbatim.
#[verifier::external_body]
fn parse_postgres(sql: &str) -> (r: Result<Vec<StatementNode>, String>)
    ensures
        parse_outcome_view(&r) == sql_parse(Dialect::Postgres, sql@),
{
    match sqlparser::parser::Parser::parse_sql(&sqlparser::dialect::PostgreSqlDialect {}, sql) {
        Ok(stmts) => Ok(stmts.into_iter().map(lower_statement).collect()),
        Err(e) => Err(e.to_string()),
    }
}

/// Relies on `sqlparser::parser::Parser::parse_sql` with the SQLite
/// grammar: deterministic in the text, statements in order, the error's
/// `Display` message verbatim.
#[verifier::external_body]
fn parse_sqlite(sql: &str) -> (r: Result<Vec<StatementNode>, String>)
    ensures
        parse_outcome_view(&r) == sql_parse(Dialect::Sqlite, sql@),
{
    match sqlparser::parser::Parser::parse_sql(&sqlparser::dialect::SQLiteDialect {}, sql) {
        Ok(stmts) => Ok(stmts.into_iter().map(lower_statement).collect()),
        Err(e) => Err(e.to_string()),
    }
}

/// Relies on `sqlparser::parser::Parser::parse_sql` with the generic
/// grammar: deterministic in the text, statements in order, the error's
/// `Display` message verbatim.
#[verifier::external_body]
fn parse_generic(sql: &str) -> (r: Result<Vec<StatementNode>, String>)
    ensures
        parse_outcome_view(&r) == sql_parse(Dialect::Generic, sql@),
{
    match sqlparser::parser::Parser::parse_sql(&sqlparser::dialect::GenericDialect {}, sql) {
        Ok(stmts) => Ok(stmts.into_iter().map(lower_statement).collect()),
        Err(e) => Err(e.to_string()),
    }
}

/// Parses an SQL text with the grammar the dialect selects: the
/// statement nodes in statement order, or the grammar's error message.
pub fn parse_statements(dialect: Dialect, sql: &str) -> (r: Result<Vec<StatementNode>, String>)
    ensures
        parse_outcome_view(&r) == sql_parse(dialect, sql@),
{
    match dialect {
        Dialect::MySql => parse_mysql(sql),
        Dialect::Postgres => parse_postgres(sql),
        Dialect::Sqlite => parse_sqlite(sql),
        Dialect::Generic => parse_generic(sql),
    }
}

} // verus!
