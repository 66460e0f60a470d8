//! Plain statement nodes: what the catalog builder reads of a parsed
//! SQL statement.
//!
//! The outside grammar's syntax tree is lowered to these nodes at the
//! trusted boundary; everything the extraction logic does with them is
//! verified against the models below.

use vstd::prelude::*;

verus! {

/// One option attached to a column definition.
#[derive(Debug, Clone)]
pub enum ColumnOptionNode {
    /// An explicit NOT NULL option.
    NotNull,
    /// An inline primary-key option; the constraint's name, or empty.
    PrimaryKey { constraint_name: String },
    /// An inline references-clause; action texts are carried verbatim,
    /// empty when absent.
    ForeignKey {
        constraint_name: String,
        referenced_table: String,
        referenced_columns: Vec<String>,
        on_delete: String,
        on_update: String,
    },
    /// Any other option; it has no effect on extraction.
    Other,
}

/// Model of `ColumnOptionNode`.
#[verifier::ext_equal]
pub enum ColumnOptionNodeView {
    NotNull,
    PrimaryKey { constraint_name: Seq<char> },
    ForeignKey {
        constraint_name: Seq<char>,
        referenced_table: Seq<char>,
        referenced_columns: Seq<Seq<char>>,
        on_delete: Seq<char>,
        on_update: Seq<char>,
    },
    Other,
}

impl DeepView for ColumnOptionNode {
    type V = ColumnOptionNodeView;

    open spec fn deep_view(&self) -> ColumnOptionNodeView {
        match self {
            ColumnOptionNode::NotNull => ColumnOptionNodeView::NotNull,
            ColumnOptionNode::PrimaryKey { constraint_name } => ColumnOptionNodeView::PrimaryKey {
                constraint_name: constraint_name.deep_view(),
            },
            ColumnOptionNode::ForeignKey {
                constraint_name,
                referenced_table,
                referenced_columns,
                on_delete,
                on_update,
            } => ColumnOptionNodeView::ForeignKey {
                constraint_name: constraint_name.deep_view(),
                referenced_table: referenced_table.deep_view(),
                referenced_columns: referenced_columns.deep_view(),
                on_delete: on_delete.deep_view(),
                on_update: on_update.deep_view(),
            },
            ColumnOptionNode::Other => ColumnOptionNodeView::Other,
        }
    }
}

/// One column definition of a CREATE TABLE statement: its name, the raw
/// declared type text, and its options in declaration order.
#[derive(Debug, Clone)]
pub struct ColumnDefNode {
    pub name: String,
    pub type_text: String,
    pub options: Vec<ColumnOptionNode>,
}

/// Model of `ColumnDefNode`.
#[verifier::ext_equal]
pub struct ColumnDefNodeView {
    pub name: Seq<char>,
    pub type_text: Seq<char>,
    pub options: Seq<ColumnOptionNodeView>,
}

impl DeepView for ColumnDefNode {
    type V = ColumnDefNodeView;

    open spec fn deep_view(&self) -> ColumnDefNodeView {
        ColumnDefNodeView {
            name: self.name.deep_view(),
            type_text: self.type_text.deep_view(),
            options: self.options.deep_view(),
        }
    }
}

/// One table-level constraint clause.
#[derive(Debug, Clone)]
pub enum ConstraintNode {
    /// A PRIMARY KEY clause; the constraint's name, or empty.
    PrimaryKey { name: String, columns: Vec<String> },
    /// A FOREIGN KEY clause; action texts are carried verbatim, empty
    /// when absent.
    ForeignKey {
        name: String,
        columns: Vec<String>,
        referenced_table: String,
        referenced_columns: Vec<String>,
        on_delete: String,
        on_update: String,
    },
    /// A UNIQUE clause; only named ones can be kept as indexes.
    Unique { name: Option<String>, columns: Vec<String> },
    /// Any other constraint kind; it has no effect on extraction.
    Other,
}

/// Model of `ConstraintNode`.
#[verifier::ext_equal]
pub enum ConstraintNodeView {
    PrimaryKey { name: Seq<char>, columns: Seq<Seq<char>> },
    ForeignKey {
        name: Seq<char>,
        columns: Seq<Seq<char>>,
        referenced_table: Seq<char>,
        referenced_columns: Seq<Seq<char>>,
        on_delete: Seq<char>,
        on_update: Seq<char>,
    },
    Unique { name: Option<Seq<char>>, columns: Seq<Seq<char>> },
    Other,
}

impl DeepView for ConstraintNode {
    type V = ConstraintNodeView;

    open spec fn deep_view(&self) -> ConstraintNodeView {
        match self {
            ConstraintNode::PrimaryKey { name, columns } => ConstraintNodeView::PrimaryKey {
                name: name.deep_view(),
                columns: columns.deep_view(),
            },
            ConstraintNode::ForeignKey {
                name,
                columns,
                referenced_table,
                referenced_columns,
                on_delete,
                on_update,
            } => ConstraintNodeView::ForeignKey {
                name: name.deep_view(),
                columns: columns.deep_view(),
                referenced_table: referenced_table.deep_view(),
                referenced_columns: referenced_columns.deep_view(),
                on_delete: on_delete.deep_view(),
                on_update: on_update.deep_view(),
            },
            ConstraintNode::Unique { name, columns } => ConstraintNodeView::Unique {
                name: name.deep_view(),
                columns: columns.deep_view(),
            },
            ConstraintNode::Other => ConstraintNodeView::Other,
        }
    }
}

/// One operation of an ALTER TABLE statement.
#[derive(Debug, Clone)]
pub enum AlterOpNode {
    /// An ADD CONSTRAINT operation.
    AddConstraint(ConstraintNode),
    /// Any other operation; it has no effect on extraction.
    Other,
}

/// Model of `AlterOpNode`.
#[verifier::ext_equal]
pub enum AlterOpNodeView {
    AddConstraint(ConstraintNodeView),
    Other,
}

impl DeepView for AlterOpNode {
    type V = AlterOpNodeView;

    open spec fn deep_view(&self) -> AlterOpNodeView {
        match self {
            AlterOpNode::AddConstraint(c) => AlterOpNodeView::AddConstraint(c.deep_view()),
            AlterOpNode::Other => AlterOpNodeView::Other,
        }
    }
}

/// One parsed statement, reduced to what extraction reads of it.
/// Qualified names are carried as their dot-separated segments in order.
#[derive(Debug, Clone)]
pub enum StatementNode {
    CreateTable {
        name: Vec<String>,
        columns: Vec<ColumnDefNode>,
        constraints: Vec<ConstraintNode>,
    },
    CreateIndex { name: Option<String>, table: Vec<String>, columns: Vec<String>, unique: bool },
    AlterTable { name: Vec<String>, operations: Vec<AlterOpNode> },
    /// Any other statement kind; it is ignored.
    Other,
}

/// Model of `StatementNode`.
#[verifier::ext_equal]
pub enum StatementNodeView {
    CreateTable {
        name: Seq<Seq<char>>,
        columns: Seq<ColumnDefNodeView>,
        constraints: Seq<ConstraintNodeView>,
    },
    CreateIndex {
        name: Option<Seq<char>>,
        table: Seq<Seq<char>>,
        columns: Seq<Seq<char>>,
        unique: bool,
    },
    AlterTable { name: Seq<Seq<char>>, operations: Seq<AlterOpNodeView> },
    Other,
}

impl DeepView for StatementNode {
    type V = StatementNodeView;

    open spec fn deep_view(&self) -> StatementNodeView {
        match self {
            StatementNode::CreateTable { name, columns, constraints } => {
                StatementNodeView::CreateTable {
                    name: name.deep_view(),
                    columns: columns.deep_view(),
                    constraints: constraints.deep_view(),
                }
            },
            StatementNode::CreateIndex { name, table, columns, unique } => {
                StatementNodeView::CreateIndex {
                    name: name.deep_view(),
                    table: table.deep_view(),
                    columns: columns.deep_view(),
                    unique: *unique,
                }
            },
            StatementNode::AlterTable { name, operations } => StatementNodeView::AlterTable {
                name: name.deep_view(),
                operations: operations.deep_view(),
            },
            StatementNode::Other => StatementNodeView::Other,
        }
    }
}

} // verus!
