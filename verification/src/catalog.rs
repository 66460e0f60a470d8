//! The catalog data types: identifiers, columns, keys, indexes, tables,
//! schemas, and the flattened catalog.

use crate::model::{
    contains_name, empty_schema, ColumnView, CompositeTypeView, EnumView, ForeignKeyView,
    IdentifierView, IndexView, PrimaryKeyView, SchemaView, TableView,
};
use crate::text::str_eq;
use vstd::prelude::*;
use vstd::string::*;

verus! {

/// A qualified relation or type name; the catalog part is always empty
/// in practice.
#[derive(Debug, Clone, PartialEq)]
pub struct Identifier {
    pub catalog: String,
    pub schema: String,
    pub name: String,
}

impl DeepView for Identifier {
    type V = IdentifierView;

    open spec fn deep_view(&self) -> IdentifierView {
        IdentifierView {
            catalog: self.catalog.deep_view(),
            schema: self.schema.deep_view(),
            name: self.name.deep_view(),
        }
    }
}

/// One column of a table. Statement extraction fills only `name`,
/// `original_name`, `type_ref` and `not_null`; the remaining fields are
/// placeholders for the downstream consumer and stay at their defaults.
#[derive(Debug, Clone, PartialEq)]
pub struct Column {
    pub name: String,
    pub not_null: bool,
    pub is_array: bool,
    pub comment: String,
    pub length: i32,
    pub is_named_param: bool,
    pub is_func_call: bool,
    pub scope: String,
    pub table: Option<Identifier>,
    pub table_alias: String,
    pub type_ref: Option<Identifier>,
    pub is_sqlc_slice: bool,
    pub embed_table: Option<Identifier>,
    pub original_name: String,
    pub unsigned: bool,
    pub array_dims: i32,
}

impl DeepView for Column {
    type V = ColumnView;

    open spec fn deep_view(&self) -> ColumnView {
        ColumnView {
            name: self.name.deep_view(),
            not_null: self.not_null,
            is_array: self.is_array,
            comment: self.comment.deep_view(),
            length: self.length,
            is_named_param: self.is_named_param,
            is_func_call: self.is_func_call,
            scope: self.scope.deep_view(),
            table: self.table.deep_view(),
            table_alias: self.table_alias.deep_view(),
            type_ref: self.type_ref.deep_view(),
            is_sqlc_slice: self.is_sqlc_slice,
            embed_table: self.embed_table.deep_view(),
            original_name: self.original_name.deep_view(),
            unsigned: self.unsigned,
            array_dims: self.array_dims,
        }
    }
}

/// The primary key of a table: a non-empty ordered list of column names,
/// and the constraint's name where one was declared.
#[derive(Debug, Clone, PartialEq)]
pub struct PrimaryKey {
    pub name: String,
    pub columns: Vec<String>,
}

impl DeepView for PrimaryKey {
    type V = PrimaryKeyView;

    open spec fn deep_view(&self) -> PrimaryKeyView {
        PrimaryKeyView { name: self.name.deep_view(), columns: self.columns.deep_view() }
    }
}

/// A foreign key: source columns positionally aligned with the referenced
/// columns of the referenced table.
#[derive(Debug, Clone, PartialEq)]
pub struct ForeignKey {
    pub name: String,
    pub columns: Vec<String>,
    pub referenced_table: String,
    pub referenced_columns: Vec<String>,
    pub on_delete: String,
    pub on_update: String,
}

impl DeepView for ForeignKey {
    type V = ForeignKeyView;

    open spec fn deep_view(&self) -> ForeignKeyView {
        ForeignKeyView {
            name: self.name.deep_view(),
            columns: self.columns.deep_view(),
            referenced_table: self.referenced_table.deep_view(),
            referenced_columns: self.referenced_columns.deep_view(),
            on_delete: self.on_delete.deep_view(),
            on_update: self.on_update.deep_view(),
        }
    }
}

/// A named index over an ordered list of columns.
#[derive(Debug, Clone, PartialEq)]
pub struct Index {
    pub name: String,
    pub columns: Vec<String>,
    pub unique: bool,
}

impl DeepView for Index {
    type V = IndexView;

    open spec fn deep_view(&self) -> IndexView {
        IndexView {
            name: self.name.deep_view(),
            columns: self.columns.deep_view(),
            unique: self.unique,
        }
    }
}

/// A table: its qualified name, columns, and extracted constraints.
#[derive(Debug, Clone, PartialEq)]
pub struct Table {
    pub rel: Option<Identifier>,
    pub comment: String,
    pub columns: Vec<Column>,
    pub primary_key: Option<PrimaryKey>,
    pub foreign_keys: Vec<ForeignKey>,
    pub indexes: Vec<Index>,
}

impl DeepView for Table {
    type V = TableView;

    open spec fn deep_view(&self) -> TableView {
        TableView {
            rel: self.rel.deep_view(),
            comment: self.comment.deep_view(),
            columns: self.columns.deep_view(),
            primary_key: self.primary_key.deep_view(),
            foreign_keys: self.foreign_keys.deep_view(),
            indexes: self.indexes.deep_view(),
        }
    }
}

/// An enumerated type definition.
#[derive(Debug, Clone, PartialEq)]
pub struct Enum {
    pub name: String,
    pub vals: Vec<String>,
    pub comment: String,
}

impl DeepView for Enum {
    type V = EnumView;

    open spec fn deep_view(&self) -> EnumView {
        EnumView {
            name: self.name.deep_view(),
            vals: self.vals.deep_view(),
            comment: self.comment.deep_view(),
        }
    }
}

/// A composite type definition.
#[derive(Debug, Clone, PartialEq)]
pub struct CompositeType {
    pub name: String,
    pub comment: String,
}

impl DeepView for CompositeType {
    type V = CompositeTypeView;

    open spec fn deep_view(&self) -> CompositeTypeView {
        CompositeTypeView { name: self.name.deep_view(), comment: self.comment.deep_view() }
    }
}

/// A named namespace of tables and type definitions; the default,
/// unqualified namespace has the empty name.
#[derive(Debug, Clone, PartialEq)]
pub struct Schema {
    pub name: String,
    pub comment: String,
    pub tables: Vec<Table>,
    pub enums: Vec<Enum>,
    pub composite_types: Vec<CompositeType>,
}

impl DeepView for Schema {
    type V = SchemaView;

    open spec fn deep_view(&self) -> SchemaView {
        SchemaView {
            name: self.name.deep_view(),
            comment: self.comment.deep_view(),
            tables: self.tables.deep_view(),
            enums: self.enums.deep_view(),
            composite_types: self.composite_types.deep_view(),
        }
    }
}

impl Default for Schema {
    /// An empty schema under the default, unqualified name.
    fn default() -> (s: Schema)
        ensures
            s.deep_view() == empty_schema(Seq::<char>::empty()),
    {
        let s = Schema {
            name: String::new(),
            comment: String::new(),
            tables: Vec::new(),
            enums: Vec::new(),
            composite_types: Vec::new(),
        };
        proof {
            assert(s.deep_view() =~~= empty_schema(Seq::<char>::empty()));
        }
        s
    }
}

/// The flattened result of accumulation: every schema seen, in the order
/// first created; the catalog's own name and comment are never filled by
/// extraction.
#[derive(Debug, Clone, PartialEq)]
pub struct Catalog {
    pub name: String,
    pub default_schema: String,
    pub comment: String,
    pub schemas: Vec<Schema>,
}

/// The qualified name of a table: schema and name joined with a dot when
/// a schema is set, the bare name otherwise, and empty without a relation.
pub open spec fn qualified_name_of(t: TableView) -> Seq<char> {
    match t.rel {
        Option::None => Seq::empty(),
        Option::Some(r) => if r.schema.len() == 0 {
            r.name
        } else {
            r.schema + "."@ + r.name
        },
    }
}

/// A table holding nothing but its relation identifier: empty catalog
/// part, the given schema (empty when absent) and the given name.
pub open spec fn bare_table(schema: Option<Seq<char>>, name: Seq<char>) -> TableView {
    TableView {
        rel: Some(
            IdentifierView {
                catalog: Seq::empty(),
                schema: match schema {
                    Option::None => Seq::empty(),
                    Option::Some(s) => s,
                },
                name: name,
            },
        ),
        comment: Seq::empty(),
        columns: Seq::empty(),
        primary_key: Option::None,
        foreign_keys: Seq::empty(),
        indexes: Seq::empty(),
    }
}

impl Table {
    /// A bare table with the given name and optional schema, for building
    /// expected values by hand.
    pub fn new_for_test(name: &str, schema: Option<&str>) -> (t: Table)
        ensures
            t.deep_view() == bare_table(schema.deep_view(), name@),
    {
        let schema_name: String = match schema {
            Option::None => String::new(),
            Option::Some(s) => s.to_owned(),
        };
        let t = Table {
            rel: Some(
                Identifier { catalog: String::new(), schema: schema_name, name: name.to_owned() },
            ),
            comment: String::new(),
            columns: Vec::new(),
            primary_key: None,
            foreign_keys: Vec::new(),
            indexes: Vec::new(),
        };
        proof {
            assert(t.deep_view() =~~= bare_table(schema.deep_view(), name@));
        }
        t
    }

    /// The fully qualified table name, `schema.table` when a schema is
    /// set, the bare table name otherwise.
    pub fn qualified_name(&self) -> (r: String)
        ensures
            r@ == qualified_name_of(self.deep_view()),
    {
        match &self.rel {
            Option::Some(rel) => {
                if !rel.schema.as_str().is_empty() {
                    rel.schema.clone().concat(".").concat(rel.name.as_str())
                } else {
                    rel.name.clone()
                }
            },
            Option::None => String::new(),
        }
    }

    /// True when the table carries a primary key.
    pub fn has_primary_key(&self) -> (r: bool)
        ensures
            r == (self.primary_key is Some),
    {
        self.primary_key.is_some()
    }
}

/// True when `name` occurs among the strings of `columns`.
fn names_contain(columns: &Vec<String>, name: &str) -> (r: bool)
    ensures
        r == contains_name(columns.deep_view(), name@),
{
    let mut i: usize = 0;
    while i < columns.len()
        invariant
            i <= columns.len(),
            forall|j: int| 0 <= j < i ==> columns.deep_view()[j] != name@,
        decreases columns.len() - i,
    {
        if str_eq(columns[i].as_str(), name) {
            proof {
                assert(columns.deep_view()[i as int] == name@);
            }
            return true;
        }
        i = i + 1;
    }
    false
}

impl Index {
    /// True when the index covers the named column.
    pub fn contains(&self, column_name: &str) -> (r: bool)
        ensures
            r == contains_name(self.columns.deep_view(), column_name@),
    {
        names_contain(&self.columns, column_name)
    }

    /// True when this is a unique index over exactly the named column.
    pub fn is_unique_on(&self, column_name: &str) -> (r: bool)
        ensures
            r == (self.unique && self.columns.deep_view().len() == 1
                && self.columns.deep_view()[0] == column_name@),
    {
        self.unique && self.columns.len() == 1 && str_eq(self.columns[0].as_str(), column_name)
    }
}

impl PrimaryKey {
    /// True when the named column is part of the primary key.
    pub fn contains(&self, column_name: &str) -> (r: bool)
        ensures
            r == contains_name(self.columns.deep_view(), column_name@),
    {
        names_contain(&self.columns, column_name)
    }
}

impl ForeignKey {
    /// True when the foreign key points at the named table.
    pub fn references(&self, table_name: &str) -> (r: bool)
        ensures
            r == (self.referenced_table@ == table_name@),
    {
        str_eq(self.referenced_table.as_str(), table_name)
    }

    /// True when the named column is among the referencing columns.
    pub fn contains(&self, column_name: &str) -> (r: bool)
        ensures
            r == contains_name(self.columns.deep_view(), column_name@),
    {
        names_contain(&self.columns, column_name)
    }
}

} // verus!
