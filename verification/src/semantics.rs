//! The meaning of statement application and catalog merging, as functions
//! over the models.
//!
//! Every executable operation of the builder is proved to agree with the
//! functions in this module.

use crate::dialect::valid_dialect_names;
use crate::error::SchemaErrorView;
use crate::model::{
    empty_schema, has_composite, has_enum, schema_index, table_index, CompositeTypeView, EnumView,
    ForeignKeyView, IdentifierView, IndexView, PrimaryKeyView, SchemaView, TableView,
};
use crate::stmt::{
    AlterOpNodeView, ColumnDefNodeView, ColumnOptionNodeView, ConstraintNodeView,
    StatementNodeView,
};
use crate::model::ColumnView;
use vstd::prelude::*;

verus! {

/// The schema part of a relation name: the first segment when the name
/// has more than one, empty otherwise.
pub open spec fn schema_part(parts: Seq<Seq<char>>) -> Seq<char> {
    if parts.len() > 1 {
        parts[0]
    } else {
        Seq::empty()
    }
}

/// The table part of a relation name: its last segment, empty when the
/// name has none.
pub open spec fn table_part(parts: Seq<Seq<char>>) -> Seq<char> {
    if parts.len() == 0 {
        Seq::empty()
    } else {
        parts.last()
    }
}

/// The schema a target reference points at: the first segment when the
/// reference is qualified, empty otherwise.
pub open spec fn target_schema(parts: Seq<Seq<char>>) -> Seq<char> {
    if parts.len() > 1 {
        parts[0]
    } else {
        Seq::empty()
    }
}

/// The table a target reference points at: the second segment when the
/// reference is qualified, the first otherwise. The reference must have
/// at least one segment.
pub open spec fn target_table(parts: Seq<Seq<char>>) -> Seq<char> {
    if parts.len() > 1 {
        parts[1]
    } else {
        parts[0]
    }
}

/// True when the options carry an explicit NOT NULL.
pub open spec fn has_not_null(opts: Seq<ColumnOptionNodeView>) -> bool {
    exists|i: int| 0 <= i < opts.len() && #[trigger] opts[i] is NotNull
}

/// True when the options carry an inline primary-key option.
pub open spec fn has_inline_pk(opts: Seq<ColumnOptionNodeView>) -> bool {
    exists|i: int| 0 <= i < opts.len() && #[trigger] opts[i] is PrimaryKey
}

/// The single-column primary key an inline option declares, if it is a
/// primary-key option.
pub open spec fn pk_of_option(col: Seq<char>, opt: ColumnOptionNodeView) -> Option<
    PrimaryKeyView,
> {
    match opt {
        ColumnOptionNodeView::PrimaryKey { constraint_name } => Some(
            PrimaryKeyView { name: constraint_name, columns: seq![col] },
        ),
        _ => None,
    }
}

/// The single-column foreign key an inline option declares, if it is a
/// references-clause.
pub open spec fn fk_of_option(col: Seq<char>, opt: ColumnOptionNodeView) -> Option<
    ForeignKeyView,
> {
    match opt {
        ColumnOptionNodeView::ForeignKey {
            constraint_name,
            referenced_table,
            referenced_columns,
            on_delete,
            on_update,
        } => Some(
            ForeignKeyView {
                name: constraint_name,
                columns: seq![col],
                referenced_table: referenced_table,
                referenced_columns: referenced_columns,
                on_delete: on_delete,
                on_update: on_update,
            },
        ),
        _ => None,
    }
}

/// The last primary key declared among one column's options, if any:
/// a later inline primary-key option overwrites an earlier one.
pub open spec fn last_pk_in_options(col: Seq<char>, opts: Seq<ColumnOptionNodeView>) -> Option<
    PrimaryKeyView,
>
    decreases opts.len(),
{
    if opts.len() == 0 {
        None
    } else {
        match pk_of_option(col, opts.last()) {
            Some(pk) => Some(pk),
            None => last_pk_in_options(col, opts.drop_last()),
        }
    }
}

/// The last inline primary key declared across the columns, if any.
pub open spec fn inline_pk(cols: Seq<ColumnDefNodeView>) -> Option<PrimaryKeyView>
    decreases cols.len(),
{
    if cols.len() == 0 {
        None
    } else {
        match last_pk_in_options(cols.last().name, cols.last().options) {
            Some(pk) => Some(pk),
            None => inline_pk(cols.drop_last()),
        }
    }
}

/// Every foreign key declared among one column's options, in order.
pub open spec fn fks_in_options(col: Seq<char>, opts: Seq<ColumnOptionNodeView>) -> Seq<
    ForeignKeyView,
>
    decreases opts.len(),
{
    if opts.len() == 0 {
        Seq::empty()
    } else {
        fks_in_options(col, opts.drop_last()) + match fk_of_option(col, opts.last()) {
            Some(fk) => seq![fk],
            None => Seq::empty(),
        }
    }
}

/// Every inline foreign key declared across the columns, in column and
/// option order.
pub open spec fn inline_fks(cols: Seq<ColumnDefNodeView>) -> Seq<ForeignKeyView>
    decreases cols.len(),
{
    if cols.len() == 0 {
        Seq::empty()
    } else {
        inline_fks(cols.drop_last()) + fks_in_options(cols.last().name, cols.last().options)
    }
}

/// The column record a column definition extracts to: the name and the
/// raw type text are carried over, the column is not-null exactly when
/// it has a NOT NULL option or an inline primary-key option, and every
/// other field stays at its default.
pub open spec fn column_of_def(cd: ColumnDefNodeView) -> ColumnView {
    ColumnView {
        name: cd.name,
        not_null: has_not_null(cd.options) || has_inline_pk(cd.options),
        is_array: false,
        comment: Seq::empty(),
        length: 0,
        is_named_param: false,
        is_func_call: false,
        scope: Seq::empty(),
        table: None,
        table_alias: Seq::empty(),
        type_ref: Some(
            IdentifierView { catalog: Seq::empty(), schema: Seq::empty(), name: cd.type_text },
        ),
        is_sqlc_slice: false,
        embed_table: None,
        original_name: cd.name,
        unsigned: false,
        array_dims: 0,
    }
}

/// What one table-level constraint does to a table: a PRIMARY KEY clause
/// replaces the primary key, a FOREIGN KEY clause appends a foreign key,
/// a named UNIQUE clause appends a unique index, and everything else,
/// unnamed UNIQUE clauses included, is dropped.
pub open spec fn apply_constraint(t: TableView, c: ConstraintNodeView) -> TableView {
    match c {
        ConstraintNodeView::PrimaryKey { name, columns } => TableView {
            primary_key: Some(PrimaryKeyView { name: name, columns: columns }),
            ..t
        },
        ConstraintNodeView::ForeignKey {
            name,
            columns,
            referenced_table,
            referenced_columns,
            on_delete,
            on_update,
        } => TableView {
            foreign_keys: t.foreign_keys.push(
                ForeignKeyView {
                    name: name,
                    columns: columns,
                    referenced_table: referenced_table,
                    referenced_columns: referenced_columns,
                    on_delete: on_delete,
                    on_update: on_update,
                },
            ),
            ..t
        },
        ConstraintNodeView::Unique { name, columns } => match name {
            Some(n) => TableView {
                indexes: t.indexes.push(IndexView { name: n, columns: columns, unique: true }),
                ..t
            },
            None => t,
        },
        ConstraintNodeView::Other => t,
    }
}

/// The table-level constraints applied in order.
pub open spec fn apply_constraints(t: TableView, cs: Seq<ConstraintNodeView>) -> TableView
    decreases cs.len(),
{
    if cs.len() == 0 {
        t
    } else {
        apply_constraint(apply_constraints(t, cs.drop_last()), cs.last())
    }
}

/// The table a CREATE TABLE statement extracts to: the qualified name is
/// split into schema and table, columns are extracted in order, inline
/// options give the initial primary key and foreign keys, and the
/// table-level constraints are then applied in order.
pub open spec fn table_of_create(
    parts: Seq<Seq<char>>,
    cols: Seq<ColumnDefNodeView>,
    cons: Seq<ConstraintNodeView>,
) -> TableView {
    apply_constraints(
        TableView {
            rel: Some(
                IdentifierView {
                    catalog: Seq::empty(),
                    schema: schema_part(parts),
                    name: table_part(parts),
                },
            ),
            comment: Seq::empty(),
            columns: cols.map_values(|cd: ColumnDefNodeView| column_of_def(cd)),
            primary_key: inline_pk(cols),
            foreign_keys: inline_fks(cols),
            indexes: Seq::empty(),
        },
        cons,
    )
}

/// What a CREATE TABLE statement does to the accumulated schemas: the
/// extracted table is put into the schema it names, creating that schema
/// when it is new, and replacing a table of the same name entirely.
pub open spec fn apply_create_table(
    ss: Seq<SchemaView>,
    parts: Seq<Seq<char>>,
    cols: Seq<ColumnDefNodeView>,
    cons: Seq<ConstraintNodeView>,
) -> Seq<SchemaView> {
    let t = table_of_create(parts, cols, cons);
    let sname = schema_part(parts);
    let si = schema_index(ss, sname);
    if si == -1 {
        ss.push(
            SchemaView {
                name: sname,
                comment: Seq::empty(),
                tables: seq![t],
                enums: Seq::empty(),
                composite_types: Seq::empty(),
            },
        )
    } else {
        let sch = ss[si];
        let ti = table_index(sch.tables, table_part(parts));
        let ts2 = if ti == -1 {
            sch.tables.push(t)
        } else {
            sch.tables.update(ti, t)
        };
        ss.update(si, SchemaView { tables: ts2, ..sch })
    }
}

/// What a CREATE INDEX statement does: nothing when the target reference
/// is empty or names an unknown schema or table; an error when the target
/// exists but the index has no name; otherwise the index is appended to
/// the target table.
pub open spec fn apply_create_index(
    ss: Seq<SchemaView>,
    name: Option<Seq<char>>,
    table: Seq<Seq<char>>,
    columns: Seq<Seq<char>>,
    unique: bool,
) -> Result<Seq<SchemaView>, SchemaErrorView> {
    if table.len() == 0 {
        Ok(ss)
    } else {
        let si = schema_index(ss, target_schema(table));
        if si == -1 {
            Ok(ss)
        } else {
            let ti = table_index(ss[si].tables, target_table(table));
            if ti == -1 {
                Ok(ss)
            } else {
                match name {
                    None => Err(SchemaErrorView::MissingIndexName),
                    Some(n) => {
                        let t = ss[si].tables[ti];
                        let t2 = TableView {
                            indexes: t.indexes.push(
                                IndexView { name: n, columns: columns, unique: unique },
                            ),
                            ..t
                        };
                        Ok(
                            ss.update(
                                si,
                                SchemaView { tables: ss[si].tables.update(ti, t2), ..ss[si] },
                            ),
                        )
                    },
                }
            }
        }
    }
}

/// The ADD CONSTRAINT operations of an ALTER TABLE statement applied in
/// order; other operations are ignored.
pub open spec fn apply_alter_ops(t: TableView, ops: Seq<AlterOpNodeView>) -> TableView
    decreases ops.len(),
{
    if ops.len() == 0 {
        t
    } else {
        let t1 = apply_alter_ops(t, ops.drop_last());
        match ops.last() {
            AlterOpNodeView::AddConstraint(c) => apply_constraint(t1, c),
            AlterOpNodeView::Other => t1,
        }
    }
}

/// What an ALTER TABLE statement does: nothing when the target reference
/// is empty or names an unknown schema or table; otherwise its ADD
/// CONSTRAINT operations are applied to the target table in order.
pub open spec fn apply_alter(
    ss: Seq<SchemaView>,
    parts: Seq<Seq<char>>,
    ops: Seq<AlterOpNodeView>,
) -> Seq<SchemaView> {
    if parts.len() == 0 {
        ss
    } else {
        let si = schema_index(ss, target_schema(parts));
        if si == -1 {
            ss
        } else {
            let ti = table_index(ss[si].tables, target_table(parts));
            if ti == -1 {
                ss
            } else {
                let t2 = apply_alter_ops(ss[si].tables[ti], ops);
                ss.update(si, SchemaView { tables: ss[si].tables.update(ti, t2), ..ss[si] })
            }
        }
    }
}

/// What one statement does to the accumulated schemas. Statements other
/// than CREATE TABLE, CREATE INDEX and ALTER TABLE are ignored.
pub open spec fn apply_statement(ss: Seq<SchemaView>, st: StatementNodeView) -> Result<
    Seq<SchemaView>,
    SchemaErrorView,
> {
    match st {
        StatementNodeView::CreateTable { name, columns, constraints } => Ok(
            apply_create_table(ss, name, columns, constraints),
        ),
        StatementNodeView::CreateIndex { name, table, columns, unique } => apply_create_index(
            ss,
            name,
            table,
            columns,
            unique,
        ),
        StatementNodeView::AlterTable { name, operations } => Ok(
            apply_alter(ss, name, operations),
        ),
        StatementNodeView::Other => Ok(ss),
    }
}

/// A sequence of statements applied in order. The first failing statement
/// stops application; what earlier statements built stays.
pub open spec fn apply_statements(ss: Seq<SchemaView>, sts: Seq<StatementNodeView>) -> (
    Seq<SchemaView>,
    Option<SchemaErrorView>,
)
    decreases sts.len(),
{
    if sts.len() == 0 {
        (ss, None)
    } else {
        let (s1, e) = apply_statements(ss, sts.drop_last());
        if e is Some {
            (s1, e)
        } else {
            match apply_statement(s1, sts.last()) {
                Ok(s2) => (s2, None),
                Err(er) => (s1, Some(er)),
            }
        }
    }
}

/// Once application has failed on a prefix, the remaining statements
/// change nothing: the whole sequence ends in the same state and error.
pub proof fn lemma_apply_statements_stops(
    ss: Seq<SchemaView>,
    sv: Seq<StatementNodeView>,
    k: int,
)
    requires
        0 <= k <= sv.len(),
        apply_statements(ss, sv.take(k)).1 is Some,
    ensures
        apply_statements(ss, sv) == apply_statements(ss, sv.take(k)),
    decreases sv.len() - k,
{
    if k == sv.len() {
        assert(sv.take(k) =~= sv);
    } else {
        assert(sv.take(k + 1).drop_last() =~= sv.take(k));
        assert(sv.take(k + 1).last() == sv[k]);
        assert(apply_statements(ss, sv.take(k + 1)) == apply_statements(ss, sv.take(k)));
        lemma_apply_statements_stops(ss, sv, k + 1);
    }
}

/// Incoming tables folded into existing ones: a table is appended when it
/// has a relation name that is not yet present; on a name collision the
/// existing table wins in full.
pub open spec fn merge_tables(ts: Seq<TableView>, inc: Seq<TableView>) -> Seq<TableView>
    decreases inc.len(),
{
    if inc.len() == 0 {
        ts
    } else {
        let prev = merge_tables(ts, inc.drop_last());
        let t = inc.last();
        if t.rel is Some && table_index(prev, t.rel->Some_0.name) == -1 {
            prev.push(t)
        } else {
            prev
        }
    }
}

/// Incoming enum definitions folded in under the same first-writer-wins
/// rule, keyed by name.
pub open spec fn merge_enums(es: Seq<EnumView>, inc: Seq<EnumView>) -> Seq<EnumView>
    decreases inc.len(),
{
    if inc.len() == 0 {
        es
    } else {
        let prev = merge_enums(es, inc.drop_last());
        if has_enum(prev, inc.last().name) {
            prev
        } else {
            prev.push(inc.last())
        }
    }
}

/// Incoming composite types folded in under the same first-writer-wins
/// rule, keyed by name.
pub open spec fn merge_composites(cs: Seq<CompositeTypeView>, inc: Seq<CompositeTypeView>) -> Seq<
    CompositeTypeView,
>
    decreases inc.len(),
{
    if inc.len() == 0 {
        cs
    } else {
        let prev = merge_composites(cs, inc.drop_last());
        if has_composite(prev, inc.last().name) {
            prev
        } else {
            prev.push(inc.last())
        }
    }
}

/// One incoming schema folded into a target schema of the same name.
pub open spec fn merge_schema(target: SchemaView, inc: SchemaView) -> SchemaView {
    SchemaView {
        name: target.name,
        comment: target.comment,
        tables: merge_tables(target.tables, inc.tables),
        enums: merge_enums(target.enums, inc.enums),
        composite_types: merge_composites(target.composite_types, inc.composite_types),
    }
}

/// One incoming schema folded into the accumulated schemas: merged into
/// the schema of its name, which is created empty when it is new.
pub open spec fn merge_one(ss: Seq<SchemaView>, s: SchemaView) -> Seq<SchemaView> {
    let si = schema_index(ss, s.name);
    if si == -1 {
        ss.push(merge_schema(empty_schema(s.name), s))
    } else {
        ss.update(si, merge_schema(ss[si], s))
    }
}

/// An incoming catalog's schemas folded into the accumulated ones, in
/// order: each incoming schema is merged into the schema of its name,
/// which is created empty when it is new.
pub open spec fn merge_schemas(ss: Seq<SchemaView>, inc: Seq<SchemaView>) -> Seq<SchemaView>
    decreases inc.len(),
{
    if inc.len() == 0 {
        ss
    } else {
        merge_one(merge_schemas(ss, inc.drop_last()), inc.last())
    }
}

/// The error an unsupported dialect name produces: it names the input and
/// lists the accepted names.
pub open spec fn unknown_dialect_error(name: Seq<char>) -> SchemaErrorView {
    SchemaErrorView::UnknownDialect { dialect: name, options: valid_dialect_names() }
}

/// The error a rejected SQL text produces: the grammar's message,
/// carried verbatim.
pub open spec fn syntax_error(message: Seq<char>) -> SchemaErrorView {
    SchemaErrorView::SyntaxError { message: message }
}

} // verus!
