//! Properties of the builder that hold for every input, stated over the
//! models and proved once and for all.

use crate::builder::{is_build_of, CatalogBuilder};
use crate::catalog::Catalog;
use crate::model::{
    composites_unique, empty_schema, enums_unique, has_composite, has_enum, lemma_schema_index,
    lemma_table_index, schema_index, schema_wf, schemas_wf, table_index, tables_unique,
    CompositeTypeView, EnumView, SchemaView, TableView,
};
use crate::semantics::{
    apply_alter, apply_alter_ops, apply_constraint, apply_constraints, apply_create_index,
    apply_create_table, apply_statement, apply_statements, merge_composites, merge_enums,
    merge_one, merge_schema, merge_schemas, merge_tables, schema_part, table_of_create,
    table_part,
};
use crate::stmt::{
    AlterOpNodeView, ColumnDefNodeView, ConstraintNodeView, StatementNodeView,
};
use vstd::prelude::*;

verus! {

/// Order-insensitive equivalence of catalogs: equal metadata, and the
/// same schemas regardless of the order they are listed in.
pub open spec fn catalogs_equivalent(c1: Catalog, c2: Catalog) -> bool {
    &&& c1.name@ == c2.name@
    &&& c1.default_schema@ == c2.default_schema@
    &&& c1.comment@ == c2.comment@
    &&& c1.schemas.deep_view().to_multiset() == c2.schemas.deep_view().to_multiset()
}

/// Building is idempotent over accumulated state: two accumulators that
/// hold the same schemas — as they do after applying the same statements
/// in the same order, since the builder's contracts make the state a
/// function of the statements applied — flatten to equivalent catalogs
/// under order-insensitive comparison.
pub proof fn lemma_build_equivalent(
    b1: CatalogBuilder,
    b2: CatalogBuilder,
    c1: Catalog,
    c2: Catalog,
)
    requires
        b1.schemas.deep_view() == b2.schemas.deep_view(),
        is_build_of(b1, c1),
        is_build_of(b2, c2),
    ensures
        catalogs_equivalent(c1, c2),
{
    assert(c1.schemas.deep_view() == c2.schemas.deep_view());
}

/// A table-level constraint never changes which relation a table names.
pub proof fn lemma_apply_constraint_rel(t: TableView, c: ConstraintNodeView)
    ensures
        apply_constraint(t, c).rel == t.rel,
{
}

/// Applying table-level constraints in order never changes the relation.
pub proof fn lemma_apply_constraints_rel(t: TableView, cs: Seq<ConstraintNodeView>)
    ensures
        apply_constraints(t, cs).rel == t.rel,
    decreases cs.len(),
{
    if cs.len() > 0 {
        lemma_apply_constraints_rel(t, cs.drop_last());
        lemma_apply_constraint_rel(apply_constraints(t, cs.drop_last()), cs.last());
    }
}

/// ALTER TABLE operations never change which relation a table names.
pub proof fn lemma_apply_alter_ops_rel(t: TableView, ops: Seq<AlterOpNodeView>)
    ensures
        apply_alter_ops(t, ops).rel == t.rel,
    decreases ops.len(),
{
    if ops.len() > 0 {
        lemma_apply_alter_ops_rel(t, ops.drop_last());
        match ops.last() {
            AlterOpNodeView::AddConstraint(c) => {
                lemma_apply_constraint_rel(apply_alter_ops(t, ops.drop_last()), c);
            },
            AlterOpNodeView::Other => {},
        }
    }
}

/// A table extracted from CREATE TABLE always names its relation: the
/// schema and table parts of the statement's qualified name.
pub proof fn lemma_table_of_create_rel(
    parts: Seq<Seq<char>>,
    cols: Seq<ColumnDefNodeView>,
    cons: Seq<ConstraintNodeView>,
)
    ensures
        table_of_create(parts, cols, cons).rel is Some,
        table_of_create(parts, cols, cons).rel->Some_0.name == table_part(parts),
        table_of_create(parts, cols, cons).rel->Some_0.schema == schema_part(parts),
    decreases cons.len(),
{
    if cons.len() > 0 {
        lemma_table_of_create_rel(parts, cols, cons.drop_last());
        lemma_apply_constraint_rel(table_of_create(parts, cols, cons.drop_last()), cons.last());
    }
}

/// Replacing a table with one that names the same relation keeps the
/// tables unique by name.
proof fn lemma_tables_unique_update(ts: Seq<TableView>, i: int, t: TableView)
    requires
        tables_unique(ts),
        0 <= i < ts.len(),
        t.rel is Some ==> ts[i].rel is Some && t.rel->Some_0.name == ts[i].rel->Some_0.name,
    ensures
        tables_unique(ts.update(i, t)),
{
    let post = ts.update(i, t);
    assert forall|a: int, b: int|
        0 <= a < b < post.len() && (#[trigger] post[a]).rel is Some && (
        #[trigger] post[b]).rel is Some implies post[a].rel->Some_0.name
        != post[b].rel->Some_0.name by {
        assert(ts[a].rel is Some ==> ts[a] == post[a] || a == i);
        if a != i && b != i {
            assert(post[a] == ts[a] && post[b] == ts[b]);
        } else if a == i {
            assert(post[b] == ts[b]);
        } else {
            assert(post[a] == ts[a]);
        }
    }
}

/// Appending a table whose name is not yet present keeps the tables
/// unique by name.
proof fn lemma_tables_unique_push(ts: Seq<TableView>, t: TableView)
    requires
        tables_unique(ts),
        t.rel is Some ==> table_index(ts, t.rel->Some_0.name) == -1,
    ensures
        tables_unique(ts.push(t)),
{
    if t.rel is Some {
        lemma_table_index(ts, t.rel->Some_0.name);
    }
    let post = ts.push(t);
    assert forall|a: int, b: int|
        0 <= a < b < post.len() && (#[trigger] post[a]).rel is Some && (
        #[trigger] post[b]).rel is Some implies post[a].rel->Some_0.name
        != post[b].rel->Some_0.name by {
        if b < ts.len() {
            assert(post[a] == ts[a] && post[b] == ts[b]);
        } else {
            assert(post[a] == ts[a] && post[b] == t);
        }
    }
}

/// Merging incoming tables keeps the tables unique by name.
pub proof fn lemma_merge_tables_unique(ts: Seq<TableView>, inc: Seq<TableView>)
    requires
        tables_unique(ts),
    ensures
        tables_unique(merge_tables(ts, inc)),
    decreases inc.len(),
{
    if inc.len() > 0 {
        lemma_merge_tables_unique(ts, inc.drop_last());
        let prev = merge_tables(ts, inc.drop_last());
        let t = inc.last();
        if t.rel is Some && table_index(prev, t.rel->Some_0.name) == -1 {
            lemma_tables_unique_push(prev, t);
        }
    }
}

/// Merging incoming enum definitions keeps them unique by name.
pub proof fn lemma_merge_enums_unique(es: Seq<EnumView>, inc: Seq<EnumView>)
    requires
        enums_unique(es),
    ensures
        enums_unique(merge_enums(es, inc)),
    decreases inc.len(),
{
    if inc.len() > 0 {
        lemma_merge_enums_unique(es, inc.drop_last());
        let prev = merge_enums(es, inc.drop_last());
        let e = inc.last();
        if !has_enum(prev, e.name) {
            let post = prev.push(e);
            assert forall|a: int, b: int| 0 <= a < b < post.len() implies (
            #[trigger] post[a]).name != (#[trigger] post[b]).name by {
                if b < prev.len() {
                    assert(post[a] == prev[a] && post[b] == prev[b]);
                } else {
                    assert(post[a] == prev[a] && post[b] == e);
                }
            }
        }
    }
}

/// Merging incoming composite types keeps them unique by name.
pub proof fn lemma_merge_composites_unique(cs: Seq<CompositeTypeView>, inc: Seq<CompositeTypeView>)
    requires
        composites_unique(cs),
    ensures
        composites_unique(merge_composites(cs, inc)),
    decreases inc.len(),
{
    if inc.len() > 0 {
        lemma_merge_composites_unique(cs, inc.drop_last());
        let prev = merge_composites(cs, inc.drop_last());
        let c = inc.last();
        if !has_composite(prev, c.name) {
            let post = prev.push(c);
            assert forall|a: int, b: int| 0 <= a < b < post.len() implies (
            #[trigger] post[a]).name != (#[trigger] post[b]).name by {
                if b < prev.len() {
                    assert(post[a] == prev[a] && post[b] == prev[b]);
                } else {
                    assert(post[a] == prev[a] && post[b] == c);
                }
            }
        }
    }
}

/// Merging one schema into a well-formed schema leaves it well formed,
/// whatever the incoming schema holds.
pub proof fn lemma_merge_schema_wf(target: SchemaView, inc: SchemaView)
    requires
        schema_wf(target),
    ensures
        schema_wf(merge_schema(target, inc)),
{
    lemma_merge_tables_unique(target.tables, inc.tables);
    lemma_merge_enums_unique(target.enums, inc.enums);
    lemma_merge_composites_unique(target.composite_types, inc.composite_types);
}

/// Replacing a schema with one of the same name keeps the schemas well
/// formed, provided the replacement is.
proof fn lemma_schemas_wf_update(ss: Seq<SchemaView>, i: int, s2: SchemaView)
    requires
        schemas_wf(ss),
        0 <= i < ss.len(),
        s2.name == ss[i].name,
        schema_wf(s2),
    ensures
        schemas_wf(ss.update(i, s2)),
{
    let post = ss.update(i, s2);
    assert forall|a: int, b: int| 0 <= a < b < post.len() implies (#[trigger] post[a]).name != (
    #[trigger] post[b]).name by {
        if a != i {
            assert(post[a] == ss[a]);
        }
        if b != i {
            assert(post[b] == ss[b]);
        }
    }
    assert forall|a: int| 0 <= a < post.len() implies schema_wf(#[trigger] post[a]) by {
        if a != i {
            assert(post[a] == ss[a]);
        }
    }
}

/// Appending a schema under a fresh name keeps the schemas well formed,
/// provided the newcomer is.
proof fn lemma_schemas_wf_push(ss: Seq<SchemaView>, s2: SchemaView)
    requires
        schemas_wf(ss),
        schema_index(ss, s2.name) == -1,
        schema_wf(s2),
    ensures
        schemas_wf(ss.push(s2)),
{
    lemma_schema_index(ss, s2.name);
    let post = ss.push(s2);
    assert forall|a: int, b: int| 0 <= a < b < post.len() implies (#[trigger] post[a]).name != (
    #[trigger] post[b]).name by {
        if b < ss.len() {
            assert(post[a] == ss[a] && post[b] == ss[b]);
        } else {
            assert(post[a] == ss[a] && post[b] == s2);
        }
    }
    assert forall|a: int| 0 <= a < post.len() implies schema_wf(#[trigger] post[a]) by {
        if a < ss.len() {
            assert(post[a] == ss[a]);
        }
    }
}

/// Folding one incoming schema into well-formed accumulated schemas
/// leaves them well formed, whatever the incoming schema holds.
pub proof fn lemma_merge_one_wf(ss: Seq<SchemaView>, s: SchemaView)
    requires
        schemas_wf(ss),
    ensures
        schemas_wf(merge_one(ss, s)),
{
    let si = schema_index(ss, s.name);
    lemma_schema_index(ss, s.name);
    if si == -1 {
        assert(schema_wf(empty_schema(s.name)));
        lemma_merge_schema_wf(empty_schema(s.name), s);
        lemma_schemas_wf_push(ss, merge_schema(empty_schema(s.name), s));
    } else {
        lemma_merge_schema_wf(ss[si], s);
        lemma_schemas_wf_update(ss, si, merge_schema(ss[si], s));
    }
}

/// The schema-name and table-name uniqueness invariants survive a whole
/// catalog merge, whatever the incoming catalog holds.
pub proof fn lemma_merge_schemas_wf(ss: Seq<SchemaView>, inc: Seq<SchemaView>)
    requires
        schemas_wf(ss),
    ensures
        schemas_wf(merge_schemas(ss, inc)),
    decreases inc.len(),
{
    if inc.len() > 0 {
        lemma_merge_schemas_wf(ss, inc.drop_last());
        lemma_merge_one_wf(merge_schemas(ss, inc.drop_last()), inc.last());
    }
}

/// CREATE TABLE preserves well-formedness: the accumulated schemas stay
/// unique by name, with tables unique by name within each schema.
pub proof fn lemma_apply_create_table_wf(
    ss: Seq<SchemaView>,
    parts: Seq<Seq<char>>,
    cols: Seq<ColumnDefNodeView>,
    cons: Seq<ConstraintNodeView>,
)
    requires
        schemas_wf(ss),
    ensures
        schemas_wf(apply_create_table(ss, parts, cols, cons)),
{
    let t = table_of_create(parts, cols, cons);
    lemma_table_of_create_rel(parts, cols, cons);
    let sname = schema_part(parts);
    let si = schema_index(ss, sname);
    lemma_schema_index(ss, sname);
    if si == -1 {
        let s2 = SchemaView {
            name: sname,
            comment: Seq::empty(),
            tables: seq![t],
            enums: Seq::empty(),
            composite_types: Seq::empty(),
        };
        assert(schema_wf(s2));
        lemma_schemas_wf_push(ss, s2);
    } else {
        let sch = ss[si];
        let ti = table_index(sch.tables, table_part(parts));
        lemma_table_index(sch.tables, table_part(parts));
        let ts2 = if ti == -1 {
            sch.tables.push(t)
        } else {
            sch.tables.update(ti, t)
        };
        if ti == -1 {
            lemma_tables_unique_push(sch.tables, t);
        } else {
            lemma_tables_unique_update(sch.tables, ti, t);
        }
        lemma_schemas_wf_update(ss, si, SchemaView { tables: ts2, ..sch });
    }
}

/// CREATE INDEX preserves well-formedness whenever it succeeds.
pub proof fn lemma_apply_create_index_wf(
    ss: Seq<SchemaView>,
    name: Option<Seq<char>>,
    table: Seq<Seq<char>>,
    columns: Seq<Seq<char>>,
    unique: bool,
)
    requires
        schemas_wf(ss),
    ensures
        (match apply_create_index(ss, name, table, columns, unique) {
            Ok(ss2) => schemas_wf(ss2),
            Err(_) => true,
        }),
{
    if table.len() > 0 {
        let si = schema_index(ss, crate::semantics::target_schema(table));
        lemma_schema_index(ss, crate::semantics::target_schema(table));
        if si != -1 {
            let ti = table_index(ss[si].tables, crate::semantics::target_table(table));
            lemma_table_index(ss[si].tables, crate::semantics::target_table(table));
            if ti != -1 && name is Some {
                let t = ss[si].tables[ti];
                let t2 = TableView {
                    indexes: t.indexes.push(
                        crate::model::IndexView {
                            name: name->Some_0,
                            columns: columns,
                            unique: unique,
                        },
                    ),
                    ..t
                };
                lemma_tables_unique_update(ss[si].tables, ti, t2);
                lemma_schemas_wf_update(
                    ss,
                    si,
                    SchemaView { tables: ss[si].tables.update(ti, t2), ..ss[si] },
                );
            }
        }
    }
}

/// ALTER TABLE preserves well-formedness.
pub proof fn lemma_apply_alter_wf(
    ss: Seq<SchemaView>,
    parts: Seq<Seq<char>>,
    ops: Seq<AlterOpNodeView>,
)
    requires
        schemas_wf(ss),
    ensures
        schemas_wf(apply_alter(ss, parts, ops)),
{
    if parts.len() > 0 {
        let si = schema_index(ss, crate::semantics::target_schema(parts));
        lemma_schema_index(ss, crate::semantics::target_schema(parts));
        if si != -1 {
            let ti = table_index(ss[si].tables, crate::semantics::target_table(parts));
            lemma_table_index(ss[si].tables, crate::semantics::target_table(parts));
            if ti != -1 {
                let t2 = apply_alter_ops(ss[si].tables[ti], ops);
                lemma_apply_alter_ops_rel(ss[si].tables[ti], ops);
                lemma_tables_unique_update(ss[si].tables, ti, t2);
                lemma_schemas_wf_update(
                    ss,
                    si,
                    SchemaView { tables: ss[si].tables.update(ti, t2), ..ss[si] },
                );
            }
        }
    }
}

/// Every statement preserves the invariants: schemas unique by name,
/// tables unique by name within each schema, enum and composite type
/// definitions unique by name.
pub proof fn lemma_apply_statement_wf(ss: Seq<SchemaView>, st: StatementNodeView)
    requires
        schemas_wf(ss),
    ensures
        (match apply_statement(ss, st) {
            Ok(ss2) => schemas_wf(ss2),
            Err(_) => true,
        }),
{
    match st {
        StatementNodeView::CreateTable { name, columns, constraints } => {
            lemma_apply_create_table_wf(ss, name, columns, constraints);
        },
        StatementNodeView::CreateIndex { name, table, columns, unique } => {
            lemma_apply_create_index_wf(ss, name, table, columns, unique);
        },
        StatementNodeView::AlterTable { name, operations } => {
            lemma_apply_alter_wf(ss, name, operations);
        },
        StatementNodeView::Other => {},
    }
}

/// A whole sequence of statements preserves the invariants, whether or
/// not application stops early on an error.
pub proof fn lemma_apply_statements_wf(ss: Seq<SchemaView>, sts: Seq<StatementNodeView>)
    requires
        schemas_wf(ss),
    ensures
        schemas_wf(apply_statements(ss, sts).0),
    decreases sts.len(),
{
    if sts.len() > 0 {
        lemma_apply_statements_wf(ss, sts.drop_last());
        let (s1, e) = apply_statements(ss, sts.drop_last());
        if e is None {
            lemma_apply_statement_wf(s1, sts.last());
        }
    }
}

} // verus!
