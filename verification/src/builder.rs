//! The catalog builder: a mutable accumulator of schemas, fed by
//! statement application and catalog merging, and flattened once into a
//! catalog.

use crate::catalog::{Catalog, CompositeType, Enum, Index, Schema, Table};
use crate::dialect::{dialect_for, dialect_options, resolve_dialect, Dialect};
use crate::error::{SchemaError, SchemaErrorView};
use crate::model::{
    empty_schema, has_composite, has_enum, lemma_deep_view_index, lemma_deep_view_push,
    lemma_deep_view_remove_first, lemma_deep_view_remove_insert, lemma_deep_view_update,
    lemma_schema_index, lemma_table_index, schema_index, table_has_name, table_index, SchemaView,
    TableView,
};
use crate::parser::{parse_statements, sql_parse};
use crate::semantics::{
    apply_alter, apply_alter_ops, apply_create_index, apply_create_table, apply_statement,
    apply_statements, merge_composites, merge_enums, merge_one, merge_schema, merge_schemas,
    merge_tables, schema_part, syntax_error, table_part, target_schema, target_table,
    unknown_dialect_error,
};
use crate::stmt::{AlterOpNode, ColumnDefNode, ConstraintNode, StatementNode};
use crate::text::str_eq;
use vstd::prelude::*;
use vstd::string::*;

verus! {

/// Accumulates schema information across statement applications and
/// catalog merges. The dialect name is carried as given; it is resolved
/// when SQL text is parsed.
#[derive(Debug, Clone, PartialEq)]
pub struct CatalogBuilder {
    /// The SQL dialect name used when parsing statements.
    pub dialect: String,
    /// The accumulated schemas, in the order first created.
    pub schemas: Vec<Schema>,
}

/// What `build` promises of its result: empty catalog metadata, and the
/// accumulated schemas handed over unchanged.
pub open spec fn is_build_of(b: CatalogBuilder, c: Catalog) -> bool {
    &&& c.name@ == Seq::<char>::empty()
    &&& c.default_schema@ == Seq::<char>::empty()
    &&& c.comment@ == Seq::<char>::empty()
    &&& c.schemas == b.schemas
}

impl Default for CatalogBuilder {
    /// An empty accumulator bound to the generic dialect.
    fn default() -> (b: CatalogBuilder)
        ensures
            b.dialect@ == "generic"@,
            b.schemas@.len() == 0,
    {
        CatalogBuilder { dialect: "generic".to_owned(), schemas: Vec::new() }
    }
}

/// Index of the first schema whose name equals `name`, if any.
fn find_schema_idx(schemas: &Vec<Schema>, name: &str) -> (r: Option<usize>)
    ensures
        (match r {
            Some(i) => i < schemas@.len() && schema_index(schemas.deep_view(), name@) == i as int,
            None => schema_index(schemas.deep_view(), name@) == -1,
        }),
{
    let ghost ssv = schemas.deep_view();
    let mut i: usize = 0;
    while i < schemas.len()
        invariant
            i <= schemas@.len(),
            ssv == schemas.deep_view(),
            forall|j: int| 0 <= j < i ==> (#[trigger] ssv[j]).name != name@,
        decreases schemas@.len() - i,
    {
        proof {
            assert(ssv[i as int] == schemas@[i as int].deep_view());
        }
        if str_eq(schemas[i].name.as_str(), name) {
            proof {
                lemma_schema_index(ssv, name@);
            }
            return Some(i);
        }
        i = i + 1;
    }
    proof {
        lemma_schema_index(ssv, name@);
    }
    None
}

/// Index of the first table whose relation name equals `name`, if any.
fn find_table_idx(tables: &Vec<Table>, name: &str) -> (r: Option<usize>)
    ensures
        (match r {
            Some(i) => i < tables@.len() && table_index(tables.deep_view(), name@) == i as int,
            None => table_index(tables.deep_view(), name@) == -1,
        }),
{
    let ghost tsv = tables.deep_view();
    let mut i: usize = 0;
    while i < tables.len()
        invariant
            i <= tables@.len(),
            tsv == tables.deep_view(),
            forall|j: int| 0 <= j < i ==> !table_has_name(#[trigger] tsv[j], name@),
        decreases tables@.len() - i,
    {
        proof {
            assert(tsv[i as int] == tables@[i as int].deep_view());
        }
        let matches_here: bool = match &tables[i].rel {
            Some(rel) => str_eq(rel.name.as_str(), name),
            None => false,
        };
        if matches_here {
            proof {
                lemma_table_index(tsv, name@);
            }
            return Some(i);
        }
        i = i + 1;
    }
    proof {
        lemma_table_index(tsv, name@);
    }
    None
}

/// True when an enum definition of the given name is present.
fn enum_exists(es: &Vec<Enum>, name: &str) -> (r: bool)
    ensures
        r == has_enum(es.deep_view(), name@),
{
    let ghost esv = es.deep_view();
    let mut i: usize = 0;
    while i < es.len()
        invariant
            i <= es@.len(),
            esv == es.deep_view(),
            forall|j: int| 0 <= j < i ==> (#[trigger] esv[j]).name != name@,
        decreases es@.len() - i,
    {
        proof {
            assert(esv[i as int] == es@[i as int].deep_view());
        }
        if str_eq(es[i].name.as_str(), name) {
            return true;
        }
        i = i + 1;
    }
    false
}

/// True when a composite type of the given name is present.
fn composite_exists(cs: &Vec<CompositeType>, name: &str) -> (r: bool)
    ensures
        r == has_composite(cs.deep_view(), name@),
{
    let ghost csv = cs.deep_view();
    let mut i: usize = 0;
    while i < cs.len()
        invariant
            i <= cs@.len(),
            csv == cs.deep_view(),
            forall|j: int| 0 <= j < i ==> (#[trigger] csv[j]).name != name@,
        decreases cs@.len() - i,
    {
        proof {
            assert(csv[i as int] == cs@[i as int].deep_view());
        }
        if str_eq(cs[i].name.as_str(), name) {
            return true;
        }
        i = i + 1;
    }
    false
}

impl CatalogBuilder {
    /// An empty accumulator carrying the given dialect name as is.
    pub fn new(dialect: &str) -> (b: CatalogBuilder)
        ensures
            b.dialect@ == dialect@,
            b.schemas@.len() == 0,
    {
        CatalogBuilder { dialect: dialect.to_owned(), schemas: Vec::new() }
    }

    /// Flattens the accumulator into a catalog: the schemas move over
    /// unchanged, and the catalog's own name, default schema and comment
    /// are empty. This can never fail.
    pub fn build(self) -> (c: Catalog)
        ensures
            is_build_of(self, c),
    {
        Catalog {
            name: String::new(),
            default_schema: String::new(),
            comment: String::new(),
            schemas: self.schemas,
        }
    }

    /// Applies one CREATE TABLE statement: the extracted table is put
    /// into the schema it names, which is created when it is new; a
    /// table of the same name is replaced entirely.
    fn create_table(
        &mut self,
        name: Vec<String>,
        columns: Vec<ColumnDefNode>,
        constraints: Vec<ConstraintNode>,
    )
        ensures
            final(self).dialect == old(self).dialect,
            final(self).schemas.deep_view() == apply_create_table(
                old(self).schemas.deep_view(),
                name.deep_view(),
                columns.deep_view(),
                constraints.deep_view(),
            ),
    {
        let ghost ssv = self.schemas.deep_view();
        let t = Table::from_node(&name, &columns, constraints);
        let ghost tv = t.deep_view();
        let schema_name: String = if name.len() > 1 {
            name[0].clone()
        } else {
            String::new()
        };
        proof {
            if name@.len() > 1 {
                lemma_deep_view_index(&name, 0);
            }
            assert(schema_name@ == schema_part(name.deep_view()));
        }
        match find_schema_idx(&self.schemas, schema_name.as_str()) {
            None => {
                let mut tables: Vec<Table> = Vec::new();
                let ghost tables0 = tables;
                let ghost t0 = t;
                tables.push(t);
                let s = Schema {
                    name: schema_name,
                    comment: String::new(),
                    tables,
                    enums: Vec::new(),
                    composite_types: Vec::new(),
                };
                let ghost s0 = s;
                let ghost pre = self.schemas;
                self.schemas.push(s);
                proof {
                    lemma_deep_view_push(tables0, s0.tables, t0);
                    assert(s0.tables.deep_view() =~= seq![tv]);
                    lemma_deep_view_push(pre, self.schemas, s0);
                    assert(self.schemas.deep_view() =~~= apply_create_table(
                        ssv,
                        name.deep_view(),
                        columns.deep_view(),
                        constraints.deep_view(),
                    ));
                }
            },
            Some(si) => {
                let table_name: String = if name.len() == 0 {
                    String::new()
                } else {
                    name[name.len() - 1].clone()
                };
                proof {
                    if name@.len() > 0 {
                        lemma_deep_view_index(&name, name@.len() - 1);
                    }
                    assert(table_name@ == table_part(name.deep_view()));
                }
                let ghost pre = self.schemas;
                let mut sch = self.schemas.remove(si);
                proof {
                    lemma_deep_view_index(&pre, si as int);
                    assert(sch.deep_view() == ssv[si as int]);
                }
                let ghost schv = sch.deep_view();
                let r = find_table_idx(&sch.tables, table_name.as_str());
                let ghost tpre = sch.tables;
                let ghost t0 = t;
                match r {
                    None => {
                        sch.tables.push(t);
                        proof {
                            lemma_deep_view_push(tpre, sch.tables, t0);
                        }
                    },
                    Some(ti) => {
                        sch.tables[ti] = t;
                        proof {
                            lemma_deep_view_update(tpre, sch.tables, ti as int, t0);
                        }
                    },
                }
                let ghost sch0 = sch;
                let ghost mid = self.schemas;
                self.schemas.insert(si, sch);
                proof {
                    lemma_deep_view_remove_insert(pre, mid, self.schemas, si as int, sch0);
                    assert(sch0.deep_view() =~~= (SchemaView {
                        tables: sch0.tables.deep_view(),
                        ..schv
                    }));
                    assert(self.schemas.deep_view() =~~= apply_create_table(
                        ssv,
                        name.deep_view(),
                        columns.deep_view(),
                        constraints.deep_view(),
                    ));
                }
            },
        }
    }

    /// Applies one CREATE INDEX statement: silently without effect when
    /// the target reference is empty or names an unknown schema or
    /// table; an error when the target exists but the index has no name;
    /// otherwise the index is appended to the target table.
    fn create_index(
        &mut self,
        name: Option<String>,
        table: Vec<String>,
        columns: Vec<String>,
        unique: bool,
    ) -> (r: Result<(), SchemaError>)
        ensures
            final(self).dialect == old(self).dialect,
            (match apply_create_index(
                old(self).schemas.deep_view(),
                name.deep_view(),
                table.deep_view(),
                columns.deep_view(),
                unique,
            ) {
                Ok(ss2) => r is Ok && final(self).schemas.deep_view() == ss2,
                Err(e) => r is Err && r->Err_0.deep_view() == e && final(self).schemas == old(
                    self,
                ).schemas,
            }),
    {
        let ghost ssv = self.schemas.deep_view();
        if table.len() == 0 {
            return Ok(());
        }
        let sname: String = if table.len() > 1 {
            table[0].clone()
        } else {
            String::new()
        };
        let tname: String = if table.len() > 1 {
            table[1].clone()
        } else {
            table[0].clone()
        };
        proof {
            lemma_deep_view_index(&table, 0);
            if table@.len() > 1 {
                lemma_deep_view_index(&table, 1);
            }
            assert(sname@ == target_schema(table.deep_view()));
            assert(tname@ == target_table(table.deep_view()));
        }
        let si: usize = match find_schema_idx(&self.schemas, sname.as_str()) {
            None => {
                return Ok(());
            },
            Some(si) => si,
        };
        proof {
            lemma_deep_view_index(&self.schemas, si as int);
        }
        let ti: usize = match find_table_idx(&self.schemas[si].tables, tname.as_str()) {
            None => {
                return Ok(());
            },
            Some(ti) => ti,
        };
        let idx_name: String = match name {
            None => {
                return Err(SchemaError::MissingIndexName);
            },
            Some(n) => n,
        };
        let ghost pre = self.schemas;
        let mut sch = self.schemas.remove(si);
        proof {
            assert(sch.deep_view() == ssv[si as int]);
        }
        let ghost schv = sch.deep_view();
        let ghost tpre = sch.tables;
        let mut t = sch.tables.remove(ti);
        proof {
            lemma_deep_view_index(&tpre, ti as int);
            assert(t.deep_view() == schv.tables[ti as int]);
        }
        let ghost tvpre = t.deep_view();
        let ghost ipre = t.indexes;
        let idx = Index { name: idx_name, columns, unique };
        let ghost idx0 = idx;
        t.indexes.push(idx);
        let ghost t0 = t;
        let ghost tmid = sch.tables;
        sch.tables.insert(ti, t);
        let ghost sch0 = sch;
        let ghost mid = self.schemas;
        self.schemas.insert(si, sch);
        proof {
            lemma_deep_view_push(ipre, t0.indexes, idx0);
            lemma_deep_view_remove_insert(tpre, tmid, sch0.tables, ti as int, t0);
            lemma_deep_view_remove_insert(pre, mid, self.schemas, si as int, sch0);
            assert(t0.deep_view() =~~= (TableView {
                indexes: tvpre.indexes.push(idx0.deep_view()),
                ..tvpre
            }));
            assert(sch0.deep_view() =~~= (SchemaView {
                tables: schv.tables.update(ti as int, t0.deep_view()),
                ..schv
            }));
            assert(self.schemas.deep_view() =~~= apply_create_index(
                ssv,
                name.deep_view(),
                table.deep_view(),
                columns.deep_view(),
                unique,
            )->Ok_0);
        }
        Ok(())
    }

    /// Applies one ALTER TABLE statement: silently without effect when
    /// the target reference is empty or names an unknown schema or
    /// table; otherwise its ADD CONSTRAINT operations are applied to the
    /// target table in order.
    #[verifier::loop_isolation(false)]
    fn alter_table(&mut self, name: Vec<String>, operations: Vec<AlterOpNode>)
        ensures
            final(self).dialect == old(self).dialect,
            final(self).schemas.deep_view() == apply_alter(
                old(self).schemas.deep_view(),
                name.deep_view(),
                operations.deep_view(),
            ),
    {
        let ghost ssv = self.schemas.deep_view();
        if name.len() == 0 {
            return ;
        }
        let sname: String = if name.len() > 1 {
            name[0].clone()
        } else {
            String::new()
        };
        let tname: String = if name.len() > 1 {
            name[1].clone()
        } else {
            name[0].clone()
        };
        proof {
            lemma_deep_view_index(&name, 0);
            if name@.len() > 1 {
                lemma_deep_view_index(&name, 1);
            }
            assert(sname@ == target_schema(name.deep_view()));
            assert(tname@ == target_table(name.deep_view()));
        }
        let si: usize = match find_schema_idx(&self.schemas, sname.as_str()) {
            None => {
                return ;
            },
            Some(si) => si,
        };
        proof {
            lemma_deep_view_index(&self.schemas, si as int);
        }
        let ti: usize = match find_table_idx(&self.schemas[si].tables, tname.as_str()) {
            None => {
                return ;
            },
            Some(ti) => ti,
        };
        let ghost pre = self.schemas;
        let mut sch = self.schemas.remove(si);
        proof {
            assert(sch.deep_view() == ssv[si as int]);
        }
        let ghost schv = sch.deep_view();
        let ghost tpre = sch.tables;
        let mut t = sch.tables.remove(ti);
        proof {
            lemma_deep_view_index(&tpre, ti as int);
            assert(t.deep_view() == schv.tables[ti as int]);
        }
        let ghost t0v = t.deep_view();
        let ghost opsv = operations.deep_view();
        let mut ops = operations;
        let total: usize = ops.len();
        let mut k: usize = 0;
        while k < total
            invariant
                k <= total,
                total == opsv.len(),
                ops.deep_view() == opsv.skip(k as int),
                t.deep_view() == apply_alter_ops(t0v, opsv.take(k as int)),
            decreases total - k,
        {
            let ghost opre = ops;
            let op = ops.remove(0);
            proof {
                lemma_deep_view_remove_first(opre, ops, op);
                assert(op.deep_view() == opsv[k as int]);
                assert(ops.deep_view() =~= opsv.skip(k + 1));
                assert(opsv.take(k + 1).drop_last() =~= opsv.take(k as int));
                assert(opsv.take(k + 1).last() == opsv[k as int]);
            }
            match op {
                AlterOpNode::AddConstraint(c) => {
                    t.add_constraint(c);
                },
                AlterOpNode::Other => {},
            }
            k = k + 1;
        }
        proof {
            assert(opsv.take(total as int) =~= opsv);
        }
        let ghost t0 = t;
        let ghost tmid = sch.tables;
        sch.tables.insert(ti, t);
        let ghost sch0 = sch;
        let ghost mid = self.schemas;
        self.schemas.insert(si, sch);
        proof {
            lemma_deep_view_remove_insert(tpre, tmid, sch0.tables, ti as int, t0);
            lemma_deep_view_remove_insert(pre, mid, self.schemas, si as int, sch0);
            assert(sch0.deep_view() =~~= (SchemaView {
                tables: schv.tables.update(ti as int, t0.deep_view()),
                ..schv
            }));
            assert(self.schemas.deep_view() =~~= apply_alter(
                ssv,
                name.deep_view(),
                operations.deep_view(),
            ));
        }
    }

    /// Routes one statement node to the matching builder: CREATE TABLE,
    /// CREATE INDEX and ALTER TABLE take effect, everything else is
    /// ignored without error. On failure the accumulator is unchanged by
    /// this statement.
    pub fn apply_statement(&mut self, stmt: StatementNode) -> (r: Result<(), SchemaError>)
        ensures
            final(self).dialect == old(self).dialect,
            (match apply_statement(old(self).schemas.deep_view(), stmt.deep_view()) {
                Ok(ss2) => r is Ok && final(self).schemas.deep_view() == ss2,
                Err(e) => r is Err && r->Err_0.deep_view() == e && final(self).schemas == old(
                    self,
                ).schemas,
            }),
    {
        match stmt {
            StatementNode::CreateTable { name, columns, constraints } => {
                self.create_table(name, columns, constraints);
                Ok(())
            },
            StatementNode::CreateIndex { name, table, columns, unique } => self.create_index(
                name,
                table,
                columns,
                unique,
            ),
            StatementNode::AlterTable { name, operations } => {
                self.alter_table(name, operations);
                Ok(())
            },
            StatementNode::Other => Ok(()),
        }
    }

    /// Applies statement nodes in order. The first failing statement
    /// stops application and its error is returned; what the statements
    /// before it built stays committed.
    #[verifier::loop_isolation(false)]
    pub fn apply_statements(&mut self, stmts: Vec<StatementNode>) -> (r: Result<(), SchemaError>)
        ensures
            final(self).dialect == old(self).dialect,
            ({
                let (ss2, e) = apply_statements(old(self).schemas.deep_view(), stmts.deep_view());
                &&& final(self).schemas.deep_view() == ss2
                &&& (match e {
                    None => r is Ok,
                    Some(ev) => r is Err && r->Err_0.deep_view() == ev,
                })
            }),
    {
        let ghost ssv = self.schemas.deep_view();
        let ghost sv = stmts.deep_view();
        let mut rest = stmts;
        let total: usize = rest.len();
        let mut k: usize = 0;
        while k < total
            invariant
                k <= total,
                total == sv.len(),
                rest.deep_view() == sv.skip(k as int),
                self.dialect == old(self).dialect,
                apply_statements(ssv, sv.take(k as int)) == (
                    self.schemas.deep_view(),
                    None::<SchemaErrorView>,
                ),
            decreases total - k,
        {
            let ghost rpre = rest;
            let s = rest.remove(0);
            proof {
                lemma_deep_view_remove_first(rpre, rest, s);
                assert(s.deep_view() == sv[k as int]);
                assert(rest.deep_view() =~= sv.skip(k + 1));
                assert(sv.take(k + 1).drop_last() =~= sv.take(k as int));
                assert(sv.take(k + 1).last() == sv[k as int]);
            }
            let ghost cur = self.schemas.deep_view();
            match self.apply_statement(s) {
                Ok(()) => {},
                Err(e) => {
                    proof {
                        assert(apply_statements(ssv, sv.take(k + 1)) == (
                            cur,
                            Some(e.deep_view()),
                        ));
                        crate::semantics::lemma_apply_statements_stops(ssv, sv, k + 1);
                        assert(sv.take(sv.len() as int) =~= sv);
                    }
                    return Err(e);
                },
            }
            k = k + 1;
        }
        proof {
            assert(sv.take(total as int) =~= sv);
        }
        Ok(())
    }

    /// Parses an SQL text with the builder's dialect and applies each
    /// statement in order. Fails when the dialect name is unsupported,
    /// when the grammar rejects the text, or when an index-creation
    /// statement against a known table has no index name; statements
    /// already applied before a failure stay committed.
    pub fn parse_sql(&mut self, sql: &str) -> (r: Result<(), SchemaError>)
        ensures
            final(self).dialect == old(self).dialect,
            (match dialect_for(old(self).dialect@) {
                None => {
                    &&& r is Err
                    &&& r->Err_0.deep_view() == unknown_dialect_error(old(self).dialect@)
                    &&& final(self).schemas == old(self).schemas
                },
                Some(d) => match sql_parse(d, sql@) {
                    Err(msg) => {
                        &&& r is Err
                        &&& r->Err_0.deep_view() == syntax_error(msg)
                        &&& final(self).schemas == old(self).schemas
                    },
                    Ok(nodes) => ({
                        let (ss2, e) = apply_statements(old(self).schemas.deep_view(), nodes);
                        &&& final(self).schemas.deep_view() == ss2
                        &&& (match e {
                            None => r is Ok,
                            Some(ev) => r is Err && r->Err_0.deep_view() == ev,
                        })
                    }),
                },
            }),
    {
        let d: Dialect = match resolve_dialect(self.dialect.as_str()) {
            Some(d) => d,
            None => {
                let e = SchemaError::UnknownDialect {
                    dialect: self.dialect.clone(),
                    options: dialect_options(),
                };
                proof {
                    assert(e.deep_view() =~~= unknown_dialect_error(self.dialect@));
                }
                return Err(e);
            },
        };
        match parse_statements(d, sql) {
            Err(m) => Err(SchemaError::SyntaxError { message: m }),
            Ok(nodes) => self.apply_statements(nodes),
        }
    }

    /// The accumulated schema of the given name, when one is there.
    pub fn get_schema(&self, name: &str) -> (r: Option<&Schema>)
        ensures
            (match r {
                Some(s) => {
                    let k = schema_index(self.schemas.deep_view(), name@);
                    &&& 0 <= k < self.schemas.deep_view().len()
                    &&& s.deep_view() == self.schemas.deep_view()[k]
                },
                None => schema_index(self.schemas.deep_view(), name@) == -1,
            }),
    {
        match find_schema_idx(&self.schemas, name) {
            Some(i) => {
                proof {
                    assert(self.schemas.deep_view()[i as int] == self.schemas@[i as int].deep_view());
                }
                Some(&self.schemas[i])
            },
            None => None,
        }
    }
}

/// Folds one incoming schema's contents into a target schema: a table is
/// appended only when it has a relation name that is not yet present,
/// and enum definitions and composite types are appended only when their
/// name is not yet present; the target's entries win every collision.
#[verifier::loop_isolation(false)]
fn merge_schema_parts(target: &mut Schema, inc: Schema)
    ensures
        final(target).deep_view() == merge_schema(old(target).deep_view(), inc.deep_view()),
{
    let ghost tv0 = target.deep_view();
    let ghost incv = inc.deep_view();
    let mut inc_tables = inc.tables;
    let ghost itv = inc_tables.deep_view();
    let total_t: usize = inc_tables.len();
    let mut k: usize = 0;
    while k < total_t
        invariant
            k <= total_t,
            total_t == itv.len(),
            inc_tables.deep_view() == itv.skip(k as int),
            target.deep_view() == (SchemaView {
                tables: merge_tables(tv0.tables, itv.take(k as int)),
                ..tv0
            }),
        decreases total_t - k,
    {
        let ghost tpre = inc_tables;
        let t = inc_tables.remove(0);
        proof {
            lemma_deep_view_remove_first(tpre, inc_tables, t);
            assert(t.deep_view() == itv[k as int]);
            assert(inc_tables.deep_view() =~= itv.skip(k + 1));
            assert(itv.take(k + 1).drop_last() =~= itv.take(k as int));
            assert(itv.take(k + 1).last() == itv[k as int]);
        }
        let push_it: bool = match &t.rel {
            Some(rel) => find_table_idx(&target.tables, rel.name.as_str()).is_none(),
            None => false,
        };
        if push_it {
            let ghost tgpre = target.tables;
            let ghost t0 = t;
            target.tables.push(t);
            proof {
                lemma_deep_view_push(tgpre, target.tables, t0);
            }
        }
        proof {
            assert(target.deep_view() =~~= (SchemaView {
                tables: merge_tables(tv0.tables, itv.take(k + 1)),
                ..tv0
            }));
        }
        k = k + 1;
    }
    proof {
        assert(itv.take(total_t as int) =~= itv);
    }
    let ghost tv1 = target.deep_view();
    let mut inc_enums = inc.enums;
    let ghost iev = inc_enums.deep_view();
    let total_e: usize = inc_enums.len();
    let mut ke: usize = 0;
    while ke < total_e
        invariant
            ke <= total_e,
            total_e == iev.len(),
            inc_enums.deep_view() == iev.skip(ke as int),
            target.deep_view() == (SchemaView {
                enums: merge_enums(tv1.enums, iev.take(ke as int)),
                ..tv1
            }),
        decreases total_e - ke,
    {
        let ghost epre = inc_enums;
        let e = inc_enums.remove(0);
        proof {
            lemma_deep_view_remove_first(epre, inc_enums, e);
            assert(e.deep_view() == iev[ke as int]);
            assert(inc_enums.deep_view() =~= iev.skip(ke + 1));
            assert(iev.take(ke + 1).drop_last() =~= iev.take(ke as int));
            assert(iev.take(ke + 1).last() == iev[ke as int]);
        }
        if !enum_exists(&target.enums, e.name.as_str()) {
            let ghost egpre = target.enums;
            let ghost e0 = e;
            target.enums.push(e);
            proof {
                lemma_deep_view_push(egpre, target.enums, e0);
            }
        }
        proof {
            assert(target.deep_view() =~~= (SchemaView {
                enums: merge_enums(tv1.enums, iev.take(ke + 1)),
                ..tv1
            }));
        }
        ke = ke + 1;
    }
    proof {
        assert(iev.take(total_e as int) =~= iev);
    }
    let ghost tv2 = target.deep_view();
    let mut inc_comps = inc.composite_types;
    let ghost icv = inc_comps.deep_view();
    let total_c: usize = inc_comps.len();
    let mut kc: usize = 0;
    while kc < total_c
        invariant
            kc <= total_c,
            total_c == icv.len(),
            inc_comps.deep_view() == icv.skip(kc as int),
            target.deep_view() == (SchemaView {
                composite_types: merge_composites(tv2.composite_types, icv.take(kc as int)),
                ..tv2
            }),
        decreases total_c - kc,
    {
        let ghost cpre = inc_comps;
        let c = inc_comps.remove(0);
        proof {
            lemma_deep_view_remove_first(cpre, inc_comps, c);
            assert(c.deep_view() == icv[kc as int]);
            assert(inc_comps.deep_view() =~= icv.skip(kc + 1));
            assert(icv.take(kc + 1).drop_last() =~= icv.take(kc as int));
            assert(icv.take(kc + 1).last() == icv[kc as int]);
        }
        if !composite_exists(&target.composite_types, c.name.as_str()) {
            let ghost cgpre = target.composite_types;
            let ghost c0 = c;
            target.composite_types.push(c);
            proof {
                lemma_deep_view_push(cgpre, target.composite_types, c0);
            }
        }
        proof {
            assert(target.deep_view() =~~= (SchemaView {
                composite_types: merge_composites(tv2.composite_types, icv.take(kc + 1)),
                ..tv2
            }));
        }
        kc = kc + 1;
    }
    proof {
        assert(icv.take(total_c as int) =~= icv);
        assert(target.deep_view() =~~= merge_schema(tv0, incv));
    }
}

impl CatalogBuilder {
    /// Folds one incoming schema into the accumulator: merged into the
    /// schema of its name, which is created empty when it is new.
    fn merge_one_schema(&mut self, s: Schema)
        ensures
            final(self).dialect == old(self).dialect,
            final(self).schemas.deep_view() == merge_one(
                old(self).schemas.deep_view(),
                s.deep_view(),
            ),
    {
        let ghost ssv = self.schemas.deep_view();
        match find_schema_idx(&self.schemas, s.name.as_str()) {
            None => {
                let mut target = Schema {
                    name: s.name.clone(),
                    comment: String::new(),
                    tables: Vec::new(),
                    enums: Vec::new(),
                    composite_types: Vec::new(),
                };
                proof {
                    assert(target.deep_view() =~~= empty_schema(s.deep_view().name));
                }
                merge_schema_parts(&mut target, s);
                let ghost tg0 = target;
                let ghost pre = self.schemas;
                self.schemas.push(target);
                proof {
                    lemma_deep_view_push(pre, self.schemas, tg0);
                    assert(self.schemas.deep_view() =~~= merge_one(ssv, s.deep_view()));
                }
            },
            Some(si) => {
                let ghost pre = self.schemas;
                let mut sch = self.schemas.remove(si);
                proof {
                    lemma_deep_view_index(&pre, si as int);
                    assert(sch.deep_view() == ssv[si as int]);
                }
                merge_schema_parts(&mut sch, s);
                let ghost sch0 = sch;
                let ghost mid = self.schemas;
                self.schemas.insert(si, sch);
                proof {
                    lemma_deep_view_remove_insert(pre, mid, self.schemas, si as int, sch0);
                    assert(self.schemas.deep_view() =~~= merge_one(ssv, s.deep_view()));
                }
            },
        }
    }

    /// Folds another catalog into the accumulator, schema by schema, in
    /// the incoming order. On every name collision the accumulator's
    /// entry wins in full: merging is not commutative, so callers merge
    /// in priority order.
    #[verifier::loop_isolation(false)]
    pub fn merge_catalog(&mut self, other: Catalog)
        ensures
            final(self).dialect == old(self).dialect,
            final(self).schemas.deep_view() == merge_schemas(
                old(self).schemas.deep_view(),
                other.schemas.deep_view(),
            ),
    {
        let ghost ssv = self.schemas.deep_view();
        let ghost incv = other.schemas.deep_view();
        let mut inc = other.schemas;
        let total: usize = inc.len();
        let mut k: usize = 0;
        while k < total
            invariant
                k <= total,
                total == incv.len(),
                inc.deep_view() == incv.skip(k as int),
                self.dialect == old(self).dialect,
                self.schemas.deep_view() == merge_schemas(ssv, incv.take(k as int)),
            decreases total - k,
        {
            let ghost ipre = inc;
            let s = inc.remove(0);
            proof {
                lemma_deep_view_remove_first(ipre, inc, s);
                assert(s.deep_view() == incv[k as int]);
                assert(inc.deep_view() =~= incv.skip(k + 1));
                assert(incv.take(k + 1).drop_last() =~= incv.take(k as int));
                assert(incv.take(k + 1).last() == incv[k as int]);
            }
            self.merge_one_schema(s);
            k = k + 1;
        }
        proof {
            assert(incv.take(total as int) =~= incv);
        }
    }
}

/// A fresh accumulator bound to a supported dialect: succeeds exactly on
/// the supported synonyms, and fails on every other name with an error
/// naming the input and listing the accepted names.
pub fn new_builder(dialect: &str) -> (r: Result<CatalogBuilder, SchemaError>)
    ensures
        (match r {
            Ok(b) => {
                &&& dialect_for(dialect@) is Some
                &&& b.dialect@ == dialect@
                &&& b.schemas@.len() == 0
            },
            Err(e) => {
                &&& dialect_for(dialect@) is None
                &&& e.deep_view() == unknown_dialect_error(dialect@)
            },
        }),
{
    match resolve_dialect(dialect) {
        Some(_) => Ok(CatalogBuilder::new(dialect)),
        None => {
            let e = SchemaError::UnknownDialect {
                dialect: dialect.to_owned(),
                options: dialect_options(),
            };
            proof {
                assert(e.deep_view() =~~= unknown_dialect_error(dialect@));
            }
            Err(e)
        },
    }
}

/// SQL texts parsed in order into accumulated schemas: each text's
/// statements are applied in order, and the first failure, whether from
/// the grammar or from statement application, stops the fold with the
/// state built so far.
pub open spec fn parse_texts(ss: Seq<SchemaView>, d: Dialect, texts: Seq<Seq<char>>) -> (
    Seq<SchemaView>,
    Option<SchemaErrorView>,
)
    decreases texts.len(),
{
    if texts.len() == 0 {
        (ss, None)
    } else {
        let (s1, e) = parse_texts(ss, d, texts.drop_last());
        if e is Some {
            (s1, e)
        } else {
            match sql_parse(d, texts.last()) {
                Err(m) => (s1, Some(syntax_error(m))),
                Ok(nodes) => apply_statements(s1, nodes),
            }
        }
    }
}

/// Once a text has failed, the remaining texts change nothing: the whole
/// fold ends in the same state and error.
proof fn lemma_parse_texts_stops(ss: Seq<SchemaView>, d: Dialect, texts: Seq<Seq<char>>, k: int)
    requires
        0 <= k <= texts.len(),
        parse_texts(ss, d, texts.take(k)).1 is Some,
    ensures
        parse_texts(ss, d, texts) == parse_texts(ss, d, texts.take(k)),
    decreases texts.len() - k,
{
    if k == texts.len() {
        assert(texts.take(k) =~= texts);
    } else {
        assert(texts.take(k + 1).drop_last() =~= texts.take(k));
        assert(texts.take(k + 1).last() == texts[k]);
        assert(parse_texts(ss, d, texts.take(k + 1)) == parse_texts(ss, d, texts.take(k)));
        lemma_parse_texts_stops(ss, d, texts, k + 1);
    }
}

/// What the whole enrichment step produces for given inputs: the parsed
/// schemas with an optional previously built catalog folded in, or the
/// first error. With no texts at all, nothing is parsed and the dialect
/// name is never examined.
pub open spec fn enrich_outcome(
    dialect: Seq<char>,
    texts: Seq<Seq<char>>,
    existing: Option<Seq<SchemaView>>,
) -> Result<Seq<SchemaView>, SchemaErrorView> {
    if texts.len() == 0 {
        Ok(
            match existing {
                Option::None => Seq::empty(),
                Option::Some(cs) => merge_schemas(Seq::empty(), cs),
            },
        )
    } else if dialect_for(dialect) is None {
        Err(unknown_dialect_error(dialect))
    } else {
        let (ss, e) = parse_texts(Seq::empty(), dialect_for(dialect)->Some_0, texts);
        match e {
            Some(ev) => Err(ev),
            None => Ok(
                match existing {
                    Option::None => ss,
                    Option::Some(cs) => merge_schemas(ss, cs),
                },
            ),
        }
    }
}

/// The whole enrichment step: parses each SQL text, in order, into a
/// fresh accumulator bound to the given dialect name, folds in a
/// previously built catalog when one is given, and flattens the result.
/// The first failing text stops the run and its error is returned.
#[verifier::loop_isolation(false)]
pub fn enrich_catalog(dialect: &str, texts: Vec<String>, existing: Option<Catalog>) -> (r: Result<
    Catalog,
    SchemaError,
>)
    ensures
        (match enrich_outcome(
            dialect@,
            texts.deep_view(),
            match existing {
                Option::None => Option::None,
                Option::Some(c) => Option::Some(c.schemas.deep_view()),
            },
        ) {
            Ok(ss2) => {
                &&& r is Ok
                &&& r->Ok_0.schemas.deep_view() == ss2
                &&& r->Ok_0.name@ == Seq::<char>::empty()
                &&& r->Ok_0.default_schema@ == Seq::<char>::empty()
                &&& r->Ok_0.comment@ == Seq::<char>::empty()
            },
            Err(ev) => r is Err && r->Err_0.deep_view() == ev,
        }),
{
    let ghost tv = texts.deep_view();
    let mut b = CatalogBuilder::new(dialect);
    let ghost d = dialect_for(dialect@)->Some_0;
    if texts.len() > 0 {
        if resolve_dialect(dialect).is_none() {
            let e = SchemaError::UnknownDialect {
                dialect: dialect.to_owned(),
                options: dialect_options(),
            };
            proof {
                assert(e.deep_view() =~~= unknown_dialect_error(dialect@));
            }
            return Err(e);
        }
    }
    let mut rest = texts;
    let total: usize = rest.len();
    let mut k: usize = 0;
    while k < total
        invariant
            k <= total,
            total == tv.len(),
            rest.deep_view() == tv.skip(k as int),
            b.dialect@ == dialect@,
            total > 0 ==> dialect_for(dialect@) is Some,
            parse_texts(Seq::empty(), d, tv.take(k as int)) == (
                b.schemas.deep_view(),
                None::<SchemaErrorView>,
            ),
        decreases total - k,
    {
        let ghost rpre = rest;
        let t = rest.remove(0);
        proof {
            lemma_deep_view_remove_first(rpre, rest, t);
            assert(t.deep_view() == tv[k as int]);
            assert(rest.deep_view() =~= tv.skip(k + 1));
            assert(tv.take(k + 1).drop_last() =~= tv.take(k as int));
            assert(tv.take(k + 1).last() == tv[k as int]);
        }
        let ghost cur = b.schemas.deep_view();
        match b.parse_sql(t.as_str()) {
            Ok(()) => {},
            Err(e) => {
                proof {
                    assert(parse_texts(Seq::empty(), d, tv.take(k + 1)).1 == Some(e.deep_view()));
                    lemma_parse_texts_stops(Seq::empty(), d, tv, k + 1);
                    assert(tv.take(tv.len() as int) =~= tv);
                }
                return Err(e);
            },
        }
        k = k + 1;
    }
    proof {
        assert(tv.take(total as int) =~= tv);
    }
    match existing {
        Some(c) => {
            b.merge_catalog(c);
        },
        None => {},
    }
    Ok(b.build())
}

} // verus!
