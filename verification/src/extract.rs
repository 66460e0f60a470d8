//! Extraction of catalog records from statement nodes: columns, inline
//! constraints, table-level constraints, and whole tables.

use crate::catalog::{Column, ForeignKey, Identifier, Index, PrimaryKey, Table};
use crate::semantics::{
    apply_constraint, apply_constraints, column_of_def, fk_of_option, fks_in_options,
    has_inline_pk, has_not_null, inline_fks, inline_pk, last_pk_in_options, pk_of_option,
    schema_part, table_of_create, table_part,
};
use crate::stmt::{ColumnDefNode, ColumnDefNodeView, ColumnOptionNode, ConstraintNode};
use crate::text::clone_strings;
use vstd::prelude::*;
use vstd::string::*;

verus! {

impl Column {
    /// Extracts a column record from its definition node: name and raw
    /// type text carried over, not-null derived from the options, every
    /// other field at its default.
    pub(crate) fn from_column_def(cd: &ColumnDefNode) -> (c: Column)
        ensures
            c.deep_view() == column_of_def(cd.deep_view()),
    {
        let mut not_null: bool = false;
        let mut is_pk: bool = false;
        let mut i: usize = 0;
        while i < cd.options.len()
            invariant
                i <= cd.options.len(),
                not_null == exists|j: int|
                    0 <= j < i && #[trigger] cd.options.deep_view()[j] is NotNull,
                is_pk == exists|j: int|
                    0 <= j < i && #[trigger] cd.options.deep_view()[j] is PrimaryKey,
            decreases cd.options.len() - i,
        {
            proof {
                assert(cd.options.deep_view()[i as int] == cd.options@[i as int].deep_view());
            }
            match &cd.options[i] {
                ColumnOptionNode::NotNull => {
                    not_null = true;
                },
                ColumnOptionNode::PrimaryKey { .. } => {
                    is_pk = true;
                },
                _ => {},
            }
            i = i + 1;
        }
        proof {
            assert(cd.options.deep_view().len() == cd.options@.len());
            assert(not_null == has_not_null(cd.deep_view().options));
            assert(is_pk == has_inline_pk(cd.deep_view().options));
        }
        let c = Column {
            name: cd.name.clone(),
            not_null: not_null || is_pk,
            is_array: false,
            comment: String::new(),
            length: 0,
            is_named_param: false,
            is_func_call: false,
            scope: String::new(),
            table: None,
            table_alias: String::new(),
            type_ref: Some(
                Identifier {
                    catalog: String::new(),
                    schema: String::new(),
                    name: cd.type_text.clone(),
                },
            ),
            is_sqlc_slice: false,
            embed_table: None,
            original_name: cd.name.clone(),
            unsigned: false,
            array_dims: 0,
        };
        proof {
            assert(c.deep_view() =~~= column_of_def(cd.deep_view()));
        }
        c
    }
}

impl PrimaryKey {
    /// The single-column primary key an inline option declares, when the
    /// option is a primary-key option.
    pub(crate) fn from_column_option(column_name: &str, option: &ColumnOptionNode) -> (r: Option<
        PrimaryKey,
    >)
        ensures
            r.deep_view() == pk_of_option(column_name@, option.deep_view()),
    {
        match option {
            ColumnOptionNode::PrimaryKey { constraint_name } => {
                let mut columns: Vec<String> = Vec::new();
                columns.push(column_name.to_owned());
                let pk = PrimaryKey { name: constraint_name.clone(), columns };
                proof {
                    assert(pk.deep_view() =~~= pk_of_option(
                        column_name@,
                        option.deep_view(),
                    )->Some_0);
                }
                Some(pk)
            },
            _ => None,
        }
    }
}

impl ForeignKey {
    /// The single-column foreign key an inline references-clause
    /// declares, when the option is one.
    pub(crate) fn from_column_option(column_name: &str, option: &ColumnOptionNode) -> (r: Option<
        ForeignKey,
    >)
        ensures
            r.deep_view() == fk_of_option(column_name@, option.deep_view()),
    {
        match option {
            ColumnOptionNode::ForeignKey {
                constraint_name,
                referenced_table,
                referenced_columns,
                on_delete,
                on_update,
            } => {
                let mut columns: Vec<String> = Vec::new();
                columns.push(column_name.to_owned());
                let fk = ForeignKey {
                    name: constraint_name.clone(),
                    columns,
                    referenced_table: referenced_table.clone(),
                    referenced_columns: clone_strings(referenced_columns),
                    on_delete: on_delete.clone(),
                    on_update: on_update.clone(),
                };
                proof {
                    assert(fk.deep_view() =~~= fk_of_option(
                        column_name@,
                        option.deep_view(),
                    )->Some_0);
                }
                Some(fk)
            },
            _ => None,
        }
    }
}

impl Table {
    /// Applies one table-level constraint clause to the table.
    pub(crate) fn add_constraint(&mut self, constraint: ConstraintNode)
        ensures
            final(self).deep_view() == apply_constraint(
                old(self).deep_view(),
                constraint.deep_view(),
            ),
    {
        match constraint {
            ConstraintNode::PrimaryKey { name, columns } => {
                self.primary_key = Some(PrimaryKey { name, columns });
                proof {
                    assert(self.deep_view() =~~= apply_constraint(
                        old(self).deep_view(),
                        constraint.deep_view(),
                    ));
                }
            },
            ConstraintNode::ForeignKey {
                name,
                columns,
                referenced_table,
                referenced_columns,
                on_delete,
                on_update,
            } => {
                self.foreign_keys.push(
                    ForeignKey {
                        name,
                        columns,
                        referenced_table,
                        referenced_columns,
                        on_delete,
                        on_update,
                    },
                );
                proof {
                    assert(self.deep_view() =~~= apply_constraint(
                        old(self).deep_view(),
                        constraint.deep_view(),
                    ));
                }
            },
            ConstraintNode::Unique { name, columns } => {
                match name {
                    Some(n) => {
                        self.indexes.push(Index { name: n, columns, unique: true });
                        proof {
                            assert(self.deep_view() =~~= apply_constraint(
                                old(self).deep_view(),
                                constraint.deep_view(),
                            ));
                        }
                    },
                    None => {},
                }
            },
            ConstraintNode::Other => {},
        }
    }

    /// Extracts a whole table from the pieces of a CREATE TABLE
    /// statement: the qualified name is split into schema and table,
    /// the columns are extracted in order, inline options give the
    /// primary key (the last declared wins) and the foreign keys, and
    /// the table-level constraints are then applied in order.
    #[verifier::loop_isolation(false)]
    pub(crate) fn from_node(
        name_parts: &Vec<String>,
        columns: &Vec<ColumnDefNode>,
        constraints: Vec<ConstraintNode>,
    ) -> (t: Table)
        ensures
            t.deep_view() == table_of_create(
                name_parts.deep_view(),
                columns.deep_view(),
                constraints.deep_view(),
            ),
    {
        let table_name: String = if name_parts.len() == 0 {
            String::new()
        } else {
            name_parts[name_parts.len() - 1].clone()
        };
        let schema_name: String = if name_parts.len() > 1 {
            name_parts[0].clone()
        } else {
            String::new()
        };
        proof {
            assert(table_name@ == table_part(name_parts.deep_view()));
            assert(schema_name@ == schema_part(name_parts.deep_view()));
        }
        let ghost colsv = columns.deep_view();
        let mut cols: Vec<Column> = Vec::new();
        let mut i: usize = 0;
        while i < columns.len()
            invariant
                i <= columns.len(),
                cols.deep_view() == colsv.take(i as int).map_values(
                    |cd: ColumnDefNodeView| column_of_def(cd),
                ),
            decreases columns.len() - i,
        {
            let ghost cdsv = cols.deep_view();
            let ghost colsold = cols@;
            let c = Column::from_column_def(&columns[i]);
            cols.push(c);
            proof {
                assert(colsv[i as int] == columns@[i as int].deep_view());
                assert forall|j: int| 0 <= j < colsold.len() implies #[trigger] cols.deep_view()[j]
                    == cdsv[j] by {
                    assert(cols.deep_view()[j] == cols@[j].deep_view());
                    assert(cdsv[j] == colsold[j].deep_view());
                }
                assert(cols.deep_view()[colsold.len() as int] == cols@[colsold.len() as int].deep_view());
                assert(colsv.take(i + 1) =~= colsv.take(i as int).push(colsv[i as int]));
                assert(cols.deep_view() =~= colsv.take(i + 1).map_values(
                    |cd: ColumnDefNodeView| column_of_def(cd),
                ));
            }
            i = i + 1;
        }
        proof {
            assert(colsv.take(columns@.len() as int) =~= colsv);
        }
        let mut primary_key: Option<PrimaryKey> = None;
        let mut foreign_keys: Vec<ForeignKey> = Vec::new();
        let mut ci: usize = 0;
        while ci < columns.len()
            invariant
                ci <= columns.len(),
                primary_key.deep_view() == inline_pk(colsv.take(ci as int)),
                foreign_keys.deep_view() == inline_fks(colsv.take(ci as int)),
            decreases columns.len() - ci,
        {
            let ghost colv = colsv[ci as int];
            proof {
                assert(colv == columns@[ci as int].deep_view());
            }
            let col = &columns[ci];
            let mut oi: usize = 0;
            while oi < col.options.len()
                invariant
                    oi <= col.options.len(),
                    primary_key.deep_view() == (match last_pk_in_options(
                        colv.name,
                        colv.options.take(oi as int),
                    ) {
                        Some(pk) => Some(pk),
                        None => inline_pk(colsv.take(ci as int)),
                    }),
                    foreign_keys.deep_view() == inline_fks(colsv.take(ci as int))
                        + fks_in_options(colv.name, colv.options.take(oi as int)),
                decreases col.options.len() - oi,
            {
                proof {
                    assert(col.name@ == colv.name);
                    assert(colv.options[oi as int] == col.options@[oi as int].deep_view());
                    assert(colv.options.take(oi + 1) =~= colv.options.take(oi as int).push(
                        colv.options[oi as int],
                    ));
                    assert(colv.options.take(oi + 1).drop_last() =~= colv.options.take(oi as int));
                    assert(colv.options.take(oi + 1).last() == colv.options[oi as int]);
                }
                match PrimaryKey::from_column_option(col.name.as_str(), &col.options[oi]) {
                    Some(pk) => {
                        primary_key = Some(pk);
                    },
                    None => {},
                }
                let ghost fkd = foreign_keys.deep_view();
                let ghost fkold = foreign_keys@;
                match ForeignKey::from_column_option(col.name.as_str(), &col.options[oi]) {
                    Some(fk) => {
                        foreign_keys.push(fk);
                        proof {
                            assert forall|j: int| 0 <= j < fkold.len() implies
                                #[trigger] foreign_keys.deep_view()[j] == fkd[j] by {
                                assert(foreign_keys.deep_view()[j] == foreign_keys@[j].deep_view());
                                assert(fkd[j] == fkold[j].deep_view());
                            }
                            assert(foreign_keys.deep_view()[fkold.len() as int]
                                == foreign_keys@[fkold.len() as int].deep_view());
                            assert(foreign_keys.deep_view() =~= fkd.push(fk.deep_view()));
                            assert(fks_in_options(colv.name, colv.options.take(oi + 1))
                                =~= fks_in_options(colv.name, colv.options.take(oi as int)).push(
                                fk.deep_view(),
                            ));
                            assert(foreign_keys.deep_view() =~= inline_fks(colsv.take(ci as int))
                                + fks_in_options(colv.name, colv.options.take(oi + 1)));
                        }
                    },
                    None => {},
                }
                oi = oi + 1;
            }
            proof {
                assert(colv.options.take(col.options@.len() as int) =~= colv.options);
                assert(colsv.take(ci + 1).drop_last() =~= colsv.take(ci as int));
                assert(colsv.take(ci + 1).last() == colv);
            }
            ci = ci + 1;
        }
        let mut t = Table {
            rel: Some(
                Identifier { catalog: String::new(), schema: schema_name, name: table_name },
            ),
            comment: String::new(),
            columns: cols,
            primary_key,
            foreign_keys,
            indexes: Vec::new(),
        };
        let ghost base = t.deep_view();
        proof {
            assert(base =~~= table_of_create(name_parts.deep_view(), colsv, Seq::empty()));
        }
        let mut cs = constraints;
        let ghost consv = cs.deep_view();
        let total: usize = cs.len();
        let mut k: usize = 0;
        while k < total
            invariant
                k <= total,
                total == consv.len(),
                cs.deep_view() == consv.skip(k as int),
                t.deep_view() == apply_constraints(base, consv.take(k as int)),
            decreases total - k,
        {
            let ghost oldcs = cs@;
            let ghost olddeep = cs.deep_view();
            proof {
                assert(olddeep[0] == oldcs[0].deep_view());
                assert(olddeep[0] == consv.skip(k as int)[0]);
            }
            let c = cs.remove(0);
            proof {
                assert(c.deep_view() == consv[k as int]);
                assert(oldcs.remove(0) =~= oldcs.skip(1));
                assert forall|j: int| 0 <= j < cs@.len() implies #[trigger] cs.deep_view()[j]
                    == consv.skip(k + 1)[j] by {
                    assert(cs.deep_view()[j] == cs@[j].deep_view());
                    assert(cs@[j] == oldcs[j + 1]);
                    assert(oldcs[j + 1].deep_view() == olddeep[j + 1]);
                    assert(olddeep[j + 1] == consv.skip(k as int)[j + 1]);
                }
                assert(cs.deep_view() =~= consv.skip(k + 1));
            }
            t.add_constraint(c);
            proof {
                assert(consv.take(k + 1).drop_last() =~= consv.take(k as int));
                assert(consv.take(k + 1).last() == consv[k as int]);
            }
            k = k + 1;
        }
        proof {
            assert(consv.take(total as int) =~= consv);
            assert(t.deep_view() == apply_constraints(base, consv));
            lemma_apply_constraints_base(
                name_parts.deep_view(),
                colsv,
                consv,
            );
        }
        t
    }
}

/// Applying the table-level constraints to the inline-extracted table is
/// exactly what a CREATE TABLE statement extracts to.
proof fn lemma_apply_constraints_base(
    parts: Seq<Seq<char>>,
    cols: Seq<ColumnDefNodeView>,
    cons: Seq<crate::stmt::ConstraintNodeView>,
)
    ensures
        apply_constraints(table_of_create(parts, cols, Seq::empty()), cons) == table_of_create(
            parts,
            cols,
            cons,
        ),
    decreases cons.len(),
{
    if cons.len() == 0 {
    } else {
        lemma_apply_constraints_base(parts, cols, cons.drop_last());
    }
}

} // verus!
