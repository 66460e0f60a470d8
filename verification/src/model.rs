//! Mathematical models of the catalog data types.
//!
//! Each executable type of the catalog has a model here, with character
//! sequences for strings and sequences for vectors; contracts and the
//! semantics of statement application are stated over these models.

use vstd::prelude::*;

verus! {

/// Model of a qualified relation or type name.
#[verifier::ext_equal]
pub struct IdentifierView {
    pub catalog: Seq<char>,
    pub schema: Seq<char>,
    pub name: Seq<char>,
}

/// Model of a table column.
#[verifier::ext_equal]
pub struct ColumnView {
    pub name: Seq<char>,
    pub not_null: bool,
    pub is_array: bool,
    pub comment: Seq<char>,
    pub length: i32,
    pub is_named_param: bool,
    pub is_func_call: bool,
    pub scope: Seq<char>,
    pub table: Option<IdentifierView>,
    pub table_alias: Seq<char>,
    pub type_ref: Option<IdentifierView>,
    pub is_sqlc_slice: bool,
    pub embed_table: Option<IdentifierView>,
    pub original_name: Seq<char>,
    pub unsigned: bool,
    pub array_dims: i32,
}

/// Model of a primary key.
#[verifier::ext_equal]
pub struct PrimaryKeyView {
    pub name: Seq<char>,
    pub columns: Seq<Seq<char>>,
}

/// Model of a foreign key.
#[verifier::ext_equal]
pub struct ForeignKeyView {
    pub name: Seq<char>,
    pub columns: Seq<Seq<char>>,
    pub referenced_table: Seq<char>,
    pub referenced_columns: Seq<Seq<char>>,
    pub on_delete: Seq<char>,
    pub on_update: Seq<char>,
}

/// Model of an index.
#[verifier::ext_equal]
pub struct IndexView {
    pub name: Seq<char>,
    pub columns: Seq<Seq<char>>,
    pub unique: bool,
}

/// Model of a table.
#[verifier::ext_equal]
pub struct TableView {
    pub rel: Option<IdentifierView>,
    pub comment: Seq<char>,
    pub columns: Seq<ColumnView>,
    pub primary_key: Option<PrimaryKeyView>,
    pub foreign_keys: Seq<ForeignKeyView>,
    pub indexes: Seq<IndexView>,
}

/// Model of an enumerated type definition.
#[verifier::ext_equal]
pub struct EnumView {
    pub name: Seq<char>,
    pub vals: Seq<Seq<char>>,
    pub comment: Seq<char>,
}

/// Model of a composite type definition.
#[verifier::ext_equal]
pub struct CompositeTypeView {
    pub name: Seq<char>,
    pub comment: Seq<char>,
}

/// Model of a schema.
#[verifier::ext_equal]
pub struct SchemaView {
    pub name: Seq<char>,
    pub comment: Seq<char>,
    pub tables: Seq<TableView>,
    pub enums: Seq<EnumView>,
    pub composite_types: Seq<CompositeTypeView>,
}

/// Model of a catalog.
#[verifier::ext_equal]
pub struct CatalogView {
    pub name: Seq<char>,
    pub default_schema: Seq<char>,
    pub comment: Seq<char>,
    pub schemas: Seq<SchemaView>,
}

/// A schema with the given name and nothing in it.
pub open spec fn empty_schema(name: Seq<char>) -> SchemaView {
    SchemaView {
        name: name,
        comment: Seq::empty(),
        tables: Seq::empty(),
        enums: Seq::empty(),
        composite_types: Seq::empty(),
    }
}

/// True when the table is named `name` through its relation identifier.
pub open spec fn table_has_name(t: TableView, name: Seq<char>) -> bool {
    t.rel is Some && t.rel->Some_0.name == name
}

/// Index of the first schema named `name`, or -1 when there is none.
pub open spec fn schema_index(ss: Seq<SchemaView>, name: Seq<char>) -> int
    decreases ss.len(),
{
    if ss.len() == 0 {
        -1
    } else if ss[0].name == name {
        0
    } else {
        let r = schema_index(ss.skip(1), name);
        if r == -1 {
            -1
        } else {
            r + 1
        }
    }
}

/// `schema_index` finds the first schema of the given name, when one is there.
pub proof fn lemma_schema_index(ss: Seq<SchemaView>, name: Seq<char>)
    ensures
        schema_index(ss, name) == -1 ==> forall|i: int|
            0 <= i < ss.len() ==> (#[trigger] ss[i]).name != name,
        schema_index(ss, name) != -1 ==> {
            let k = schema_index(ss, name);
            &&& 0 <= k < ss.len()
            &&& ss[k].name == name
            &&& forall|j: int| 0 <= j < k ==> (#[trigger] ss[j]).name != name
        },
    decreases ss.len(),
{
    if ss.len() > 0 && ss[0].name != name {
        let tail = ss.skip(1);
        lemma_schema_index(tail, name);
        let r = schema_index(tail, name);
        if r == -1 {
            assert forall|i: int| 0 <= i < ss.len() implies (#[trigger] ss[i]).name != name by {
                if i > 0 {
                    assert(tail[i - 1] == ss[i]);
                }
            }
        } else {
            assert(tail[r] == ss[r + 1]);
            assert forall|j: int| 0 <= j < r + 1 implies (#[trigger] ss[j]).name != name by {
                if j > 0 {
                    assert(tail[j - 1] == ss[j]);
                }
            }
        }
    }
}

/// Index of the first table named `name`, or -1 when there is none.
pub open spec fn table_index(ts: Seq<TableView>, name: Seq<char>) -> int
    decreases ts.len(),
{
    if ts.len() == 0 {
        -1
    } else if table_has_name(ts[0], name) {
        0
    } else {
        let r = table_index(ts.skip(1), name);
        if r == -1 {
            -1
        } else {
            r + 1
        }
    }
}

/// `table_index` finds the first table of the given name, when one is there.
pub proof fn lemma_table_index(ts: Seq<TableView>, name: Seq<char>)
    ensures
        table_index(ts, name) == -1 ==> forall|i: int|
            0 <= i < ts.len() ==> !table_has_name(#[trigger] ts[i], name),
        table_index(ts, name) != -1 ==> {
            let k = table_index(ts, name);
            &&& 0 <= k < ts.len()
            &&& table_has_name(ts[k], name)
            &&& forall|j: int| 0 <= j < k ==> !table_has_name(#[trigger] ts[j], name)
        },
    decreases ts.len(),
{
    if ts.len() > 0 && !table_has_name(ts[0], name) {
        let tail = ts.skip(1);
        lemma_table_index(tail, name);
        let r = table_index(tail, name);
        if r == -1 {
            assert forall|i: int| 0 <= i < ts.len() implies !table_has_name(
                #[trigger] ts[i],
                name,
            ) by {
                if i > 0 {
                    assert(tail[i - 1] == ts[i]);
                }
            }
        } else {
            assert(tail[r] == ts[r + 1]);
            assert forall|j: int| 0 <= j < r + 1 implies !table_has_name(
                #[trigger] ts[j],
                name,
            ) by {
                if j > 0 {
                    assert(tail[j - 1] == ts[j]);
                }
            }
        }
    }
}

/// True when `name` occurs in the sequence of names.
pub open spec fn contains_name(xs: Seq<Seq<char>>, name: Seq<char>) -> bool {
    exists|i: int| 0 <= i < xs.len() && #[trigger] xs[i] == name
}

/// True when some enum definition in the sequence is named `name`.
pub open spec fn has_enum(es: Seq<EnumView>, name: Seq<char>) -> bool {
    exists|i: int| 0 <= i < es.len() && (#[trigger] es[i]).name == name
}

/// True when some composite type in the sequence is named `name`.
pub open spec fn has_composite(cs: Seq<CompositeTypeView>, name: Seq<char>) -> bool {
    exists|i: int| 0 <= i < cs.len() && (#[trigger] cs[i]).name == name
}

/// The deep view of a vector indexes to the element's deep view.
pub proof fn lemma_deep_view_index<T: DeepView>(v: &Vec<T>, i: int)
    requires
        0 <= i < v@.len(),
    ensures
        v.deep_view().len() == v@.len(),
        v.deep_view()[i] == v@[i].deep_view(),
{
}

/// Pushing onto a vector pushes onto its deep view.
pub proof fn lemma_deep_view_push<T: DeepView>(pre: Vec<T>, post: Vec<T>, x: T)
    requires
        post@ == pre@.push(x),
    ensures
        post.deep_view() == pre.deep_view().push(x.deep_view()),
{
    assert forall|j: int| 0 <= j < post@.len() implies #[trigger] post.deep_view()[j]
        == pre.deep_view().push(x.deep_view())[j] by {
        assert(post.deep_view()[j] == post@[j].deep_view());
        if j < pre@.len() {
            assert(pre.deep_view()[j] == pre@[j].deep_view());
        }
    }
    assert(post.deep_view() =~= pre.deep_view().push(x.deep_view()));
}

/// Updating one element of a vector updates its deep view at that index.
pub proof fn lemma_deep_view_update<T: DeepView>(pre: Vec<T>, post: Vec<T>, i: int, x: T)
    requires
        0 <= i < pre@.len(),
        post@ == pre@.update(i, x),
    ensures
        post.deep_view() == pre.deep_view().update(i, x.deep_view()),
{
    assert forall|j: int| 0 <= j < post@.len() implies #[trigger] post.deep_view()[j]
        == pre.deep_view().update(i, x.deep_view())[j] by {
        assert(post.deep_view()[j] == post@[j].deep_view());
        if j != i {
            assert(pre.deep_view()[j] == pre@[j].deep_view());
        }
    }
    assert(post.deep_view() =~= pre.deep_view().update(i, x.deep_view()));
}

/// Removing the first element of a vector drops the first element of its
/// deep view.
pub proof fn lemma_deep_view_remove_first<T: DeepView>(pre: Vec<T>, post: Vec<T>, x: T)
    requires
        pre@.len() > 0,
        post@ == pre@.remove(0),
        x == pre@[0],
    ensures
        post.deep_view() == pre.deep_view().skip(1),
        x.deep_view() == pre.deep_view()[0],
{
    assert(x.deep_view() == pre.deep_view()[0]);
    assert forall|j: int| 0 <= j < post@.len() implies #[trigger] post.deep_view()[j]
        == pre.deep_view().skip(1)[j] by {
        assert(post.deep_view()[j] == post@[j].deep_view());
        assert(post@[j] == pre@[j + 1]);
        assert(pre.deep_view()[j + 1] == pre@[j + 1].deep_view());
    }
    assert(post.deep_view() =~= pre.deep_view().skip(1));
}

/// Removing an element and putting another back in its place is an
/// update, on the vector's deep view.
pub proof fn lemma_deep_view_remove_insert<T: DeepView>(
    pre: Vec<T>,
    mid: Vec<T>,
    post: Vec<T>,
    i: int,
    x: T,
)
    requires
        0 <= i < pre@.len(),
        mid@ == pre@.remove(i),
        post@ == mid@.insert(i, x),
    ensures
        post.deep_view() == pre.deep_view().update(i, x.deep_view()),
{
    assert(post@ =~= pre@.update(i, x));
    lemma_deep_view_update(pre, post, i, x);
}

/// No two tables that carry a relation name carry the same one.
pub open spec fn tables_unique(ts: Seq<TableView>) -> bool {
    forall|i: int, j: int|
        0 <= i < j < ts.len() && (#[trigger] ts[i]).rel is Some && (#[trigger] ts[j]).rel is Some
            ==> ts[i].rel->Some_0.name != ts[j].rel->Some_0.name
}

/// No two enum definitions carry the same name.
pub open spec fn enums_unique(es: Seq<EnumView>) -> bool {
    forall|i: int, j: int|
        0 <= i < j < es.len() ==> (#[trigger] es[i]).name != (#[trigger] es[j]).name
}

/// No two composite types carry the same name.
pub open spec fn composites_unique(cs: Seq<CompositeTypeView>) -> bool {
    forall|i: int, j: int|
        0 <= i < j < cs.len() ==> (#[trigger] cs[i]).name != (#[trigger] cs[j]).name
}

/// Well-formedness of one schema: named tables are unique by name, and
/// enum and composite type definitions are unique by name.
pub open spec fn schema_wf(s: SchemaView) -> bool {
    &&& tables_unique(s.tables)
    &&& enums_unique(s.enums)
    &&& composites_unique(s.composite_types)
}

/// Well-formedness of an accumulated schema sequence: schemas are unique
/// by name and each schema is well formed.
pub open spec fn schemas_wf(ss: Seq<SchemaView>) -> bool {
    &&& forall|i: int, j: int|
        0 <= i < j < ss.len() ==> (#[trigger] ss[i]).name != (#[trigger] ss[j]).name
    &&& forall|i: int| 0 <= i < ss.len() ==> schema_wf(#[trigger] ss[i])
}

} // verus!
