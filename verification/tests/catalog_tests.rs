use sqlc_gen_core::catalog::{Column, ForeignKey, Identifier, Index, PrimaryKey, Schema, Table};

#[test]
fn test_schema_default() {
    let schema = Schema::default();
    assert_eq!(schema.name, "");
    assert!(schema.tables.is_empty());
}

#[test]
fn test_schema_clone() {
    let schema = Schema { name: "test".to_string(), ..Default::default() };

    let cloned = schema.clone();
    assert_eq!(schema, cloned);
}

#[test]
fn test_table_qualified_name_with_schema() {
    let table = Table::new_for_test("users", Some("public"));
    assert_eq!(table.qualified_name(), "public.users");
}

#[test]
fn test_table_qualified_name_without_schema() {
    let table = Table::new_for_test("users", None);
    assert_eq!(table.qualified_name(), "users");
}

#[test]
fn test_table_qualified_name_with_empty_schema() {
    let table = Table::new_for_test("users", Some(""));
    assert_eq!(table.qualified_name(), "users");
}

#[test]
fn test_table_has_primary_key_true() {
    let mut table = Table::new_for_test("users", None);
    table.primary_key = Some(PrimaryKey { name: String::new(), columns: vec!["id".to_string()] });
    assert!(table.has_primary_key());
}

#[test]
fn test_table_has_primary_key_false() {
    let table = Table::new_for_test("users", None);
    assert!(!table.has_primary_key());
}

#[test]
fn test_table_clone() {
    let table = Table::new_for_test("users", None);
    let cloned = table.clone();
    assert_eq!(table, cloned);
}

#[test]
fn test_column_clone() {
    let column = Column {
        name: "test".to_string(),
        not_null: false,
        is_array: false,
        comment: String::new(),
        length: 0,
        is_named_param: false,
        is_func_call: false,
        scope: String::new(),
        table: None,
        table_alias: String::new(),
        type_ref: Some(Identifier {
            catalog: String::new(),
            schema: String::new(),
            name: "INTEGER".to_string(),
        }),
        is_sqlc_slice: false,
        embed_table: None,
        original_name: "test".to_string(),
        unsigned: false,
        array_dims: 0,
    };

    let cloned = column.clone();
    assert_eq!(column, cloned);
}

#[test]
fn test_index_contains() {
    let index = Index {
        name: "idx_test".to_string(),
        columns: vec!["col1".to_string(), "col2".to_string()],
        unique: false,
    };

    assert!(index.contains("col1"));
    assert!(index.contains("col2"));
    assert!(!index.contains("col3"));
}

#[test]
fn test_index_is_unique_on_true() {
    let index = Index {
        name: "idx_email".to_string(),
        columns: vec!["email".to_string()],
        unique: true,
    };

    assert!(index.is_unique_on("email"));
}

#[test]
fn test_index_is_unique_on_false_not_unique() {
    let index = Index {
        name: "idx_email".to_string(),
        columns: vec!["email".to_string()],
        unique: false,
    };

    assert!(!index.is_unique_on("email"));
}

#[test]
fn test_index_is_unique_on_false_multi_column() {
    let index = Index {
        name: "idx_name".to_string(),
        columns: vec!["first_name".to_string(), "last_name".to_string()],
        unique: true,
    };

    assert!(!index.is_unique_on("first_name"));
}

#[test]
fn test_index_is_unique_on_false_wrong_column() {
    let index = Index {
        name: "idx_email".to_string(),
        columns: vec!["email".to_string()],
        unique: true,
    };

    assert!(!index.is_unique_on("username"));
}

#[test]
fn test_index_clone() {
    let index = Index { name: "idx_test".to_string(), columns: vec!["col1".to_string()], unique: true };

    let cloned = index.clone();
    assert_eq!(index, cloned);
}

#[test]
fn test_primary_key_contains() {
    let pk = PrimaryKey {
        name: String::new(),
        columns: vec!["id".to_string(), "tenant_id".to_string()],
    };

    assert!(pk.contains("id"));
    assert!(pk.contains("tenant_id"));
    assert!(!pk.contains("email"));
}

#[test]
fn test_primary_key_clone() {
    let pk = PrimaryKey { name: "pk_users".to_string(), columns: vec!["id".to_string()] };

    let cloned = pk.clone();
    assert_eq!(pk, cloned);
}

#[test]
fn test_foreign_key_references() {
    let fk = ForeignKey {
        name: String::new(),
        columns: vec!["user_id".to_string()],
        referenced_table: "users".to_string(),
        referenced_columns: vec!["id".to_string()],
        on_delete: String::new(),
        on_update: String::new(),
    };

    assert!(fk.references("users"));
    assert!(!fk.references("posts"));
}

#[test]
fn test_foreign_key_contains() {
    let fk = ForeignKey {
        name: String::new(),
        columns: vec!["user_id".to_string(), "tenant_id".to_string()],
        referenced_table: "users".to_string(),
        referenced_columns: vec!["id".to_string(), "tenant_id".to_string()],
        on_delete: String::new(),
        on_update: String::new(),
    };

    assert!(fk.contains("user_id"));
    assert!(fk.contains("tenant_id"));
    assert!(!fk.contains("post_id"));
}

#[test]
fn test_foreign_key_clone() {
    let fk = ForeignKey {
        name: "fk_user".to_string(),
        columns: vec!["user_id".to_string()],
        referenced_table: "users".to_string(),
        referenced_columns: vec!["id".to_string()],
        on_delete: "CASCADE".to_string(),
        on_update: String::new(),
    };

    let cloned = fk.clone();
    assert_eq!(fk, cloned);
}
