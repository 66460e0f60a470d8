use sqlc_gen_core::builder::CatalogBuilder;

#[test]
fn test_table_from_create_table_simple() {
    let sql = "CREATE TABLE users (id INTEGER PRIMARY KEY, name VARCHAR(255))";

    let mut builder = CatalogBuilder::new("generic");
    builder.parse_sql(sql).unwrap();

    let schema = builder.get_schema("").unwrap();
    let table = &schema.tables[0];
    assert_eq!(table.rel.as_ref().unwrap().name, "users");
    assert_eq!(table.rel.as_ref().unwrap().schema, "");
    assert_eq!(table.columns.len(), 2);
    assert!(table.has_primary_key());
}

#[test]
fn test_table_from_create_table_with_schema() {
    let sql = "CREATE TABLE public.users (id INTEGER)";

    let mut builder = CatalogBuilder::new("postgresql");
    builder.parse_sql(sql).unwrap();

    let schema = builder.get_schema("public").unwrap();
    let table = &schema.tables[0];

    assert_eq!(table.rel.as_ref().unwrap().name, "users");
    assert_eq!(table.rel.as_ref().unwrap().schema, "public");
}

#[test]
fn test_column_nullable_by_default() {
    let sql = "CREATE TABLE users (name VARCHAR(255))";

    let mut builder = CatalogBuilder::new("generic");
    builder.parse_sql(sql).unwrap();

    let schema = builder.get_schema("").unwrap();
    let table = &schema.tables[0];
    let column = &table.columns[0];

    assert_eq!(column.name, "name");
    assert!(!column.not_null);
}

#[test]
fn test_column_not_null_constraint() {
    let mut builder = CatalogBuilder::new("generic");
    let sql = "CREATE TABLE users (name VARCHAR(255) NOT NULL)";
    builder.parse_sql(sql).unwrap();

    let schema = builder.get_schema("").unwrap();
    let table = &schema.tables[0];
    let column = &table.columns[0];

    assert_eq!(column.name, "name");
    assert!(column.not_null);
}

#[test]
fn test_column_primary_key_not_nullable() {
    let sql = "CREATE TABLE users (id INTEGER PRIMARY KEY)";

    let mut builder = CatalogBuilder::new("generic");
    builder.parse_sql(sql).unwrap();

    let schema = builder.get_schema("").unwrap();
    let table = &schema.tables[0];
    let column = &table.columns[0];

    assert_eq!(column.name, "id");
    assert!(column.not_null);
}

#[test]
fn test_column_default_value() {
    let sql = "CREATE TABLE users (status VARCHAR(50) DEFAULT 'active')";

    let mut builder = CatalogBuilder::new("generic");
    builder.parse_sql(sql).unwrap();

    let schema = builder.get_schema("").unwrap();
    let table = &schema.tables[0];
    let column = &table.columns[0];

    assert_eq!(column.name, "status");
    // Note: default values are not stored in the catalog's Column
}

#[test]
fn test_column_data_type() {
    let sql = "CREATE TABLE users (id INTEGER, name VARCHAR(255), created_at TIMESTAMP)";

    let mut builder = CatalogBuilder::new("generic");
    builder.parse_sql(sql).unwrap();

    let schema = builder.get_schema("").unwrap();
    let table = &schema.tables[0];

    assert_eq!(table.columns[0].type_ref.as_ref().unwrap().name, "INTEGER");
    assert!(table.columns[1].type_ref.as_ref().unwrap().name.contains("VARCHAR"));
    assert_eq!(table.columns[2].type_ref.as_ref().unwrap().name, "TIMESTAMP");
}

#[test]
fn test_index_from_create_index() {
    let sql = r#"
            CREATE TABLE users (email VARCHAR(255));
            CREATE INDEX idx_email ON users (email);
        "#;

    let mut builder = CatalogBuilder::new("generic");
    builder.parse_sql(sql).unwrap();

    let schema = builder.get_schema("").unwrap();
    let table = &schema.tables[0];

    assert_eq!(table.indexes.len(), 1);
    assert_eq!(table.indexes[0].name, "idx_email");
    assert_eq!(table.indexes[0].columns, vec!["email"]);
    assert!(!table.indexes[0].unique);
}

#[test]
fn test_index_unique() {
    let sql = r#"
            CREATE TABLE users (email VARCHAR(255));
            CREATE UNIQUE INDEX idx_email ON users (email);
        "#;

    let mut builder = CatalogBuilder::new("generic");
    builder.parse_sql(sql).unwrap();

    let schema = builder.get_schema("").unwrap();
    let table = &schema.tables[0];

    assert_eq!(table.indexes.len(), 1);
    assert!(table.indexes[0].unique);
}

#[test]
fn test_index_multi_column() {
    let sql = r#"
            CREATE TABLE users (first_name VARCHAR(255), last_name VARCHAR(255));
            CREATE INDEX idx_name ON users (first_name, last_name);
        "#;

    let mut builder = CatalogBuilder::new("generic");
    builder.parse_sql(sql).unwrap();

    let schema = builder.get_schema("").unwrap();
    let table = &schema.tables[0];

    assert_eq!(table.indexes.len(), 1);
    assert_eq!(table.indexes[0].columns.len(), 2);
    assert_eq!(table.indexes[0].columns, vec!["first_name", "last_name"]);
}

#[test]
fn test_primary_key_single_column() {
    let sql = "CREATE TABLE users (id INTEGER PRIMARY KEY)";

    let mut builder = CatalogBuilder::new("generic");
    builder.parse_sql(sql).unwrap();

    let schema = builder.get_schema("").unwrap();
    let table = &schema.tables[0];
    let pk = table.primary_key.as_ref().unwrap();

    assert_eq!(pk.columns.len(), 1);
    assert_eq!(pk.columns[0], "id");
}

#[test]
fn test_primary_key_composite() {
    let sql =
        "CREATE TABLE user_roles (user_id INTEGER, role_id INTEGER, PRIMARY KEY (user_id, role_id))";

    let mut builder = CatalogBuilder::new("generic");
    builder.parse_sql(sql).unwrap();

    let schema = builder.get_schema("").unwrap();
    let table = &schema.tables[0];
    let pk = table.primary_key.as_ref().unwrap();

    assert_eq!(pk.columns.len(), 2);
    assert_eq!(pk.columns, vec!["user_id", "role_id"]);
}

#[test]
fn test_primary_key_named_constraint() {
    let sql = "CREATE TABLE users (id INTEGER, CONSTRAINT pk_users PRIMARY KEY (id))";

    let mut builder = CatalogBuilder::new("generic");
    builder.parse_sql(sql).unwrap();

    let schema = builder.get_schema("").unwrap();
    let table = &schema.tables[0];
    let pk = table.primary_key.as_ref().unwrap();

    assert_eq!(pk.name, "pk_users");
    assert_eq!(pk.columns, vec!["id"]);
}

#[test]
fn test_foreign_key_inline_constraint() {
    let sql = "CREATE TABLE posts (id INTEGER, user_id INTEGER REFERENCES users(id))";

    let mut builder = CatalogBuilder::new("generic");
    builder.parse_sql(sql).unwrap();

    let schema = builder.get_schema("").unwrap();
    let table = &schema.tables[0];
    assert_eq!(table.foreign_keys.len(), 1);
    let fk = &table.foreign_keys[0];

    assert_eq!(fk.columns, vec!["user_id"]);
    assert_eq!(fk.referenced_table, "users");
    assert_eq!(fk.referenced_columns, vec!["id"]);
}

#[test]
fn test_foreign_key_table_constraint() {
    let sql = r#"
            CREATE TABLE posts (
                id INTEGER,
                user_id INTEGER,
                FOREIGN KEY (user_id) REFERENCES users(id)
            )
        "#;

    let mut builder = CatalogBuilder::new("generic");
    builder.parse_sql(sql).unwrap();

    let schema = builder.get_schema("").unwrap();
    let table = &schema
        .tables
        .iter()
        .find(|t| t.rel.as_ref().unwrap().name == "posts")
        .unwrap();

    assert_eq!(table.foreign_keys.len(), 1);
    let fk = &table.foreign_keys[0];
    assert_eq!(fk.columns, vec!["user_id"]);
    assert_eq!(fk.referenced_table, "users");
}

#[test]
fn test_foreign_key_named_constraint() {
    let sql = r#"
            CREATE TABLE posts (
                id INTEGER,
                user_id INTEGER,
                CONSTRAINT fk_user FOREIGN KEY (user_id) REFERENCES users(id)
            )
        "#;

    let mut builder = CatalogBuilder::new("generic");
    builder.parse_sql(sql).unwrap();

    let schema = builder.get_schema("").unwrap();
    let table = &schema
        .tables
        .iter()
        .find(|t| t.rel.as_ref().unwrap().name == "posts")
        .unwrap();
    let fk = &table.foreign_keys[0];

    assert!(!fk.name.is_empty());
    assert_eq!(fk.name, "fk_user");
}

#[test]
fn test_foreign_key_on_delete() {
    let sql = r#"
            CREATE TABLE posts (
                user_id INTEGER REFERENCES users(id) ON DELETE CASCADE
            )
        "#;

    let mut builder = CatalogBuilder::new("generic");
    builder.parse_sql(sql).unwrap();

    let schema = builder.get_schema("").unwrap();
    let table = &schema
        .tables
        .iter()
        .find(|t| t.rel.as_ref().unwrap().name == "posts")
        .unwrap();
    let fk = &table.foreign_keys[0];

    assert!(!fk.on_delete.is_empty());
    assert!(fk.on_delete.contains("CASCADE"));
}

#[test]
fn test_foreign_key_on_update() {
    let sql = r#"
            CREATE TABLE posts (
                user_id INTEGER REFERENCES users(id) ON UPDATE CASCADE
            )
        "#;

    let mut builder = CatalogBuilder::new("generic");
    builder.parse_sql(sql).unwrap();

    let schema = builder.get_schema("").unwrap();
    let table = &schema
        .tables
        .iter()
        .find(|t| t.rel.as_ref().unwrap().name == "posts")
        .unwrap();
    let fk = &table.foreign_keys[0];

    assert!(!fk.on_update.is_empty());
    assert!(fk.on_update.contains("CASCADE"));
}

#[test]
fn test_foreign_key_composite() {
    let sql = r#"
            CREATE TABLE order_items (
                order_id INTEGER,
                product_id INTEGER,
                FOREIGN KEY (order_id, product_id) REFERENCES orders(id, product_id)
            )
        "#;

    let mut builder = CatalogBuilder::new("generic");
    builder.parse_sql(sql).unwrap();

    let schema = builder.get_schema("").unwrap();
    let table = &schema.tables[0];
    let fk = &table.foreign_keys[0];

    assert_eq!(fk.columns.len(), 2);
    assert_eq!(fk.columns, vec!["order_id", "product_id"]);
    assert_eq!(fk.referenced_columns.len(), 2);
}
