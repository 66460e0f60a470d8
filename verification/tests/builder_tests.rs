use sqlc_gen_core::builder::CatalogBuilder;

#[test]
fn test_builder_new() {
    let builder = CatalogBuilder::new("postgresql");
    assert_eq!(builder.dialect, "postgresql");
    assert!(builder.schemas.is_empty());
}

#[test]
fn test_builder_default() {
    let builder = CatalogBuilder::default();
    assert_eq!(builder.dialect, "generic");
    assert!(builder.schemas.is_empty());
}

#[test]
fn test_builder_parse_simple_table() {
    let sql = "CREATE TABLE users (id INTEGER PRIMARY KEY)";

    let mut builder = CatalogBuilder::new("generic");
    let result = builder.parse_sql(sql);
    assert!(result.is_ok());

    assert_eq!(builder.schemas.len(), 1);
    let schema = builder.get_schema("").unwrap();
    assert_eq!(schema.tables.len(), 1);
    assert!(schema.tables.iter().any(|t| t.rel.as_ref().unwrap().name == "users"));
}

#[test]
fn test_builder_parse_qualified_table() {
    let sql = "CREATE TABLE public.users (id INTEGER PRIMARY KEY)";

    let mut builder = CatalogBuilder::new("postgresql");
    let result = builder.parse_sql(sql);
    assert!(result.is_ok());

    assert_eq!(builder.schemas.len(), 1);
    let schema = builder.get_schema("public").unwrap();
    assert_eq!(schema.name, "public");
    assert!(schema.tables.iter().any(|t| t.rel.as_ref().unwrap().name == "users"));
}

#[test]
fn test_builder_parse_multiple_tables() {
    let sql = r#"
            CREATE TABLE users (id INTEGER PRIMARY KEY);
            CREATE TABLE posts (id INTEGER PRIMARY KEY, user_id INTEGER);
        "#;

    let mut builder = CatalogBuilder::new("generic");
    let result = builder.parse_sql(sql);
    assert!(result.is_ok());

    let schema = builder.get_schema("").unwrap();
    assert_eq!(schema.tables.len(), 2);
    assert!(schema.tables.iter().any(|t| t.rel.as_ref().unwrap().name == "users"));
    assert!(schema.tables.iter().any(|t| t.rel.as_ref().unwrap().name == "posts"));
}

#[test]
fn test_builder_parse_create_index() {
    let sql = r#"
            CREATE TABLE users (id INTEGER PRIMARY KEY, email VARCHAR(255));
            CREATE INDEX idx_email ON users (email);
        "#;

    let mut builder = CatalogBuilder::new("generic");
    let result = builder.parse_sql(sql);
    assert!(result.is_ok());

    let schema = builder.get_schema("").unwrap();
    let table = &schema.tables[0];
    assert_eq!(table.indexes.len(), 1);
    assert_eq!(table.indexes[0].name, "idx_email");
}

#[test]
fn test_builder_parse_alter_table() {
    let sql = r#"
            CREATE TABLE users (id INTEGER, email VARCHAR(255));
            ALTER TABLE users ADD CONSTRAINT pk_users PRIMARY KEY (id);
        "#;

    let mut builder = CatalogBuilder::new("generic");
    let result = builder.parse_sql(sql);
    assert!(result.is_ok());

    let schema = builder.get_schema("").unwrap();
    let table = &schema.tables[0];
    assert!(table.primary_key.is_some());
    assert_eq!(table.primary_key.as_ref().unwrap().columns, vec!["id"]);
}

#[test]
fn test_builder_clone() {
    let sql = "CREATE TABLE users (id INTEGER PRIMARY KEY)";

    let mut builder = CatalogBuilder::new("postgresql");
    builder.parse_sql(sql).unwrap();

    let cloned = builder.clone();
    assert_eq!(builder, cloned);
}

#[test]
fn test_builder_build() {
    let sql = "CREATE TABLE public.users (id INTEGER PRIMARY KEY)";

    let mut builder = CatalogBuilder::new("postgresql");
    builder.parse_sql(sql).unwrap();

    let catalog = builder.build();
    assert_eq!(catalog.schemas.len(), 1);
    assert_eq!(catalog.schemas[0].name, "public");
    assert_eq!(catalog.schemas[0].tables.len(), 1);
}

#[test]
fn test_builder_merge_catalog_disjoint_schemas() {
    let sql = "CREATE TABLE public.users (id int)";
    let mut builder = CatalogBuilder::new("postgresql");
    builder.parse_sql(sql).unwrap();

    let sql = "CREATE TABLE auth.accounts (id int)";
    let mut other_builder = CatalogBuilder::new("postgresql");
    other_builder.parse_sql(sql).unwrap();

    let other_catalog = other_builder.build();
    builder.merge_catalog(other_catalog);

    let final_catalog = builder.build();
    assert_eq!(final_catalog.schemas.len(), 2);
    assert!(final_catalog.schemas.iter().any(|s| s.name == "public"));
    assert!(final_catalog.schemas.iter().any(|s| s.name == "auth"));
}

#[test]
fn test_builder_merge_catalog_into_existing_schema() {
    let sql = "CREATE TABLE users (id int)";
    let mut builder = CatalogBuilder::new("postgresql");
    builder.parse_sql(sql).unwrap();

    let sql = "CREATE TABLE posts (id int)";
    let mut other_builder = CatalogBuilder::new("postgresql");
    other_builder.parse_sql(sql).unwrap();

    let other_catalog = other_builder.build();
    builder.merge_catalog(other_catalog);

    let final_catalog = builder.build();
    assert_eq!(final_catalog.schemas.len(), 1);

    let schema = &final_catalog.schemas[0];
    assert_eq!(schema.tables.len(), 2);

    assert!(schema.tables.iter().any(|t| t.rel.as_ref().unwrap().name == "users"));
    assert!(schema.tables.iter().any(|t| t.rel.as_ref().unwrap().name == "posts"));
}

#[test]
fn test_builder_merge_catalog_with_duplicates() {
    let sql = "CREATE TABLE users (id int)";
    let mut builder = CatalogBuilder::new("postgresql");
    builder.parse_sql(sql).unwrap();

    let sql = "CREATE TABLE users (id int, name text); CREATE TABLE posts (id int)";
    let mut other_builder = CatalogBuilder::new("postgresql");
    other_builder.parse_sql(sql).unwrap();

    let other_catalog = other_builder.build();
    builder.merge_catalog(other_catalog);

    let final_catalog = builder.build();
    assert_eq!(final_catalog.schemas.len(), 1);

    let schema = &final_catalog.schemas[0];
    assert_eq!(schema.tables.len(), 2); // Should not add the duplicate 'users' table

    let users_table = schema
        .tables
        .iter()
        .find(|t| t.rel.as_ref().unwrap().name == "users")
        .unwrap();
    // The original table (with 1 column) should be preserved, not the new one (with 2 columns)
    assert_eq!(users_table.columns.len(), 1);
}

#[test]
fn test_schema_with_tables() {
    let mut builder = CatalogBuilder::new("generic");
    let sql = "CREATE TABLE myschema.users (id INTEGER PRIMARY KEY)";
    builder.parse_sql(sql).unwrap();

    let schema = builder.get_schema("myschema").unwrap();
    assert_eq!(schema.name, "myschema");
    assert_eq!(schema.tables.len(), 1);
}

#[test]
fn test_complete_schema_parsing() {
    let sql = r#"
            CREATE TABLE users (
                id INTEGER PRIMARY KEY,
                email VARCHAR(255) NOT NULL,
                created_at TIMESTAMP DEFAULT CURRENT_TIMESTAMP
            );

            CREATE TABLE posts (
                id INTEGER PRIMARY KEY,
                user_id INTEGER NOT NULL,
                title VARCHAR(255) NOT NULL,
                content TEXT,
                FOREIGN KEY (user_id) REFERENCES users(id) ON DELETE CASCADE
            );

            CREATE INDEX idx_posts_user_id ON posts (user_id);
            CREATE UNIQUE INDEX idx_users_email ON users (email);
        "#;

    let mut builder = CatalogBuilder::new("postgresql");
    builder.parse_sql(sql).unwrap();

    let schema = builder.get_schema("").unwrap();
    assert_eq!(schema.tables.len(), 2);

    let users_table = &schema
        .tables
        .iter()
        .find(|t| t.rel.as_ref().unwrap().name == "users")
        .unwrap();
    assert_eq!(users_table.columns.len(), 3);
    assert!(users_table.has_primary_key());
    assert_eq!(users_table.indexes.len(), 1);

    let posts_table = &schema
        .tables
        .iter()
        .find(|t| t.rel.as_ref().unwrap().name == "posts")
        .unwrap();
    assert_eq!(posts_table.foreign_keys.len(), 1);
    assert_eq!(posts_table.indexes.len(), 1);
}

#[test]
fn test_multiple_schemas() {
    let sql = r#"
            CREATE TABLE public.users (id INTEGER PRIMARY KEY);
            CREATE TABLE auth.sessions (id INTEGER PRIMARY KEY);
        "#;

    let mut builder = CatalogBuilder::new("postgresql");
    builder.parse_sql(sql).unwrap();

    assert_eq!(builder.schemas.len(), 2);
    assert!(builder.get_schema("public").is_some());
    assert!(builder.get_schema("auth").is_some());
}
