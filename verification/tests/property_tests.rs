use sqlc_gen_core::builder::{enrich_catalog, new_builder, CatalogBuilder};
use sqlc_gen_core::catalog::{Catalog, CompositeType, Enum, Schema, Table};
use sqlc_gen_core::error::SchemaError;
use sqlc_gen_core::stmt::{ColumnDefNode, ColumnOptionNode, StatementNode};

#[test]
fn test_new_builder_accepts_every_synonym() {
    let names = ["mysql", "mariadb", "sqlite", "sqlite3", "postgres", "postgresql", "psql", "generic"];
    for name in names {
        assert!(new_builder(name).is_ok(), "dialect {} should be accepted", name);
    }
}

#[test]
fn test_new_builder_is_case_insensitive() {
    for name in ["MySQL", "POSTGRES", "SQLite3", "Generic", "MariaDB", "PSQL"] {
        assert!(new_builder(name).is_ok(), "dialect {} should be accepted", name);
    }
}

#[test]
fn test_new_builder_rejects_unknown_dialect() {
    let result = new_builder("oracle");
    match result {
        Err(SchemaError::UnknownDialect { dialect, options }) => {
            assert_eq!(dialect, "oracle");
            assert_eq!(
                options,
                vec!["mysql", "mariadb", "sqlite", "sqlite3", "postgres", "postgresql", "psql", "generic"]
            );
        }
        _ => panic!("expected an unknown-dialect error"),
    }
}

#[test]
fn test_parse_with_unknown_dialect_fails() {
    let mut builder = CatalogBuilder::new("oracle");
    let result = builder.parse_sql("CREATE TABLE users (id INTEGER)");
    match result {
        Err(SchemaError::UnknownDialect { dialect, .. }) => assert_eq!(dialect, "oracle"),
        _ => panic!("expected an unknown-dialect error"),
    }
    assert!(builder.schemas.is_empty());
}

#[test]
fn test_parse_syntax_error() {
    let mut builder = CatalogBuilder::new("generic");
    let result = builder.parse_sql("CREATE TABLE (((");
    match result {
        Err(SchemaError::SyntaxError { message }) => assert!(!message.is_empty()),
        _ => panic!("expected a syntax error"),
    }
}

#[test]
fn test_build_simple_catalog() {
    let mut builder = CatalogBuilder::new("generic");
    builder.parse_sql("CREATE TABLE users (id INTEGER PRIMARY KEY)").unwrap();

    let catalog = builder.build();
    assert_eq!(catalog.name, "");
    assert_eq!(catalog.default_schema, "");
    assert_eq!(catalog.schemas.len(), 1);
    let schema = &catalog.schemas[0];
    assert_eq!(schema.name, "");
    assert_eq!(schema.tables.len(), 1);
    let table = &schema.tables[0];
    assert_eq!(table.columns.len(), 1);
    assert_eq!(table.columns[0].name, "id");
    assert!(table.columns[0].not_null);
    assert_eq!(table.primary_key.as_ref().unwrap().columns, vec!["id"]);
}

#[test]
fn test_qualified_table_joined_name() {
    let mut builder = CatalogBuilder::new("postgresql");
    builder.parse_sql("CREATE TABLE public.users (id INTEGER)").unwrap();

    let schema = builder.get_schema("public").unwrap();
    assert_eq!(schema.name, "public");
    let table = &schema.tables[0];
    assert_eq!(table.qualified_name(), "public.users");
}

#[test]
fn test_create_index_unknown_table_ignored() {
    let mut builder = CatalogBuilder::new("generic");
    let result = builder.parse_sql("CREATE INDEX idx_e ON missing (email)");
    assert!(result.is_ok());
    assert!(builder.schemas.is_empty());
}

#[test]
fn test_missing_index_name_is_an_error() {
    let mut builder = CatalogBuilder::new("generic");
    let result = builder.parse_sql(
        "CREATE TABLE users (email VARCHAR(255)); CREATE INDEX ON users (email)",
    );
    assert!(matches!(result, Err(SchemaError::MissingIndexName)));
    // The table created before the failing statement stays committed.
    let schema = builder.get_schema("").unwrap();
    assert_eq!(schema.tables.len(), 1);
    assert!(schema.tables[0].indexes.is_empty());
}

#[test]
fn test_missing_index_name_on_unknown_table_is_ignored() {
    let mut builder = CatalogBuilder::new("generic");
    let result = builder.parse_sql("CREATE INDEX ON missing (email)");
    assert!(result.is_ok());
    assert!(builder.schemas.is_empty());
}

#[test]
fn test_create_table_again_overwrites() {
    let mut builder = CatalogBuilder::new("generic");
    builder.parse_sql("CREATE TABLE users (id INTEGER)").unwrap();
    builder.parse_sql("CREATE TABLE users (id INTEGER, name TEXT)").unwrap();

    let schema = builder.get_schema("").unwrap();
    assert_eq!(schema.tables.len(), 1);
    assert_eq!(schema.tables[0].columns.len(), 2);
}

#[test]
fn test_unnamed_unique_constraint_dropped() {
    let mut builder = CatalogBuilder::new("generic");
    builder
        .parse_sql("CREATE TABLE users (email VARCHAR(255), UNIQUE (email))")
        .unwrap();

    let schema = builder.get_schema("").unwrap();
    assert!(schema.tables[0].indexes.is_empty());
}

#[test]
fn test_named_unique_constraint_becomes_index() {
    let mut builder = CatalogBuilder::new("generic");
    builder
        .parse_sql("CREATE TABLE users (email VARCHAR(255), CONSTRAINT uq_email UNIQUE (email))")
        .unwrap();

    let schema = builder.get_schema("").unwrap();
    let table = &schema.tables[0];
    assert_eq!(table.indexes.len(), 1);
    assert_eq!(table.indexes[0].name, "uq_email");
    assert!(table.indexes[0].unique);
    assert_eq!(table.indexes[0].columns, vec!["email"]);
}

#[test]
fn test_table_level_primary_key_leaves_columns_nullable() {
    let mut builder = CatalogBuilder::new("generic");
    builder
        .parse_sql("CREATE TABLE t (a INTEGER, b INTEGER, PRIMARY KEY (a, b))")
        .unwrap();

    let schema = builder.get_schema("").unwrap();
    let table = &schema.tables[0];
    assert!(!table.columns[0].not_null);
    assert!(!table.columns[1].not_null);
    assert_eq!(table.primary_key.as_ref().unwrap().columns, vec!["a", "b"]);
}

#[test]
fn test_last_inline_primary_key_wins() {
    let mut builder = CatalogBuilder::new("generic");
    builder
        .parse_sql("CREATE TABLE t (a INTEGER PRIMARY KEY, b INTEGER PRIMARY KEY)")
        .unwrap();

    let schema = builder.get_schema("").unwrap();
    let table = &schema.tables[0];
    assert_eq!(table.primary_key.as_ref().unwrap().columns, vec!["b"]);
}

#[test]
fn test_build_twice_on_identical_state() {
    let sql = r#"
            CREATE TABLE users (id INTEGER PRIMARY KEY, email VARCHAR(255));
            CREATE TABLE public.posts (id INTEGER);
            CREATE INDEX idx_email ON users (email);
        "#;
    let mut b1 = CatalogBuilder::new("postgresql");
    b1.parse_sql(sql).unwrap();
    let mut b2 = CatalogBuilder::new("postgresql");
    b2.parse_sql(sql).unwrap();

    let c1 = b1.build();
    let c2 = b2.build();
    assert_eq!(c1, c2);
}

#[test]
fn test_apply_statement_nodes_directly() {
    let mut builder = CatalogBuilder::new("generic");
    let stmt = StatementNode::CreateTable {
        name: vec!["users".to_string()],
        columns: vec![ColumnDefNode {
            name: "id".to_string(),
            type_text: "INTEGER".to_string(),
            options: vec![ColumnOptionNode::NotNull],
        }],
        constraints: vec![],
    };
    builder.apply_statement(stmt).unwrap();

    let schema = builder.get_schema("").unwrap();
    assert_eq!(schema.tables[0].columns[0].name, "id");
    assert_eq!(schema.tables[0].columns[0].type_ref.as_ref().unwrap().name, "INTEGER");
    assert!(schema.tables[0].columns[0].not_null);
}

#[test]
fn test_apply_statements_stop_at_first_error() {
    let mut builder = CatalogBuilder::new("generic");
    let stmts = vec![
        StatementNode::CreateTable {
            name: vec!["users".to_string()],
            columns: vec![],
            constraints: vec![],
        },
        StatementNode::CreateIndex {
            name: None,
            table: vec!["users".to_string()],
            columns: vec!["email".to_string()],
            unique: false,
        },
        StatementNode::CreateTable {
            name: vec!["posts".to_string()],
            columns: vec![],
            constraints: vec![],
        },
    ];
    let result = builder.apply_statements(stmts);
    assert!(matches!(result, Err(SchemaError::MissingIndexName)));
    // The first table stays; the statement after the failure never ran.
    assert!(builder.get_schema("").is_some());
    assert_eq!(builder.get_schema("").unwrap().tables.len(), 1);
}

#[test]
fn test_enrich_catalog_parses_and_merges() {
    let texts = vec![
        "CREATE TABLE users (id INTEGER PRIMARY KEY)".to_string(),
        "CREATE TABLE posts (id INTEGER)".to_string(),
    ];
    let mut other = CatalogBuilder::new("postgresql");
    other
        .parse_sql("CREATE TABLE users (id INTEGER, name TEXT); CREATE TABLE notes (id INTEGER)")
        .unwrap();
    let existing = other.build();

    let catalog = enrich_catalog("postgresql", texts, Some(existing)).unwrap();
    assert_eq!(catalog.schemas.len(), 1);
    let schema = &catalog.schemas[0];
    assert_eq!(schema.tables.len(), 3);
    let users = schema
        .tables
        .iter()
        .find(|t| t.rel.as_ref().unwrap().name == "users")
        .unwrap();
    // The freshly parsed one-column table wins over the merged-in version.
    assert_eq!(users.columns.len(), 1);
}

#[test]
fn test_enrich_catalog_stops_at_first_failing_text() {
    let texts = vec![
        "CREATE TABLE users (id INTEGER)".to_string(),
        "NOT EVEN SQL".to_string(),
        "CREATE TABLE posts (id INTEGER)".to_string(),
    ];
    let result = enrich_catalog("generic", texts, None);
    assert!(matches!(result, Err(SchemaError::SyntaxError { .. })));
}

#[test]
fn test_enrich_catalog_without_texts_keeps_existing() {
    let mut other = CatalogBuilder::new("generic");
    other.parse_sql("CREATE TABLE users (id INTEGER)").unwrap();
    let existing = other.build();

    let catalog = enrich_catalog("generic", vec![], Some(existing)).unwrap();
    assert_eq!(catalog.schemas.len(), 1);
    assert_eq!(catalog.schemas[0].tables.len(), 1);
}

#[test]
fn test_merge_catalog_deduplicates_enums_and_composites() {
    let mut builder = CatalogBuilder::new("postgresql");
    let seeded = sqlc_gen_core::catalog::Catalog {
        name: String::new(),
        default_schema: String::new(),
        comment: String::new(),
        schemas: vec![Schema {
            name: "public".to_string(),
            enums: vec![Enum {
                name: "mood".to_string(),
                vals: vec!["happy".to_string()],
                comment: String::new(),
            }],
            ..Default::default()
        }],
    };
    builder.merge_catalog(seeded);

    let incoming = Catalog {
        name: String::new(),
        default_schema: String::new(),
        comment: String::new(),
        schemas: vec![Schema {
            name: "public".to_string(),
            enums: vec![
                Enum {
                    name: "mood".to_string(),
                    vals: vec!["sad".to_string()],
                    comment: String::new(),
                },
                Enum { name: "status".to_string(), vals: vec![], comment: String::new() },
            ],
            composite_types: vec![CompositeType {
                name: "point2".to_string(),
                comment: String::new(),
            }],
            ..Default::default()
        }],
    };
    builder.merge_catalog(incoming);

    let schema = builder.get_schema("public").unwrap();
    assert_eq!(schema.enums.len(), 2);
    let mood = schema.enums.iter().find(|e| e.name == "mood").unwrap();
    // The first writer's values win.
    assert_eq!(mood.vals, vec!["happy"]);
    assert_eq!(schema.composite_types.len(), 1);
}

#[test]
fn test_merge_catalog_skips_tables_without_relation() {
    let mut builder = CatalogBuilder::new("generic");
    builder.parse_sql("CREATE TABLE users (id INTEGER)").unwrap();

    let mut bare = Table::new_for_test("ghost", None);
    bare.rel = None;
    let other = sqlc_gen_core::catalog::Catalog {
        name: String::new(),
        default_schema: String::new(),
        comment: String::new(),
        schemas: vec![Schema { name: String::new(), tables: vec![bare], ..Default::default() }],
    };
    builder.merge_catalog(other);

    let schema = builder.get_schema("").unwrap();
    assert_eq!(schema.tables.len(), 1);
}
