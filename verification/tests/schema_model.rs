use reshape_core::schema::{Schema, SchemaColumn, SchemaTable};

fn table(name: &str, columns: &[&str]) -> SchemaTable {
    SchemaTable {
        name: name.to_string(),
        columns: columns
            .iter()
            .map(|c| SchemaColumn {
                name: c.to_string(),
                data_type: "text".to_string(),
                nullable: true,
            })
            .collect(),
    }
}

#[test]
fn a_new_schema_tracks_nothing() {
    let schema = Schema::new();
    assert!(schema.lookup_table("users").is_none());
}

#[test]
fn a_registered_table_is_looked_up_by_name() {
    let mut schema = Schema::new();
    schema.register_table(table("users", &["id", "email"]));
    let found = schema.lookup_table("users").unwrap();
    assert_eq!(found.name, "users");
    assert_eq!(found.columns.len(), 2);
    assert_eq!(found.columns[0].name, "id");
    assert!(schema.lookup_table("orders").is_none());
}

#[test]
fn registering_a_changed_table_replaces_its_shape_and_keeps_the_rest() {
    let mut schema = Schema::new();
    schema.register_table(table("users", &["id"]));
    schema.register_table(table("orders", &["id"]));
    schema.register_table(table("users", &["id", "email"]));
    let users = schema.lookup_table("users").unwrap();
    assert_eq!(users.columns.len(), 2);
    let orders = schema.lookup_table("orders").unwrap();
    assert_eq!(orders.columns.len(), 1);
}
