use reshape_core::actions::{Action, Column, MigrationContext};
use reshape_core::create_table::{CreateTable, ForeignKey};
use reshape_core::schema::Schema;

fn ctx() -> MigrationContext {
    MigrationContext { migration_name: "test_migration".to_string() }
}

fn col(name: &str, data_type: &str) -> Column {
    Column {
        name: name.to_string(),
        data_type: data_type.to_string(),
        nullable: false,
        default: None,
        generated: None,
    }
}

fn well_formed() -> CreateTable {
    CreateTable {
        name: "users".to_string(),
        columns: vec![col("id", "bigint"), col("email", "text")],
        primary_key: vec!["id".to_string()],
        foreign_keys: vec![],
    }
}

#[test]
fn well_formed_definition_validates() {
    assert!(well_formed().validate().is_ok());
}

#[test]
fn empty_column_list_is_rejected() {
    let mut action = well_formed();
    action.columns = vec![];
    assert!(action.validate().unwrap_err().is_validation());
}

#[test]
fn duplicate_column_names_are_rejected() {
    let mut action = well_formed();
    action.columns = vec![col("id", "bigint"), col("id", "text")];
    assert!(action.validate().unwrap_err().is_validation());
}

#[test]
fn empty_primary_key_is_rejected() {
    let mut action = well_formed();
    action.primary_key = vec![];
    assert!(action.validate().unwrap_err().is_validation());
}

#[test]
fn primary_key_over_undeclared_column_is_rejected() {
    let mut action = well_formed();
    action.primary_key = vec!["missing".to_string()];
    assert!(action.validate().unwrap_err().is_validation());
}

#[test]
fn foreign_key_with_mismatched_column_counts_is_rejected() {
    let mut action = well_formed();
    action.foreign_keys = vec![ForeignKey {
        columns: vec!["id".to_string()],
        referenced_table: "other".to_string(),
        referenced_columns: vec!["a".to_string(), "b".to_string()],
    }];
    assert!(action.validate().unwrap_err().is_validation());
}

#[test]
fn foreign_key_without_columns_is_rejected() {
    let mut action = well_formed();
    action.foreign_keys = vec![ForeignKey {
        columns: vec![],
        referenced_table: "other".to_string(),
        referenced_columns: vec![],
    }];
    assert!(action.validate().unwrap_err().is_validation());
}

#[test]
fn foreign_key_over_undeclared_local_column_is_rejected() {
    let mut action = well_formed();
    action.foreign_keys = vec![ForeignKey {
        columns: vec!["missing".to_string()],
        referenced_table: "other".to_string(),
        referenced_columns: vec!["id".to_string()],
    }];
    assert!(action.validate().unwrap_err().is_validation());
}

#[test]
fn run_rejects_a_malformed_definition_before_it_reaches_the_database() {
    let mut action = well_formed();
    action.primary_key = vec!["missing".to_string()];
    let schema = Schema::new();
    assert!(action.run(&ctx(), &schema).unwrap_err().is_validation());
}
