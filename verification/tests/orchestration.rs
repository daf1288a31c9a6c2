use reshape_core::actions::{Action, Column, MigrationContext};
use reshape_core::create_table::{CreateTable, ForeignKey};
use reshape_core::orchestrate::{plan_aborts, plan_completes, plan_runs};
use reshape_core::schema::Schema;

fn ctx() -> MigrationContext {
    MigrationContext { migration_name: "test_migration".to_string() }
}

fn col(name: &str, data_type: &str) -> Column {
    Column {
        name: name.to_string(),
        data_type: data_type.to_string(),
        nullable: false,
        default: None,
        generated: None,
    }
}

fn create(name: &str) -> CreateTable {
    CreateTable {
        name: name.to_string(),
        columns: vec![col("id", "bigint")],
        primary_key: vec!["id".to_string()],
        foreign_keys: vec![],
    }
}

#[test]
fn scenario_single_table_migration_succeeds_without_follow_up() {
    let actions = vec![create("users")];
    let mut schema = Schema::new();
    let stmts = plan_runs(&actions, &ctx(), &mut schema).unwrap();
    assert_eq!(
        stmts,
        vec!["CREATE TABLE \"users\" (\"id\" bigint NOT NULL, PRIMARY KEY (\"id\"))"]
    );
    let follow_ups = plan_completes(&actions, &ctx()).unwrap();
    assert_eq!(follow_ups.len(), 1);
    assert!(follow_ups[0].is_none());
    // A newly created table needs no schema-translation bookkeeping, so the
    // logical schema is left as it was.
    assert!(schema.lookup_table("users").is_none());
}

#[test]
fn failure_of_the_second_action_compensates_only_the_first() {
    // Two creations of the same table: the engine rejects the second
    // statement as a duplicate, so exactly one action ran.
    let actions = vec![create("users"), create("users")];
    let mut schema = Schema::new();
    let stmts = plan_runs(&actions, &ctx(), &mut schema).unwrap();
    assert_eq!(stmts.len(), 2);
    assert_eq!(stmts[0], stmts[1]);
    let aborts = plan_aborts(&actions, &ctx(), 1);
    assert_eq!(aborts, vec!["DROP TABLE IF EXISTS \"users\""]);
}

#[test]
fn scenario_failing_foreign_key_rolls_back_the_earlier_table() {
    let first = create("A");
    let mut second = create("B");
    second.columns.push(col("a_id", "bigint"));
    second.foreign_keys = vec![ForeignKey {
        columns: vec!["a_id".to_string()],
        referenced_table: "missing".to_string(),
        referenced_columns: vec!["id".to_string()],
    }];
    let actions = vec![first, second];
    let mut schema = Schema::new();
    let stmts = plan_runs(&actions, &ctx(), &mut schema).unwrap();
    assert_eq!(stmts.len(), 2);
    // The engine rejects the second statement: its foreign key references a
    // table that does not exist. Compensation touches the first action only,
    // in reverse order, and the failure names the second action.
    let aborts = plan_aborts(&actions, &ctx(), 1);
    assert_eq!(aborts, vec!["DROP TABLE IF EXISTS \"A\""]);
    assert_eq!(actions[1].describe(), "Creating table \"B\"");
    let report = actions[1].run_failure("relation \"missing\" does not exist".to_string());
    assert!(report.is_execution());
}

#[test]
fn compensation_runs_in_reverse_declared_order() {
    let actions = vec![create("a"), create("b"), create("c")];
    let aborts = plan_aborts(&actions, &ctx(), 3);
    assert_eq!(
        aborts,
        vec![
            "DROP TABLE IF EXISTS \"c\"",
            "DROP TABLE IF EXISTS \"b\"",
            "DROP TABLE IF EXISTS \"a\"",
        ]
    );
}

#[test]
fn a_malformed_action_fails_the_whole_plan_before_anything_runs() {
    let mut bad = create("users");
    bad.primary_key = vec![];
    let actions = vec![create("customers"), bad];
    let mut schema = Schema::new();
    let err = plan_runs(&actions, &ctx(), &mut schema).unwrap_err();
    assert!(err.is_validation());
}
