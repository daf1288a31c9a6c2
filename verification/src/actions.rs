//! The polymorphic action contract.
//!
//! An action is a serializable unit of schema change with a five-operation
//! lifecycle: describe, run, complete, update_schema and abort. The run,
//! complete and abort phases decide here which statements are sent; the
//! surrounding program performs the sending and reports each engine verdict
//! back through the failure constructors.

use vstd::prelude::*;
use vstd::string::StringExecFns;
use crate::error::MigrationError;
use crate::schema::Schema;

verus! {

/// Opaque, read-only migration metadata handed to every lifecycle call;
/// never mutated by an action.
#[derive(Debug, Clone)]
pub struct MigrationContext {
    pub migration_name: String,
}

/// One column of a table definition, immutable once embedded in an action.
#[derive(Debug, Clone)]
pub struct Column {
    pub name: String,
    pub data_type: String,
    pub nullable: bool,
    pub default: Option<String>,
    pub generated: Option<String>,
}

/// The statements of an optional guarded follow-up, as sequences of
/// characters: `None` means the action needs no follow-up.
pub open spec fn batch_view(o: Option<Vec<String>>) -> Option<Seq<Seq<char>>> {
    match o {
        Some(v) => Some(v.deep_view()),
        None => None,
    }
}

/// A unit of schema change. Concrete variants implement the five-operation
/// lifecycle; the orchestration layer sequences heterogeneous actions
/// without knowing their kind.
pub trait Action: Sized {
    /// The structural invariant the action's definition must satisfy before
    /// any statement of it may reach the database.
    spec fn valid(&self) -> bool;

    /// The one statement the run phase emits.
    spec fn run_stmt(&self, schema: Schema) -> Seq<char>;

    /// The compensating statement the abort phase emits.
    spec fn abort_stmt(&self) -> Seq<char>;

    /// The guarded follow-up of the complete phase, if the variant needs
    /// one.
    spec fn complete_stmts(&self) -> Option<Seq<Seq<char>>>;

    /// Whether the complete phase succeeds.
    spec fn complete_succeeds(&self) -> bool;

    /// The logical schema after this action's update-schema step.
    spec fn updated_schema(&self, schema: Schema) -> Schema;

    /// The short operation phrase wrapped around an engine rejection of the
    /// run statement.
    spec fn run_context(&self) -> Seq<char>;

    /// The short operation phrase wrapped around an engine rejection of the
    /// abort statement.
    spec fn abort_context(&self) -> Seq<char>;

    /// The stable tag identifying the variant in serialized form.
    spec fn spec_tag(&self) -> Seq<char>;

    /// The human-readable summary of the describe operation.
    spec fn spec_describe(&self) -> Seq<char>;

    /// Human-readable summary; pure, no side effects.
    fn describe(&self) -> (r: String)
        ensures
            r@ == self.spec_describe(),
    ;

    /// The stable serialization tag of the variant.
    fn tag(&self) -> (r: String)
        ensures
            r@ == self.spec_tag(),
    ;

    /// The primary physical change: the statement to send to the database.
    /// A malformed definition is rejected here, before anything reaches the
    /// engine.
    fn run(&self, ctx: &MigrationContext, schema: &Schema) -> (r: Result<
        String,
        MigrationError,
    >)
        ensures
            r is Ok <==> self.valid(),
            r matches Ok(s) ==> s@ == self.run_stmt(*schema),
            r matches Err(e) ==> e is Validation,
    ;

    /// The guarded follow-up, invoked only once every action of the
    /// migration has successfully run. `Ok(None)` means no follow-up; the
    /// caller, not the action, commits the transaction the statements run
    /// in.
    fn complete(&self, ctx: &MigrationContext) -> (r: Result<
        Option<Vec<String>>,
        MigrationError,
    >)
        ensures
            self.complete_succeeds() ==> r is Ok,
            r matches Ok(o) ==> batch_view(o) == self.complete_stmts(),
    ;

    /// Mutates the logical schema to reflect the action's effect; invoked
    /// exactly once, after the run phase durably succeeded and before any
    /// later action's run.
    fn update_schema(&self, ctx: &MigrationContext, schema: &mut Schema)
        ensures
            *final(schema) == self.updated_schema(*old(schema)),
            old(schema).wf() ==> final(schema).wf(),
    ;

    /// The best-effort compensating statement undoing the run phase's
    /// effect, tolerant of partial application.
    fn abort(&self, ctx: &MigrationContext) -> (r: String)
        ensures
            r@ == self.abort_stmt(),
    ;

    /// Wraps an engine rejection of the run statement, keeping the cause.
    fn run_failure(&self, cause: String) -> (e: MigrationError)
        ensures
            e matches MigrationError::Execution { context, cause: c } && context@
                == self.run_context() && c == cause,
    ;

    /// Wraps a failure of the compensating statement, keeping the cause; it
    /// must be surfaced distinctly, since the system may need operator
    /// attention.
    fn abort_failure(&self, cause: String) -> (e: MigrationError)
        ensures
            e matches MigrationError::Abort { context, cause: c } && context@
                == self.abort_context() && c == cause,
    ;
}

/// Checks a serialized action's tag against the registry of known variants:
/// an unknown tag fails with a decode error rather than being silently
/// skipped.
pub fn check_tag(tag: &str) -> (r: Result<(), MigrationError>)
    ensures
        r is Ok <==> tag@ == "create_table"@,
        r matches Err(e) ==> e is Decode,
{
    let t = String::from_str(tag);
    let known = String::from_str("create_table");
    if t == known {
        Ok(())
    } else {
        let mut message = String::from_str("unknown action tag: ");
        message.append(tag);
        Err(MigrationError::Decode { message })
    }
}

} // verus!
