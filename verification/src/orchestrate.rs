//! Planning of a migration's lifecycle, in the order the orchestration
//! protocol demands.
//!
//! For each action in declared order: run, then update-schema on success;
//! on any failure, abort every action that previously ran, in reverse
//! order, then re-surface the original failure; only once all run phases
//! have succeeded, complete each action in order. The functions here decide
//! which statements those phases emit; the surrounding program sends each
//! statement and reports the engine's verdict.

use vstd::prelude::*;
use crate::actions::{batch_view, Action, MigrationContext};
use crate::error::MigrationError;
use crate::schema::Schema;

verus! {

/// The logical schema after the update-schema steps of the first `k`
/// actions, applied in declared order to `s`.
pub open spec fn schema_after<A: Action>(actions: Seq<A>, k: int, s: Schema) -> Schema
    decreases k,
{
    if k <= 0 {
        s
    } else {
        actions[k - 1].updated_schema(schema_after(actions, k - 1, s))
    }
}

/// Plans the run phases: the statement each action emits, in declared
/// order, each computed against the logical schema left by the actions
/// before it, whose cumulative effect the plan applies to `schema`. A
/// malformed action fails the whole plan with its validation error before
/// any statement reaches the database.
pub fn plan_runs<A: Action>(
    actions: &Vec<A>,
    ctx: &MigrationContext,
    schema: &mut Schema,
) -> (r: Result<Vec<String>, MigrationError>)
    requires
        old(schema).wf(),
    ensures
        r is Ok <==> (forall|i: int| 0 <= i < actions@.len() ==> actions@[i].valid()),
        r matches Ok(stmts) ==> {
            &&& stmts@.len() == actions@.len()
            &&& forall|i: int|
                0 <= i < actions@.len() ==> stmts@[i]@ == actions@[i].run_stmt(
                    schema_after(actions@, i, *old(schema)),
                )
            &&& *final(schema) == schema_after(
                actions@,
                actions@.len() as int,
                *old(schema),
            )
            &&& final(schema).wf()
        },
        r matches Err(e) ==> e is Validation && (exists|i: int|
            0 <= i < actions@.len() && !(#[trigger] actions@[i].valid()) && (forall|j: int|
                0 <= j < i ==> actions@[j].valid())),
{
    let ghost s0 = *schema;
    let mut stmts: Vec<String> = Vec::new();
    let mut i: usize = 0;
    while i < actions.len()
        invariant
            i <= actions@.len(),
            stmts@.len() == i,
            schema.wf(),
            *schema == schema_after(actions@, i as int, s0),
            forall|j: int| 0 <= j < i ==> actions@[j].valid(),
            forall|j: int|
                0 <= j < i ==> stmts@[j]@ == actions@[j].run_stmt(
                    schema_after(actions@, j, s0),
                ),
        decreases actions@.len() - i,
    {
        match actions[i].run(ctx, schema) {
            Ok(s) => {
                stmts.push(s);
            },
            Err(e) => {
                return Err(e);
            },
        }
        actions[i].update_schema(ctx, schema);
        i = i + 1;
    }
    Ok(stmts)
}

/// Plans the compensating phase after a failure: the abort statement of
/// every action that successfully ran, in reverse declared order, and of no
/// other action.
pub fn plan_aborts<A: Action>(actions: &Vec<A>, ctx: &MigrationContext, ran: usize) -> (r:
    Vec<String>)
    requires
        ran <= actions@.len(),
    ensures
        r@.len() == ran,
        forall|i: int| 0 <= i < ran ==> r@[i]@ == actions@[ran - 1 - i].abort_stmt(),
{
    let mut r: Vec<String> = Vec::new();
    let mut done: usize = 0;
    while done < ran
        invariant
            done <= ran <= actions@.len(),
            r@.len() == done,
            forall|i: int| 0 <= i < done ==> r@[i]@ == actions@[ran - 1 - i].abort_stmt(),
        decreases ran - done,
    {
        r.push(actions[ran - 1 - done].abort(ctx));
        done = done + 1;
    }
    r
}

/// Plans the complete phases, invoked only once every action's run phase
/// has succeeded: each action's optional guarded follow-up, in declared
/// order. The caller runs each returned batch inside one transaction and
/// commits it; `None` asks for no follow-up.
pub fn plan_completes<A: Action>(actions: &Vec<A>, ctx: &MigrationContext) -> (r: Result<
    Vec<Option<Vec<String>>>,
    MigrationError,
>)
    ensures
        (forall|i: int| 0 <= i < actions@.len() ==> actions@[i].complete_succeeds()) ==> r
            is Ok,
        r matches Ok(v) ==> v@.len() == actions@.len() && (forall|i: int|
            0 <= i < actions@.len() ==> batch_view(v@[i]) == actions@[i].complete_stmts()),
        r is Err ==> exists|i: int|
            0 <= i < actions@.len() && !(#[trigger] actions@[i].complete_succeeds()),
{
    let mut v: Vec<Option<Vec<String>>> = Vec::new();
    let mut i: usize = 0;
    while i < actions.len()
        invariant
            i <= actions@.len(),
            v@.len() == i,
            forall|j: int| 0 <= j < i ==> batch_view(v@[j]) == actions@[j].complete_stmts(),
        decreases actions@.len() - i,
    {
        match actions[i].complete(ctx) {
            Ok(o) => {
                v.push(o);
            },
            Err(e) => {
                return Err(e);
            },
        }
        i = i + 1;
    }
    Ok(v)
}

} // verus!
