//! The table-creation action: the concrete exemplar of the action
//! contract.
//!
//! Its run phase emits one `CREATE TABLE` statement assembling, in
//! column-declaration order, quoted column definitions, then a primary-key
//! clause, then one foreign-key clause per declared key. Its abort phase
//! emits an idempotent `DROP TABLE IF EXISTS` statement. All identifiers
//! are quoted uniformly, in the creation and in the drop statement alike.

use vstd::prelude::*;
use vstd::string::StringExecFns;
use crate::actions::{Action, Column, MigrationContext};
use crate::error::MigrationError;
use crate::schema::Schema;
use crate::sql::{join, joined, quote_all, quote_ident, quoted, quoted_all};

verus! {

/// A foreign-key constraint of a new table: the local and referenced column
/// lists correspond positionally.
#[derive(Debug, Clone)]
pub struct ForeignKey {
    pub columns: Vec<String>,
    pub referenced_table: String,
    pub referenced_columns: Vec<String>,
}

impl ForeignKey {
    /// The two column lists have equal, non-zero length.
    pub open spec fn valid(&self) -> bool {
        self.columns@.len() == self.referenced_columns@.len() && self.columns@.len() > 0
    }

    /// The `FOREIGN KEY (...) REFERENCES "..." (...)` definition row.
    pub open spec fn clause(&self) -> Seq<char> {
        "FOREIGN KEY ("@ + joined(quoted_all(self.columns.deep_view()), ", "@)
            + ") REFERENCES "@ + quoted(self.referenced_table@) + " ("@ + joined(
            quoted_all(self.referenced_columns.deep_view()),
            ", "@,
        ) + ")"@
    }

    /// Assembles the foreign-key definition row.
    pub fn clause_text(&self) -> (r: String)
        ensures
            r@ == self.clause(),
    {
        let mut r = String::from_str("FOREIGN KEY (");
        r.append(join(&quote_all(&self.columns), ", ").as_str());
        r.append(") REFERENCES ");
        r.append(quote_ident(self.referenced_table.as_str()).as_str());
        r.append(" (");
        r.append(join(&quote_all(&self.referenced_columns), ", ").as_str());
        r.append(")");
        proof {
            assert(r@ =~= self.clause());
        }
        r
    }
}

/// One quoted column definition row: name, data type, then the optional
/// `DEFAULT`, `NOT NULL` unless nullable, and the optional `GENERATED`
/// clause.
pub open spec fn column_def(c: Column) -> Seq<char> {
    quoted(c.name@) + " "@ + c.data_type@ + (match c.default {
        Some(d) => " DEFAULT "@ + d@,
        None => Seq::<char>::empty(),
    }) + (if c.nullable {
        Seq::<char>::empty()
    } else {
        " NOT NULL"@
    }) + (match c.generated {
        Some(g) => " GENERATED "@ + g@,
        None => Seq::<char>::empty(),
    })
}

/// Assembles one column definition row.
pub fn column_def_text(c: &Column) -> (r: String)
    ensures
        r@ == column_def(*c),
{
    let mut r = quote_ident(c.name.as_str());
    r.append(" ");
    r.append(c.data_type.as_str());
    match &c.default {
        Some(d) => {
            r.append(" DEFAULT ");
            r.append(d.as_str());
        },
        None => {},
    }
    if !c.nullable {
        r.append(" NOT NULL");
    }
    match &c.generated {
        Some(g) => {
            r.append(" GENERATED ");
            r.append(g.as_str());
        },
        None => {},
    }
    proof {
        assert(r@ =~= column_def(*c));
    }
    r
}

/// The action that creates a table: its name, a non-empty column list with
/// unique names, a non-empty primary key over declared columns, and zero or
/// more foreign keys over declared columns.
#[derive(Debug, Clone)]
pub struct CreateTable {
    pub name: String,
    pub columns: Vec<Column>,
    pub primary_key: Vec<String>,
    pub foreign_keys: Vec<ForeignKey>,
}

impl CreateTable {
    /// Whether some declared column is called `n`.
    pub open spec fn declares(&self, n: Seq<char>) -> bool {
        exists|i: int| 0 <= i < self.columns@.len() && self.columns@[i].name@ == n
    }

    /// The structural invariant of a table-creation definition: a non-empty
    /// column list with unique names, a non-empty primary-key list naming
    /// declared columns, and foreign keys whose column lists correspond
    /// positionally and name declared columns.
    pub open spec fn spec_valid(&self) -> bool {
        &&& self.columns@.len() > 0
        &&& forall|i: int, j: int|
            0 <= i < j < self.columns@.len() ==> self.columns@[i].name@
                != self.columns@[j].name@
        &&& self.primary_key@.len() > 0
        &&& forall|k: int|
            0 <= k < self.primary_key@.len() ==> self.declares(self.primary_key@[k]@)
        &&& forall|f: int|
            0 <= f < self.foreign_keys@.len() ==> self.foreign_keys@[f].valid()
        &&& forall|f: int, k: int|
            0 <= f < self.foreign_keys@.len() && 0 <= k
                < self.foreign_keys@[f].columns@.len() ==> self.declares(
                self.foreign_keys@[f].columns@[k]@,
            )
    }

    /// The `PRIMARY KEY (...)` definition row, quoting the key's columns in
    /// declared order.
    pub open spec fn pk_clause(&self) -> Seq<char> {
        "PRIMARY KEY ("@ + joined(quoted_all(self.primary_key.deep_view()), ", "@) + ")"@
    }

    /// The definition rows of the creation statement: one per declared
    /// column in declaration order, then the primary-key clause, then one
    /// row per foreign key in declared order.
    pub open spec fn definition_rows(&self) -> Seq<Seq<char>> {
        Seq::new(self.columns@.len(), |i: int| column_def(self.columns@[i])) + seq![
            self.pk_clause(),
        ] + Seq::new(self.foreign_keys@.len(), |i: int| self.foreign_keys@[i].clause())
    }

    /// The single statement the run phase emits.
    pub open spec fn create_statement(&self) -> Seq<char> {
        "CREATE TABLE "@ + quoted(self.name@) + " ("@ + joined(self.definition_rows(), ", "@)
            + ")"@
    }

    /// The idempotent statement the abort phase emits.
    pub open spec fn drop_statement(&self) -> Seq<char> {
        "DROP TABLE IF EXISTS "@ + quoted(self.name@)
    }

    /// Assembles the `PRIMARY KEY` definition row.
    pub fn pk_clause_text(&self) -> (r: String)
        ensures
            r@ == self.pk_clause(),
    {
        let mut r = String::from_str("PRIMARY KEY (");
        r.append(join(&quote_all(&self.primary_key), ", ").as_str());
        r.append(")");
        proof {
            assert(r@ =~= self.pk_clause());
        }
        r
    }

    /// Assembles the creation statement's definition rows.
    fn definition_rows_text(&self) -> (r: Vec<String>)
        ensures
            r.deep_view() == self.definition_rows(),
    {
        let mut rows: Vec<String> = Vec::new();
        let n = self.columns.len();
        let mut i: usize = 0;
        while i < n
            invariant
                i <= n,
                n == self.columns@.len(),
                rows@.len() == i,
                forall|j: int| 0 <= j < i ==> rows@[j]@ == column_def(self.columns@[j]),
            decreases n - i,
        {
            rows.push(column_def_text(&self.columns[i]));
            i = i + 1;
        }
        rows.push(self.pk_clause_text());
        let m = self.foreign_keys.len();
        let mut f: usize = 0;
        while f < m
            invariant
                f <= m,
                m == self.foreign_keys@.len(),
                n == self.columns@.len(),
                rows@.len() == n + 1 + f,
                forall|j: int| 0 <= j < n ==> rows@[j]@ == column_def(self.columns@[j]),
                rows@[n as int]@ == self.pk_clause(),
                forall|j: int|
                    0 <= j < f ==> rows@[n + 1 + j]@ == self.foreign_keys@[j].clause(),
            decreases m - f,
        {
            rows.push(self.foreign_keys[f].clause_text());
            f = f + 1;
        }
        proof {
            let dv = rows.deep_view();
            let want = self.definition_rows();
            assert forall|j: int| 0 <= j < dv.len() implies dv[j] == want[j] by {
                assert(dv[j] == rows@[j]@);
            }
            assert(dv =~= want);
        }
        rows
    }

    /// Assembles the creation statement.
    pub fn create_statement_text(&self) -> (r: String)
        ensures
            r@ == self.create_statement(),
    {
        let rows = self.definition_rows_text();
        let mut r = String::from_str("CREATE TABLE ");
        r.append(quote_ident(self.name.as_str()).as_str());
        r.append(" (");
        r.append(join(&rows, ", ").as_str());
        r.append(")");
        proof {
            assert(r@ =~= self.create_statement());
        }
        r
    }

    /// Assembles the drop statement.
    pub fn drop_statement_text(&self) -> (r: String)
        ensures
            r@ == self.drop_statement(),
    {
        let mut r = String::from_str("DROP TABLE IF EXISTS ");
        r.append(quote_ident(self.name.as_str()).as_str());
        proof {
            assert(r@ =~= self.drop_statement());
        }
        r
    }

    /// Checks whether some declared column is called `name`.
    fn declares_column(&self, name: &String) -> (r: bool)
        ensures
            r == self.declares(name@),
    {
        let mut i: usize = 0;
        while i < self.columns.len()
            invariant
                i <= self.columns@.len(),
                forall|j: int| 0 <= j < i ==> self.columns@[j].name@ != name@,
            decreases self.columns@.len() - i,
        {
            if self.columns[i].name == *name {
                return true;
            }
            i = i + 1;
        }
        false
    }

    /// Checks the structural invariant of the definition, rejecting a
    /// malformed one before any statement of it reaches the database.
    pub fn validate(&self) -> (r: Result<(), MigrationError>)
        ensures
            r is Ok <==> self.spec_valid(),
            r matches Err(e) ==> e is Validation,
    {
        if self.columns.len() == 0 {
            return Err(validation_error("table needs at least one column"));
        }
        let mut i: usize = 1;
        while i < self.columns.len()
            invariant
                1 <= i,
                forall|a: int, b: int|
                    0 <= a < b < i && b < self.columns@.len() ==> self.columns@[a].name@
                        != self.columns@[b].name@,
            decreases self.columns@.len() - i,
        {
            let mut j: usize = 0;
            while j < i
                invariant
                    j <= i < self.columns@.len(),
                    forall|b: int|
                        0 <= b < j ==> self.columns@[b].name@ != self.columns@[i as int].name@,
                decreases i - j,
            {
                if self.columns[j].name == self.columns[i].name {
                    return Err(validation_error("column names must be unique"));
                }
                j = j + 1;
            }
            i = i + 1;
        }
        if self.primary_key.len() == 0 {
            return Err(validation_error("primary key needs at least one column"));
        }
        let mut k: usize = 0;
        while k < self.primary_key.len()
            invariant
                k <= self.primary_key@.len(),
                forall|q: int| 0 <= q < k ==> self.declares(self.primary_key@[q]@),
            decreases self.primary_key@.len() - k,
        {
            if !self.declares_column(&self.primary_key[k]) {
                return Err(validation_error("primary key names an undeclared column"));
            }
            k = k + 1;
        }
        let mut f: usize = 0;
        while f < self.foreign_keys.len()
            invariant
                f <= self.foreign_keys@.len(),
                forall|g: int| 0 <= g < f ==> self.foreign_keys@[g].valid(),
                forall|g: int, q: int|
                    0 <= g < f && 0 <= q < self.foreign_keys@[g].columns@.len()
                        ==> self.declares(self.foreign_keys@[g].columns@[q]@),
            decreases self.foreign_keys@.len() - f,
        {
            if self.foreign_keys[f].columns.len() == 0 {
                return Err(validation_error("foreign key needs at least one column"));
            }
            if self.foreign_keys[f].columns.len()
                != self.foreign_keys[f].referenced_columns.len() {
                return Err(
                    validation_error(
                        "foreign key and referenced column lists must have equal length",
                    ),
                );
            }
            let mut q: usize = 0;
            while q < self.foreign_keys[f].columns.len()
                invariant
                    f < self.foreign_keys@.len(),
                    q <= self.foreign_keys@[f as int].columns@.len(),
                    forall|p: int|
                        0 <= p < q ==> self.declares(
                            self.foreign_keys@[f as int].columns@[p]@,
                        ),
                decreases self.foreign_keys@[f as int].columns@.len() - q,
            {
                if !self.declares_column(&self.foreign_keys[f].columns[q]) {
                    return Err(
                        validation_error("foreign key names an undeclared local column"),
                    );
                }
                q = q + 1;
            }
            f = f + 1;
        }
        Ok(())
    }
}

/// A validation error with the given message.
fn validation_error(msg: &str) -> (e: MigrationError)
    ensures
        e is Validation,
{
    MigrationError::Validation { message: String::from_str(msg) }
}

impl Action for CreateTable {
    open spec fn valid(&self) -> bool {
        self.spec_valid()
    }

    open spec fn run_stmt(&self, schema: Schema) -> Seq<char> {
        self.create_statement()
    }

    open spec fn abort_stmt(&self) -> Seq<char> {
        self.drop_statement()
    }

    open spec fn complete_stmts(&self) -> Option<Seq<Seq<char>>> {
        None
    }

    open spec fn complete_succeeds(&self) -> bool {
        true
    }

    open spec fn updated_schema(&self, schema: Schema) -> Schema {
        schema
    }

    open spec fn run_context(&self) -> Seq<char> {
        "failed to create table"@
    }

    open spec fn abort_context(&self) -> Seq<char> {
        "failed to drop table"@
    }

    open spec fn spec_tag(&self) -> Seq<char> {
        "create_table"@
    }

    open spec fn spec_describe(&self) -> Seq<char> {
        "Creating table "@ + quoted(self.name@)
    }

    fn describe(&self) -> (r: String) {
        let mut r = String::from_str("Creating table ");
        r.append(quote_ident(self.name.as_str()).as_str());
        proof {
            assert(r@ =~= self.spec_describe());
        }
        r
    }

    fn tag(&self) -> (r: String) {
        String::from_str("create_table")
    }

    fn run(&self, _ctx: &MigrationContext, _schema: &Schema) -> (r: Result<
        String,
        MigrationError,
    >) {
        match self.validate() {
            Err(e) => Err(e),
            Ok(()) => Ok(self.create_statement_text()),
        }
    }

    fn complete(&self, _ctx: &MigrationContext) -> (r: Result<
        Option<Vec<String>>,
        MigrationError,
    >) {
        Ok(None)
    }

    fn update_schema(&self, _ctx: &MigrationContext, _schema: &mut Schema) {
    }

    fn abort(&self, _ctx: &MigrationContext) -> (r: String) {
        self.drop_statement_text()
    }

    fn run_failure(&self, cause: String) -> (e: MigrationError) {
        MigrationError::Execution { context: String::from_str("failed to create table"), cause }
    }

    fn abort_failure(&self, cause: String) -> (e: MigrationError) {
        MigrationError::Abort { context: String::from_str("failed to drop table"), cause }
    }
}

/// Law: the compensating statement of a table-creation action is the same
/// however often abort is invoked: a single `DROP TABLE IF EXISTS`
/// statement determined by the table's quoted name alone, whatever state
/// the run phase reached.
pub proof fn lemma_abort_statement_is_stable(t: CreateTable)
    ensures
        t.abort_stmt() == t.drop_statement(),
        t.drop_statement() == "DROP TABLE IF EXISTS "@ + quoted(t.name@),
{
}

/// Law: the creation statement is a single statement whose definition rows
/// list all declared columns in declaration order, then the primary-key
/// clause over the primary-key columns in declared order, then the
/// foreign-key clauses in declared order.
pub proof fn lemma_create_statement_structure(t: CreateTable)
    ensures
        t.definition_rows().len() == t.columns@.len() + 1 + t.foreign_keys@.len(),
        forall|i: int|
            0 <= i < t.columns@.len() ==> t.definition_rows()[i] == column_def(t.columns@[i]),
        t.definition_rows()[t.columns@.len() as int] == t.pk_clause(),
        forall|i: int|
            0 <= i < t.foreign_keys@.len() ==> t.definition_rows()[t.columns@.len() + 1 + i]
                == t.foreign_keys@[i].clause(),
        t.create_statement() == "CREATE TABLE "@ + quoted(t.name@) + " ("@ + joined(
            t.definition_rows(),
            ", "@,
        ) + ")"@,
{
}

} // verus!
