//! Lifecycle and shared state of one database handle and the statement and
//! cursor handles derived from it.
//!
//! A `Driver` models the state every handle shares: whether the single
//! logical connection is still open, the database-level safe-integer
//! default, and the per-statement toggles.  Statements are addressed by the
//! index handed out at registration.  Every operation is guarded: once the
//! database is closed, any operation on it or on a derived handle fails with
//! the closed-resource error.  The engine work itself (executing, fetching,
//! syncing) happens outside; the functions here decide what to do, with what
//! parameters, and how to deliver the outcome.

use vstd::prelude::*;

use crate::error::DriverError;
use crate::params::{bind, spec_bind, BoundParams, BoundParamsView, HostParams};
use crate::path::{is_remote_path, spec_is_remote_path};
use crate::value::{row_output, row_output_matches, RowOut, Value};

verus! {

/// Per-statement state: the raw-output toggle and the safe-integer toggle,
/// captured from the database default when the statement is registered and
/// independently mutable afterwards.
#[derive(Clone, Copy, Debug, PartialEq, Eq, Structural)]
pub struct StmtState {
    pub raw: bool,
    pub safe_ints: bool,
}

/// The state shared by a database handle and all handles derived from it.
#[derive(Debug)]
pub struct Driver {
    /// Whether the database still holds its reference to the connection.
    pub conn_open: bool,
    /// The safe-integer default applied to statements registered later.
    pub default_safe_integers: bool,
    /// One entry per statement prepared on this connection.
    pub stmts: Vec<StmtState>,
}

/// The mathematical shape of a `Driver`.
pub struct DriverView {
    pub conn_open: bool,
    pub default_safe_integers: bool,
    pub stmts: Seq<StmtState>,
}

impl View for Driver {
    type V = DriverView;

    open spec fn view(&self) -> DriverView {
        DriverView {
            conn_open: self.conn_open,
            default_safe_integers: self.default_safe_integers,
            stmts: self.stmts@,
        }
    }
}

/// A forward-only cursor over one execution of a statement.  Its output
/// shape is captured from the statement at creation time and never changes
/// afterwards.
#[derive(Clone, Copy, Debug, PartialEq, Eq, Structural)]
pub struct Cursor {
    pub raw: bool,
    pub safe_ints: bool,
}

/// One planned statement execution: whether the engine statement must be
/// reset before and after running, and the bound parameters to apply.
#[derive(Debug, PartialEq)]
pub struct ExecPlan {
    pub reset_before: bool,
    pub reset_after: bool,
    pub params: BoundParams,
}

/// The mathematical shape of an `ExecPlan`.
pub struct ExecPlanView {
    pub reset_before: bool,
    pub reset_after: bool,
    pub params: BoundParamsView,
}

impl View for ExecPlan {
    type V = ExecPlanView;

    open spec fn view(&self) -> ExecPlanView {
        ExecPlanView {
            reset_before: self.reset_before,
            reset_after: self.reset_after,
            params: self.params@,
        }
    }
}

/// Whether an operation may proceed: only while the connection is open.
pub open spec fn spec_guard(d: DriverView) -> Result<(), DriverError> {
    if d.conn_open {
        Ok(())
    } else {
        Err(DriverError::Closed)
    }
}

/// Closing drops the connection reference and touches nothing else.
pub open spec fn spec_close(d: DriverView) -> DriverView {
    DriverView {
        conn_open: false,
        default_safe_integers: d.default_safe_integers,
        stmts: d.stmts,
    }
}

/// Changing the database default never reaches back into statements that
/// are already registered.
pub open spec fn spec_set_default_safe_integers(d: DriverView, toggle: bool) -> (
    DriverView,
    Result<(), DriverError>,
) {
    if d.conn_open {
        (
            DriverView { conn_open: d.conn_open, default_safe_integers: toggle, stmts: d.stmts },
            Ok(()),
        )
    } else {
        (d, Err(DriverError::Closed))
    }
}

/// A newly registered statement starts with raw mode off and the
/// safe-integer toggle captured from the database default of this moment.
pub open spec fn spec_register_statement(d: DriverView) -> (DriverView, int) {
    (
        DriverView {
            conn_open: d.conn_open,
            default_safe_integers: d.default_safe_integers,
            stmts: d.stmts.push(StmtState { raw: false, safe_ints: d.default_safe_integers }),
        },
        d.stmts.len() as int,
    )
}

/// Raw mode may be toggled only on an open connection and only for a
/// statement that produces output columns.
pub open spec fn spec_set_raw(d: DriverView, id: int, column_count: int, toggle: bool) -> (
    DriverView,
    Result<(), DriverError>,
)
    recommends
        0 <= id < d.stmts.len(),
{
    if !d.conn_open {
        (d, Err(DriverError::Closed))
    } else if column_count == 0 {
        (d, Err(DriverError::RawModeWithoutColumns))
    } else {
        (
            DriverView {
                conn_open: d.conn_open,
                default_safe_integers: d.default_safe_integers,
                stmts: d.stmts.update(
                    id,
                    StmtState { raw: toggle, safe_ints: d.stmts[id].safe_ints },
                ),
            },
            Ok(()),
        )
    }
}

/// The per-statement safe-integer toggle, mutable while the connection is
/// open.
pub open spec fn spec_set_safe_integers(d: DriverView, id: int, toggle: bool) -> (
    DriverView,
    Result<(), DriverError>,
)
    recommends
        0 <= id < d.stmts.len(),
{
    if !d.conn_open {
        (d, Err(DriverError::Closed))
    } else {
        (
            DriverView {
                conn_open: d.conn_open,
                default_safe_integers: d.default_safe_integers,
                stmts: d.stmts.update(
                    id,
                    StmtState { raw: d.stmts[id].raw, safe_ints: toggle },
                ),
            },
            Ok(()),
        )
    }
}

/// Planning one execution: the guard first, then binding; a successful plan
/// resets the statement before running exactly when `reset_before` says so,
/// and after running exactly when `reset_after` says so.
pub open spec fn spec_plan(
    d: DriverView,
    params: HostParams,
    names: Seq<String>,
    reset_before: bool,
    reset_after: bool,
) -> Result<ExecPlanView, DriverError> {
    if !d.conn_open {
        Err(DriverError::Closed)
    } else {
        match spec_bind(params, names) {
            Err(f) => Err(DriverError::Binding(f)),
            Ok(b) => Ok(ExecPlanView { reset_before, reset_after, params: b }),
        }
    }
}

/// `run` resets the statement and then executes it, so repeated runs
/// re-execute from the start.
pub open spec fn spec_run_plan(d: DriverView, params: HostParams, names: Seq<String>) -> Result<
    ExecPlanView,
    DriverError,
> {
    spec_plan(d, params, names, true, false)
}

/// `get` executes, takes the first row, and resets afterwards so the
/// statement can be reused.
pub open spec fn spec_get_plan(d: DriverView, params: HostParams, names: Seq<String>) -> Result<
    ExecPlanView,
    DriverError,
> {
    spec_plan(d, params, names, false, true)
}

/// `rows` resets the statement and then executes it lazily through a
/// cursor.
pub open spec fn spec_rows_plan(d: DriverView, params: HostParams, names: Seq<String>) -> Result<
    ExecPlanView,
    DriverError,
> {
    spec_plan(d, params, names, true, false)
}

/// The database is inside an explicit transaction exactly when the engine
/// connection is not in autocommit mode.
pub open spec fn spec_in_transaction(d: DriverView, is_autocommit: bool) -> Result<
    bool,
    DriverError,
> {
    if d.conn_open {
        Ok(!is_autocommit)
    } else {
        Err(DriverError::Closed)
    }
}

/// A cursor captures the statement's output shape at creation time.
pub open spec fn spec_cursor(d: DriverView, id: int) -> Cursor
    recommends
        0 <= id < d.stmts.len(),
{
    Cursor { raw: d.stmts[id].raw, safe_ints: d.stmts[id].safe_ints }
}

impl Driver {
    /// A freshly opened database: connection held, safe-integer default
    /// off, no statements yet.
    pub fn new() -> (d: Driver)
        ensures
            d@ == (DriverView {
                conn_open: true,
                default_safe_integers: false,
                stmts: Seq::empty(),
            }),
    {
        Driver { conn_open: true, default_safe_integers: false, stmts: Vec::new() }
    }

    /// Admits an operation while the connection is open and rejects it with
    /// the closed-resource error afterwards.
    pub fn guard(&self) -> (r: Result<(), DriverError>)
        ensures
            r == spec_guard(self@),
    {
        if self.conn_open {
            Ok(())
        } else {
            Err(DriverError::Closed)
        }
    }

    /// Drops the database's reference to the shared connection.  Statement
    /// state survives, but every later operation fails the guard.
    pub fn close(&mut self)
        ensures
            final(self)@ == spec_close(old(self)@),
    {
        self.conn_open = false;
    }

    /// Sets the safe-integer default for statements registered after this
    /// call; statements already registered keep their own toggles.
    pub fn set_default_safe_integers(&mut self, toggle: bool) -> (r: Result<(), DriverError>)
        ensures
            (final(self)@, r) == spec_set_default_safe_integers(old(self)@, toggle),
    {
        if !self.conn_open {
            return Err(DriverError::Closed);
        }
        self.default_safe_integers = toggle;
        Ok(())
    }

    /// Registers a statement the engine has just compiled, and hands back
    /// its index.  The new statement starts with raw mode off and the
    /// safe-integer toggle captured from the current database default.
    pub fn register_statement(&mut self) -> (id: usize)
        requires
            old(self)@.conn_open,
        ensures
            (final(self)@, id as int) == spec_register_statement(old(self)@),
    {
        let id = self.stmts.len();
        let entry = StmtState { raw: false, safe_ints: self.default_safe_integers };
        self.stmts.push(entry);
        id
    }

    /// Toggles positional (raw) row output for one statement.  Fails with
    /// the usage error when the statement produces no output columns, since
    /// write-only statements cannot be put in raw mode.
    pub fn set_raw(&mut self, id: usize, column_count: usize, toggle: bool) -> (r: Result<
        (),
        DriverError,
    >)
        requires
            id < old(self)@.stmts.len(),
        ensures
            (final(self)@, r) == spec_set_raw(old(self)@, id as int, column_count as int, toggle),
    {
        if !self.conn_open {
            return Err(DriverError::Closed);
        }
        if column_count == 0 {
            return Err(DriverError::RawModeWithoutColumns);
        }
        let safe_ints = self.stmts[id].safe_ints;
        self.stmts[id] = StmtState { raw: toggle, safe_ints };
        Ok(())
    }

    /// Toggles exact big-integer delivery for one statement.
    pub fn set_safe_integers(&mut self, id: usize, toggle: bool) -> (r: Result<(), DriverError>)
        requires
            id < old(self)@.stmts.len(),
        ensures
            (final(self)@, r) == spec_set_safe_integers(old(self)@, id as int, toggle),
    {
        if !self.conn_open {
            return Err(DriverError::Closed);
        }
        let raw = self.stmts[id].raw;
        self.stmts[id] = StmtState { raw, safe_ints: toggle };
        Ok(())
    }

    /// Plans one `run`: guard, bind, then reset-and-execute.
    pub fn run_plan(&self, params: HostParams, decl_names: &Vec<String>) -> (r: Result<
        ExecPlan,
        DriverError,
    >)
        requires
            forall|i: int| 0 <= i < decl_names@.len() ==> decl_names@[i]@.len() >= 1,
        ensures
            match r {
                Ok(p) => spec_run_plan(self@, params, decl_names@) == Ok::<_, DriverError>(p@),
                Err(e) => spec_run_plan(self@, params, decl_names@) == Err::<ExecPlanView, _>(e),
            },
    {
        self.plan(params, decl_names, true, false)
    }

    /// Plans one `get`: guard, bind, execute without a prior reset, and
    /// reset afterwards so the statement stays reusable.
    pub fn get_plan(&self, params: HostParams, decl_names: &Vec<String>) -> (r: Result<
        ExecPlan,
        DriverError,
    >)
        requires
            forall|i: int| 0 <= i < decl_names@.len() ==> decl_names@[i]@.len() >= 1,
        ensures
            match r {
                Ok(p) => spec_get_plan(self@, params, decl_names@) == Ok::<_, DriverError>(p@),
                Err(e) => spec_get_plan(self@, params, decl_names@) == Err::<ExecPlanView, _>(e),
            },
    {
        self.plan(params, decl_names, false, true)
    }

    /// Plans one `rows`: guard, bind, then reset-and-query through a
    /// cursor.
    pub fn rows_plan(&self, params: HostParams, decl_names: &Vec<String>) -> (r: Result<
        ExecPlan,
        DriverError,
    >)
        requires
            forall|i: int| 0 <= i < decl_names@.len() ==> decl_names@[i]@.len() >= 1,
        ensures
            match r {
                Ok(p) => spec_rows_plan(self@, params, decl_names@) == Ok::<_, DriverError>(p@),
                Err(e) => spec_rows_plan(self@, params, decl_names@) == Err::<ExecPlanView, _>(e),
            },
    {
        self.plan(params, decl_names, true, false)
    }

    fn plan(
        &self,
        params: HostParams,
        decl_names: &Vec<String>,
        reset_before: bool,
        reset_after: bool,
    ) -> (r: Result<ExecPlan, DriverError>)
        requires
            forall|i: int| 0 <= i < decl_names@.len() ==> decl_names@[i]@.len() >= 1,
        ensures
            match r {
                Ok(p) => spec_plan(self@, params, decl_names@, reset_before, reset_after) == Ok::<
                    _,
                    DriverError,
                >(p@),
                Err(e) => spec_plan(self@, params, decl_names@, reset_before, reset_after) == Err::<
                    ExecPlanView,
                    _,
                >(e),
            },
    {
        if !self.conn_open {
            return Err(DriverError::Closed);
        }
        match bind(params, decl_names) {
            Err(f) => Err(DriverError::Binding(f)),
            Ok(b) => Ok(ExecPlan { reset_before, reset_after, params: b }),
        }
    }

    /// Answers `inTransaction` from the engine's autocommit flag: inside an
    /// explicit transaction exactly when autocommit is off.
    pub fn in_transaction(&self, is_autocommit: bool) -> (r: Result<bool, DriverError>)
        ensures
            r == spec_in_transaction(self@, is_autocommit),
    {
        if self.conn_open {
            Ok(!is_autocommit)
        } else {
            Err(DriverError::Closed)
        }
    }

    /// Creates the cursor for one `rows` execution, capturing the
    /// statement's output shape at this moment.
    pub fn open_cursor(&self, id: usize) -> (c: Cursor)
        requires
            id < self@.stmts.len(),
        ensures
            c == spec_cursor(self@, id as int),
    {
        let s = self.stmts[id];
        Cursor { raw: s.raw, safe_ints: s.safe_ints }
    }

    /// Renders the first row fetched by a `get` execution, in the shape the
    /// statement's toggles call for at this moment.
    pub fn statement_row_output(
        &self,
        id: usize,
        fetched: Option<Vec<Value>>,
        names: Vec<String>,
    ) -> (r: RowOut)
        requires
            id < self@.stmts.len(),
            fetched matches Some(row) ==> names@.len() == row@.len(),
        ensures
            row_output_matches(
                self@.stmts[id as int].raw,
                self@.stmts[id as int].safe_ints,
                fetched,
                names@,
                r,
            ),
    {
        let s = self.stmts[id];
        row_output(s.raw, s.safe_ints, fetched, names)
    }
}

impl Cursor {
    /// Renders one fetched row in the shape this cursor captured at
    /// creation.  An absent row is the end-of-rows sentinel, never an
    /// error.
    pub fn row(&self, fetched: Option<Vec<Value>>, names: Vec<String>) -> (r: RowOut)
        requires
            fetched matches Some(row) ==> names@.len() == row@.len(),
        ensures
            row_output_matches(self.raw, self.safe_ints, fetched, names@, r),
    {
        row_output(self.raw, self.safe_ints, fetched, names)
    }
}

/// How `open` selects a backend: a remote-style URL opens a remote-only
/// database with the auth token, any other path opens a local file-backed
/// database with the encryption key applied only when non-empty.
#[derive(Debug, PartialEq)]
pub enum OpenPlan {
    Remote { url: String, auth_token: String },
    Local { path: String, encryption_key: Option<String> },
}

/// Selects the backend for `open` by path scheme.  An encryption key
/// supplied together with a remote path is accepted but has no effect,
/// since encryption applies only to local storage (a documented
/// limitation, not an error).
pub fn plan_open(path: String, auth_token: String, encryption_key: String) -> (p: OpenPlan)
    ensures
        spec_is_remote_path(path@) ==> p == (OpenPlan::Remote { url: path, auth_token }),
        !spec_is_remote_path(path@) ==> p == (OpenPlan::Local {
            path,
            encryption_key: if encryption_key@.len() == 0 {
                None
            } else {
                Some(encryption_key)
            },
        }),
{
    if is_remote_path(path.as_str()) {
        OpenPlan::Remote { url: path, auth_token }
    } else if encryption_key.as_str().is_empty() {
        OpenPlan::Local { path, encryption_key: None }
    } else {
        OpenPlan::Local { path, encryption_key: Some(encryption_key) }
    }
}

/// The ingredients of a replicated open: a local replica path, the remote
/// primary to sync against, and the optional encryption key.
#[derive(Debug, PartialEq)]
pub struct ReplicaPlan {
    pub path: String,
    pub sync_url: String,
    pub sync_auth: String,
    pub encryption_key: Option<String>,
}

/// Prepares a local-replica open: the encryption key is applied only when
/// non-empty.
pub fn plan_open_replica(
    path: String,
    sync_url: String,
    sync_auth: String,
    encryption_key: String,
) -> (p: ReplicaPlan)
    ensures
        p.path == path,
        p.sync_url == sync_url,
        p.sync_auth == sync_auth,
        encryption_key@.len() == 0 ==> p.encryption_key is None,
        encryption_key@.len() > 0 ==> p.encryption_key == Some(encryption_key),
{
    let key = if encryption_key.as_str().is_empty() {
        None
    } else {
        Some(encryption_key)
    };
    ReplicaPlan { path, sync_url, sync_auth, encryption_key: key }
}

} // verus!
