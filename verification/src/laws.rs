//! The driver's cross-cutting guarantees, stated and proved over the spec
//! functions that the operations' own contracts use.

use vstd::prelude::*;

use crate::driver::{
    spec_close, spec_get_plan, spec_guard, spec_in_transaction, spec_register_statement,
    spec_rows_plan, spec_run_plan, spec_set_default_safe_integers, spec_set_raw,
    spec_set_safe_integers, DriverView, ExecPlanView,
};
use crate::error::{BindingFault, DriverError};
use crate::params::{spec_bind_named, spec_bind_positional, HostParams};
use crate::value::{row_output_matches, spec_column_out, ColumnOut, HostValue, RowOut, Value};

verus! {

/// Once a database is closed, every operation on it or on any statement
/// derived from it fails with the closed-resource error, and none of them
/// changes the shared state.
pub proof fn lemma_closed_rejects_operations(
    d: DriverView,
    id: int,
    column_count: int,
    toggle: bool,
    params: HostParams,
    names: Seq<String>,
    is_autocommit: bool,
)
    ensures
        spec_guard(spec_close(d)) == Err::<(), DriverError>(DriverError::Closed),
        spec_set_default_safe_integers(spec_close(d), toggle) == (
            spec_close(d),
            Err::<(), DriverError>(DriverError::Closed),
        ),
        spec_set_raw(spec_close(d), id, column_count, toggle) == (
            spec_close(d),
            Err::<(), DriverError>(DriverError::Closed),
        ),
        spec_set_safe_integers(spec_close(d), id, toggle) == (
            spec_close(d),
            Err::<(), DriverError>(DriverError::Closed),
        ),
        spec_run_plan(spec_close(d), params, names) == Err::<ExecPlanView, DriverError>(
            DriverError::Closed,
        ),
        spec_get_plan(spec_close(d), params, names) == Err::<ExecPlanView, DriverError>(
            DriverError::Closed,
        ),
        spec_rows_plan(spec_close(d), params, names) == Err::<ExecPlanView, DriverError>(
            DriverError::Closed,
        ),
        spec_in_transaction(spec_close(d), is_autocommit) == Err::<bool, DriverError>(
            DriverError::Closed,
        ),
{
}

/// Statements are reusable, never one-shot: every successful `run` or
/// `rows` plan resets the statement before executing it, and a `get` plan
/// resets it afterwards.  Planning is a function of the driver state alone
/// and does not change that state, so a repeated call re-executes from the
/// start exactly like the first.
pub proof fn lemma_executions_start_fresh(d: DriverView, params: HostParams, names: Seq<String>)
    ensures
        spec_run_plan(d, params, names) matches Ok(p) ==> p.reset_before && !p.reset_after,
        spec_rows_plan(d, params, names) matches Ok(p) ==> p.reset_before && !p.reset_after,
        spec_get_plan(d, params, names) matches Ok(p) ==> !p.reset_before && p.reset_after,
{
}

/// With safe-integer mode on, a 64-bit integer column value round-trips
/// exactly as a big-integer value; with it off, the same value is marked
/// for delivery as a host double, whose rendering may lose precision beyond
/// 2^53 in magnitude.
pub proof fn lemma_safe_integer_round_trip(v: i64)
    ensures
        spec_column_out(true, Value::Integer(v)) == ColumnOut::BigInt(v),
        spec_column_out(false, Value::Integer(v)) == ColumnOut::IntAsDouble(v),
{
}

/// A query matching zero rows yields the "no result" sentinel, never an
/// error.
pub proof fn lemma_no_row_is_sentinel(
    raw: bool,
    safe_ints: bool,
    names: Seq<String>,
    r: RowOut,
)
    requires
        row_output_matches(raw, safe_ints, None, names, r),
    ensures
        r == RowOut::NoRow,
{
}

/// In raw mode a produced row comes back as a positionally ordered
/// sequence: one entry per column, in column order.
pub proof fn lemma_raw_rows_positional(
    safe_ints: bool,
    row: Vec<Value>,
    names: Seq<String>,
    r: RowOut,
)
    requires
        row_output_matches(true, safe_ints, Some(row), names, r),
    ensures
        r matches RowOut::Positional(out) && out@.len() == row@.len() && (forall|j: int|
            0 <= j < row@.len() ==> out@[j] == spec_column_out(safe_ints, row@[j])),
{
}

/// Raw mode is only for statements that return data: on a statement with
/// zero output columns the toggle fails with the usage error and changes
/// nothing, while on one with output columns it succeeds.
pub proof fn lemma_raw_mode_needs_columns(d: DriverView, id: int, column_count: int, toggle: bool)
    requires
        d.conn_open,
        0 <= id < d.stmts.len(),
    ensures
        column_count == 0 ==> spec_set_raw(d, id, column_count, toggle) == (
            d,
            Err::<(), DriverError>(DriverError::RawModeWithoutColumns),
        ),
        column_count != 0 ==> spec_set_raw(d, id, column_count, toggle).1 == Ok::<(), DriverError>(
            (),
        ) && spec_set_raw(d, id, column_count, toggle).0.stmts[id].raw == toggle,
{
}

/// Positional parameters bind by order: when binding succeeds, the `j`-th
/// bound value is exactly the marshaling of the `j`-th supplied value.
pub proof fn lemma_positional_binds_in_order(vals: Seq<HostValue>)
    ensures
        spec_bind_positional(vals) matches Ok(out) ==> out.len() == vals.len() && (forall|j: int|
            0 <= j < vals.len() ==> spec_host_to_engine_ok(vals[j], out[j])),
    decreases vals.len(),
{
    if vals.len() > 0 {
        match crate::value::spec_host_to_engine(vals[0]) {
            Err(_) => {},
            Ok(ev) => {
                lemma_positional_binds_in_order(vals.drop_first());
                match spec_bind_positional(vals.drop_first()) {
                    Err(_) => {},
                    Ok(rest) => {
                        assert forall|j: int| 0 <= j < vals.len() implies spec_host_to_engine_ok(
                            vals[j],
                            (seq![ev] + rest)[j],
                        ) by {
                            if j == 0 {
                                assert((seq![ev] + rest)[0] == ev);
                            } else {
                                assert(vals.drop_first()[j - 1] == vals[j]);
                                assert((seq![ev] + rest)[j] == rest[j - 1]);
                            }
                        }
                    },
                }
            },
        }
    }
}

/// `ev` is what marshaling `v` successfully produces.
pub open spec fn spec_host_to_engine_ok(v: HostValue, ev: Value) -> bool {
    crate::value::spec_host_to_engine(v) == Ok::<Value, BindingFault>(ev)
}

/// Named parameters bind by declared name: when binding succeeds, there is
/// one bound pair per declared parameter, carrying that declared name, in
/// declaration order.
pub proof fn lemma_named_binds_by_name(names: Seq<String>, args: Seq<(String, HostValue)>)
    ensures
        spec_bind_named(names, args) matches Ok(out) ==> out.len() == names.len() && (forall|
            j: int,
        |
            0 <= j < names.len() ==> out[j].0 == names[j]),
    decreases names.len(),
{
    if names.len() > 0 {
        let key = crate::params::spec_stripped(names[0]);
        if exists|j: int| crate::params::is_first_match(args, key, j) {
            let j = choose|j: int| crate::params::is_first_match(args, key, j);
            match crate::value::spec_host_to_engine(args[j].1) {
                Err(_) => {},
                Ok(ev) => {
                    lemma_named_binds_by_name(names.drop_first(), args.remove(j));
                    match spec_bind_named(names.drop_first(), args.remove(j)) {
                        Err(_) => {},
                        Ok(rest) => {
                            assert forall|k: int| 0 <= k < names.len() implies (seq![
                                (names[0], ev),
                            ] + rest)[k].0 == names[k] by {
                                if k > 0 {
                                    assert(names.drop_first()[k - 1] == names[k]);
                                    assert((seq![(names[0], ev)] + rest)[k] == rest[k - 1]);
                                }
                            }
                        },
                    }
                },
            }
        }
    }
}

/// `inTransaction` mirrors the engine's autocommit flag on an open
/// database: true exactly when the connection is not in autocommit mode.
pub proof fn lemma_in_transaction_mirrors_autocommit(d: DriverView, is_autocommit: bool)
    requires
        d.conn_open,
    ensures
        spec_in_transaction(d, is_autocommit) == Ok::<bool, DriverError>(!is_autocommit),
{
}

/// Changing the database-level safe-integer default never reaches back
/// into statements that are already registered: their toggles survive
/// unchanged.
pub proof fn lemma_default_change_not_retroactive(d: DriverView, toggle: bool)
    requires
        d.conn_open,
    ensures
        spec_set_default_safe_integers(d, toggle).0.stmts == d.stmts,
        spec_set_default_safe_integers(d, toggle).0.default_safe_integers == toggle,
{
}

/// A statement captures the safe-integer default at registration time,
/// with raw mode off; later default changes do not touch it.
pub proof fn lemma_statement_captures_default(d: DriverView)
    ensures
        spec_register_statement(d).0.stmts.len() == d.stmts.len() + 1,
        spec_register_statement(d).0.stmts.last().safe_ints == d.default_safe_integers,
        !spec_register_statement(d).0.stmts.last().raw,
        spec_register_statement(d).1 == d.stmts.len(),
{
}

} // verus!
