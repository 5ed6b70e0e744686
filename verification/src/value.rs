//! Bidirectional value marshaling between the host's dynamic value space and
//! the engine's typed value space.
//!
//! The engine understands exactly five value shapes; the host's richer value
//! space is projected onto them on the way in, and engine values are rendered
//! back into host-deliverable shapes on the way out.  Floating-point numbers
//! cross this layer as their IEEE-754 bit patterns: the logic here never
//! computes with them, it only carries them, and the embedding layer converts
//! bits to native doubles at the boundary.

use vstd::prelude::*;

use crate::error::BindingFault;

verus! {

/// An engine value: the only value shape crossing the engine boundary.
#[derive(Debug, PartialEq)]
pub enum Value {
    Null,
    /// A 64-bit exact integer.
    Integer(i64),
    /// A double, carried as its IEEE-754 bit pattern.
    Real(u64),
    Text(String),
    Blob(Vec<u8>),
}

/// A host value, as classified by the embedding layer before binding.
#[derive(Debug, PartialEq)]
pub enum HostValue {
    Null,
    Undefined,
    /// A host boolean: not supported by the value model (a documented gap).
    Bool(bool),
    /// A host number, carried as its IEEE-754 bit pattern.
    Number(u64),
    Text(String),
    /// A host big integer that fits in a 64-bit signed integer.
    BigInt(i64),
    /// A host big integer outside the 64-bit signed range.
    BigIntOutOfRange,
    /// A host byte buffer.
    Bytes(Vec<u8>),
    /// A host array: not supported by the value model (a documented gap).
    Array,
    /// Any other host object: not supported by the value model.
    Object,
}

/// A value on its way out to the host.  Integers remember whether they must
/// be delivered exactly (safe-integer mode) or as a possibly lossy double.
#[derive(Debug, PartialEq)]
pub enum ColumnOut {
    Null,
    /// An exact 64-bit integer, delivered as a host big-integer value.
    BigInt(i64),
    /// An integer to be delivered as a host double; the rendering may lose
    /// precision beyond 2^53 in magnitude.
    IntAsDouble(i64),
    /// A double, carried as its IEEE-754 bit pattern.
    RealBits(u64),
    Text(String),
    Blob(Vec<u8>),
}

/// How a host value projects onto the engine's value model: null and
/// undefined become Null, numbers stay doubles, strings stay text, big
/// integers must fit 64 signed bits, byte buffers become blobs, and
/// booleans and composites are rejected as unsupported.
pub open spec fn spec_host_to_engine(v: HostValue) -> Result<Value, BindingFault> {
    match v {
        HostValue::Null => Ok(Value::Null),
        HostValue::Undefined => Ok(Value::Null),
        HostValue::Bool(_) => Err(BindingFault::UnsupportedType),
        HostValue::Number(bits) => Ok(Value::Real(bits)),
        HostValue::Text(s) => Ok(Value::Text(s)),
        HostValue::BigInt(i) => Ok(Value::Integer(i)),
        HostValue::BigIntOutOfRange => Err(BindingFault::IntegerOutOfRange),
        HostValue::Bytes(b) => Ok(Value::Blob(b)),
        HostValue::Array => Err(BindingFault::UnsupportedType),
        HostValue::Object => Err(BindingFault::UnsupportedType),
    }
}

/// Marshals one host value into an engine value, or reports the binding
/// fault that rules it out.
pub fn host_to_engine(v: HostValue) -> (r: Result<Value, BindingFault>)
    ensures
        r == spec_host_to_engine(v),
{
    match v {
        HostValue::Null => Ok(Value::Null),
        HostValue::Undefined => Ok(Value::Null),
        HostValue::Bool(_) => Err(BindingFault::UnsupportedType),
        HostValue::Number(bits) => Ok(Value::Real(bits)),
        HostValue::Text(s) => Ok(Value::Text(s)),
        HostValue::BigInt(i) => Ok(Value::Integer(i)),
        HostValue::BigIntOutOfRange => Err(BindingFault::IntegerOutOfRange),
        HostValue::Bytes(b) => Ok(Value::Blob(b)),
        HostValue::Array => Err(BindingFault::UnsupportedType),
        HostValue::Object => Err(BindingFault::UnsupportedType),
    }
}

/// How an engine value is rendered for the host.  An integer is delivered
/// exactly as a big integer when safe-integer mode is on, and as a (possibly
/// lossy) double otherwise; every other shape passes through.
pub open spec fn spec_column_out(safe_ints: bool, v: Value) -> ColumnOut {
    match v {
        Value::Null => ColumnOut::Null,
        Value::Integer(i) => if safe_ints {
            ColumnOut::BigInt(i)
        } else {
            ColumnOut::IntAsDouble(i)
        },
        Value::Real(bits) => ColumnOut::RealBits(bits),
        Value::Text(s) => ColumnOut::Text(s),
        Value::Blob(b) => ColumnOut::Blob(b),
    }
}

/// Renders one engine value into its host-deliverable shape.
pub fn value_out(safe_ints: bool, v: Value) -> (r: ColumnOut)
    ensures
        r == spec_column_out(safe_ints, v),
{
    match v {
        Value::Null => ColumnOut::Null,
        Value::Integer(i) => if safe_ints {
            ColumnOut::BigInt(i)
        } else {
            ColumnOut::IntAsDouble(i)
        },
        Value::Real(bits) => ColumnOut::RealBits(bits),
        Value::Text(s) => ColumnOut::Text(s),
        Value::Blob(b) => ColumnOut::Blob(b),
    }
}

/// Renders a fetched row as a positionally ordered sequence: the output
/// keeps exactly the order and length of the engine row.
pub fn convert_row_raw(safe_ints: bool, row: Vec<Value>) -> (out: Vec<ColumnOut>)
    ensures
        out@.len() == row@.len(),
        forall|j: int|
            0 <= j < row@.len() ==> out@[j] == spec_column_out(safe_ints, row@[j]),
{
    let ghost orig = row@;
    let mut rest = row;
    let mut out: Vec<ColumnOut> = Vec::new();
    while rest.len() > 0
        invariant
            out@.len() + rest@.len() == orig.len(),
            rest@ == orig.skip(out@.len() as int),
            forall|j: int| 0 <= j < out@.len() ==> out@[j] == spec_column_out(safe_ints, orig[j]),
        decreases rest@.len(),
    {
        let ghost done = out@.len() as int;
        let v = rest.remove(0);
        assert(v == orig[done]);
        out.push(value_out(safe_ints, v));
        assert(rest@ =~= orig.skip(done + 1));
    }
    out
}

/// Renders a fetched row as named fields: the `j`-th output field carries
/// the `j`-th column name and the rendering of the `j`-th engine value.
pub fn convert_row(safe_ints: bool, row: Vec<Value>, names: Vec<String>) -> (out: Vec<
    (String, ColumnOut),
>)
    requires
        names@.len() == row@.len(),
    ensures
        out@.len() == row@.len(),
        forall|j: int|
            0 <= j < row@.len() ==> out@[j].0 == names@[j] && out@[j].1 == spec_column_out(
                safe_ints,
                row@[j],
            ),
{
    let ghost orig = row@;
    let ghost orig_names = names@;
    let mut rest = row;
    let mut rest_names = names;
    let mut out: Vec<(String, ColumnOut)> = Vec::new();
    while rest.len() > 0
        invariant
            out@.len() + rest@.len() == orig.len(),
            out@.len() + rest_names@.len() == orig_names.len(),
            orig.len() == orig_names.len(),
            rest@ == orig.skip(out@.len() as int),
            rest_names@ == orig_names.skip(out@.len() as int),
            forall|j: int|
                0 <= j < out@.len() ==> out@[j].0 == orig_names[j] && out@[j].1 == spec_column_out(
                    safe_ints,
                    orig[j],
                ),
        decreases rest@.len(),
    {
        let ghost done = out@.len() as int;
        let v = rest.remove(0);
        let name = rest_names.remove(0);
        assert(v == orig[done]);
        assert(name == orig_names[done]);
        let rendered = value_out(safe_ints, v);
        out.push((name, rendered));
        assert(out@[done].0 == orig_names[done]);
        assert(out@[done].1 == spec_column_out(safe_ints, orig[done]));
        assert(rest@ =~= orig.skip(done + 1));
        assert(rest_names@ =~= orig_names.skip(done + 1));
    }
    out
}

/// One fetched row as delivered to the host: the end-of-rows sentinel, a
/// positionally ordered sequence (raw mode), or named fields.
#[derive(Debug, PartialEq)]
pub enum RowOut {
    /// No row was produced: the "no result" / end-of-rows sentinel.
    NoRow,
    /// Raw mode: values in column order.
    Positional(Vec<ColumnOut>),
    /// Named mode: one `(column name, value)` field per column, in order.
    Named(Vec<(String, ColumnOut)>),
}

/// `r` is the correct host-visible rendering of one fetch outcome: the
/// sentinel when no row was produced (never an error), otherwise the
/// positional or named shape according to the raw toggle, in column order.
pub open spec fn row_output_matches(
    raw: bool,
    safe_ints: bool,
    fetched: Option<Vec<Value>>,
    names: Seq<String>,
    r: RowOut,
) -> bool {
    &&& fetched is None ==> r == RowOut::NoRow
    &&& fetched matches Some(row) ==> ({
        &&& raw ==> (r matches RowOut::Positional(out) && out@.len() == row@.len() && (
        forall|j: int| 0 <= j < row@.len() ==> out@[j] == spec_column_out(safe_ints, row@[j])))
        &&& !raw ==> (r matches RowOut::Named(out) && out@.len() == row@.len() && (
        forall|j: int|
            0 <= j < row@.len() ==> out@[j].0 == names[j] && out@[j].1 == spec_column_out(
                safe_ints,
                row@[j],
            )))
    })
}

/// Renders the outcome of one fetch.  An absent row is the sentinel, never
/// an error; a present row takes the positional or named shape according to
/// the raw toggle, in column order.
pub fn row_output(raw: bool, safe_ints: bool, fetched: Option<Vec<Value>>, names: Vec<String>) -> (r:
    RowOut)
    requires
        fetched matches Some(row) ==> names@.len() == row@.len(),
    ensures
        row_output_matches(raw, safe_ints, fetched, names@, r),
{
    match fetched {
        None => RowOut::NoRow,
        Some(row) => if raw {
            RowOut::Positional(convert_row_raw(safe_ints, row))
        } else {
            RowOut::Named(convert_row(safe_ints, row, names))
        },
    }
}

} // verus!
