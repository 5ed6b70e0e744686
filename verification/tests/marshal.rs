//! Outbound value rendering: safe integers, raw and named rows, and the
//! no-row sentinel.

use libsql_driver::value::{
    convert_row, convert_row_raw, row_output, value_out, ColumnOut, RowOut, Value,
};

#[test]
fn safe_integers_round_trip_exactly() {
    // 2^53 + 1 is the first integer a double cannot represent.
    let v: i64 = 9007199254740993;
    assert_eq!(value_out(true, Value::Integer(v)), ColumnOut::BigInt(v));
}

#[test]
fn without_safe_integers_the_double_rendering_loses_precision() {
    let v: i64 = 9007199254740993;
    let out = value_out(false, Value::Integer(v));
    assert_eq!(out, ColumnOut::IntAsDouble(v));
    // The host layer renders IntAsDouble with a lossy conversion: the
    // nearest double is 2^53, not 2^53 + 1.
    if let ColumnOut::IntAsDouble(i) = out {
        let rendered = i as f64;
        assert!(rendered == 9007199254740992.0f64 || rendered == 9007199254740994.0f64);
    } else {
        unreachable!();
    }
}

#[test]
fn every_engine_shape_renders() {
    assert_eq!(value_out(false, Value::Null), ColumnOut::Null);
    let bits = 2.5f64.to_bits();
    assert_eq!(value_out(false, Value::Real(bits)), ColumnOut::RealBits(bits));
    assert_eq!(
        value_out(false, Value::Text(String::from("hi"))),
        ColumnOut::Text(String::from("hi"))
    );
    assert_eq!(
        value_out(true, Value::Blob(vec![9, 8])),
        ColumnOut::Blob(vec![9, 8])
    );
}

#[test]
fn raw_rows_keep_column_order() {
    let row = vec![
        Value::Integer(1),
        Value::Text(String::from("a")),
        Value::Null,
    ];
    let out = convert_row_raw(false, row);
    assert_eq!(
        out,
        vec![
            ColumnOut::IntAsDouble(1),
            ColumnOut::Text(String::from("a")),
            ColumnOut::Null,
        ]
    );
}

#[test]
fn named_rows_pair_each_value_with_its_column() {
    let row = vec![Value::Integer(7), Value::Text(String::from("x"))];
    let names = vec![String::from("id"), String::from("name")];
    let out = convert_row(true, row, names);
    assert_eq!(
        out,
        vec![
            (String::from("id"), ColumnOut::BigInt(7)),
            (String::from("name"), ColumnOut::Text(String::from("x"))),
        ]
    );
}

#[test]
fn absent_row_is_the_sentinel_not_an_error() {
    let out = row_output(false, false, None, Vec::new());
    assert_eq!(out, RowOut::NoRow);
    let raw_out = row_output(true, true, None, Vec::new());
    assert_eq!(raw_out, RowOut::NoRow);
}

#[test]
fn row_output_follows_the_raw_toggle() {
    let row = vec![Value::Integer(3)];
    let names = vec![String::from("n")];
    let named = row_output(false, false, Some(row), names);
    assert_eq!(
        named,
        RowOut::Named(vec![(String::from("n"), ColumnOut::IntAsDouble(3))])
    );

    let row = vec![Value::Integer(3)];
    let names = vec![String::from("n")];
    let raw = row_output(true, false, Some(row), names);
    assert_eq!(raw, RowOut::Positional(vec![ColumnOut::IntAsDouble(3)]));
}
