//! Parameter binding: positional order, named lookup, and binding faults.

use libsql_driver::error::BindingFault;
use libsql_driver::params::{bind, bind_named, bind_positional, BoundParams, HostParams};
use libsql_driver::value::{HostValue, Value};

#[test]
fn positional_params_bind_in_order() {
    let bound = bind_positional(vec![
        HostValue::Number(1.0f64.to_bits()),
        HostValue::Text(String::from("a")),
    ])
    .unwrap();
    assert_eq!(
        bound,
        vec![Value::Real(1.0f64.to_bits()), Value::Text(String::from("a"))]
    );
}

#[test]
fn named_params_bind_by_stripped_name() {
    let decl = vec![String::from(":a"), String::from("@b")];
    let args = vec![
        (String::from("b"), HostValue::Text(String::from("x"))),
        (String::from("a"), HostValue::BigInt(1)),
    ];
    let bound = bind_named(&decl, args).unwrap();
    assert_eq!(
        bound,
        vec![
            (String::from(":a"), Value::Integer(1)),
            (String::from("@b"), Value::Text(String::from("x"))),
        ]
    );
}

#[test]
fn missing_named_parameter_is_a_binding_fault() {
    let decl = vec![String::from(":a"), String::from(":missing")];
    let args = vec![(String::from("a"), HostValue::BigInt(1))];
    let err = bind_named(&decl, args).unwrap_err();
    assert_eq!(
        err,
        BindingFault::MissingNamedParameter(String::from(":missing"))
    );
}

#[test]
fn null_and_undefined_bind_as_null() {
    let bound = bind_positional(vec![HostValue::Null, HostValue::Undefined]).unwrap();
    assert_eq!(bound, vec![Value::Null, Value::Null]);
}

#[test]
fn byte_buffers_bind_as_blobs() {
    let bound = bind_positional(vec![HostValue::Bytes(vec![1, 2, 3])]).unwrap();
    assert_eq!(bound, vec![Value::Blob(vec![1, 2, 3])]);
}

#[test]
fn booleans_and_composites_are_unsupported() {
    assert_eq!(
        bind_positional(vec![HostValue::Bool(true)]).unwrap_err(),
        BindingFault::UnsupportedType
    );
    assert_eq!(
        bind_positional(vec![HostValue::Array]).unwrap_err(),
        BindingFault::UnsupportedType
    );
    assert_eq!(
        bind_positional(vec![HostValue::Object]).unwrap_err(),
        BindingFault::UnsupportedType
    );
}

#[test]
fn oversized_big_integer_is_out_of_range() {
    assert_eq!(
        bind_positional(vec![HostValue::BigIntOutOfRange]).unwrap_err(),
        BindingFault::IntegerOutOfRange
    );
}

#[test]
fn first_fault_in_order_wins() {
    let err = bind_positional(vec![
        HostValue::Null,
        HostValue::Bool(false),
        HostValue::BigIntOutOfRange,
    ])
    .unwrap_err();
    assert_eq!(err, BindingFault::UnsupportedType);
}

#[test]
fn bind_dispatches_on_parameter_shape() {
    let decl = vec![String::from(":n")];
    let positional = bind(
        HostParams::Positional(vec![HostValue::BigInt(7)]),
        &decl,
    )
    .unwrap();
    assert_eq!(positional, BoundParams::Positional(vec![Value::Integer(7)]));

    let named = bind(
        HostParams::Named(vec![(String::from("n"), HostValue::BigInt(7))]),
        &decl,
    )
    .unwrap();
    assert_eq!(
        named,
        BoundParams::Named(vec![(String::from(":n"), Value::Integer(7))])
    );
}
