use string_wrapper::{Triable, TriableResult};

fn result_ok() -> Result<i32, ()> {
    let source: Result<i32, ()> = Ok(4);
    let value = match Triable::branch(source) {
        TriableResult::Expression(v) => v,
        TriableResult::EarlyReturn(r) => return r,
    };
    Ok(value)
}

fn result_err() -> Result<i32, ()> {
    let source: Result<i32, ()> = Err(());
    let value = match Triable::branch(source) {
        TriableResult::Expression(v) => v,
        TriableResult::EarlyReturn(r) => return r,
    };
    Ok(value)
}

#[test]
fn result() {
    assert_eq!(result_ok(), Ok(4));
    assert_eq!(result_err(), Err(()));
}

fn option_some() -> Option<i32> {
    let source: Option<i32> = Some(5);
    let value = match Triable::branch(source) {
        TriableResult::Expression(v) => v,
        TriableResult::EarlyReturn(r) => return r,
    };
    Some(value)
}

fn option_none() -> Option<i32> {
    let source: Option<i32> = None;
    let value = match Triable::branch(source) {
        TriableResult::Expression(v) => v,
        TriableResult::EarlyReturn(r) => return r,
    };
    Some(value)
}

#[test]
fn option() {
    assert_eq!(option_some(), Some(5));
    assert_eq!(option_none(), None);
}

fn option_to_result_ok() -> Result<i32, ()> {
    let source: Option<i32> = Some(4);
    let value = match Triable::branch(source) {
        TriableResult::Expression(v) => v,
        TriableResult::EarlyReturn(r) => return r,
    };
    Ok(value)
}

fn option_to_result_err() -> Result<i32, ()> {
    let source: Option<i32> = None;
    let value = match Triable::branch(source) {
        TriableResult::Expression(v) => v,
        TriableResult::EarlyReturn(r) => return r,
    };
    Ok(value)
}

#[test]
fn option_to_result() {
    assert_eq!(option_to_result_ok(), Ok(4));
    assert_eq!(option_to_result_err(), Err(()));
}

fn result_to_option_some() -> Option<i32> {
    let source: Result<i32, ()> = Ok(5);
    let value = match Triable::branch(source) {
        TriableResult::Expression(v) => v,
        TriableResult::EarlyReturn(r) => return r,
    };
    Some(value)
}

fn result_to_option_none() -> Option<i32> {
    let source: Result<i32, ()> = Err(());
    let value = match Triable::branch(source) {
        TriableResult::Expression(v) => v,
        TriableResult::EarlyReturn(r) => return r,
    };
    Some(value)
}

#[test]
fn result_to_option() {
    assert_eq!(result_to_option_some(), Some(5));
    assert_eq!(result_to_option_none(), None);
}

fn bool_true_case() -> bool {
    match Triable::branch(true) {
        TriableResult::Expression(()) => {}
        TriableResult::EarlyReturn(r) => return r,
    }
    true
}

fn bool_false_case() -> bool {
    match Triable::branch(false) {
        TriableResult::Expression(()) => {}
        TriableResult::EarlyReturn(r) => return r,
    }
    true
}

#[test]
fn bool() {
    assert_eq!(bool_true_case(), true);
    assert_eq!(bool_false_case(), false);
}

fn option_to_bool_true() -> bool {
    let source: Option<i32> = Some(5);
    match Triable::branch(source) {
        TriableResult::Expression(_) => {}
        TriableResult::EarlyReturn(r) => return r,
    }
    true
}

fn option_to_bool_false() -> bool {
    let source: Option<i32> = None;
    match Triable::branch(source) {
        TriableResult::Expression(_) => {}
        TriableResult::EarlyReturn(r) => return r,
    }
    true
}

#[test]
fn option_to_bool() {
    assert_eq!(option_to_bool_true(), true);
    assert_eq!(option_to_bool_false(), false);
}

fn result_to_bool_true() -> bool {
    let source: Result<i32, ()> = Ok(5);
    match Triable::branch(source) {
        TriableResult::Expression(_) => {}
        TriableResult::EarlyReturn(r) => return r,
    }
    true
}

fn result_to_bool_false() -> bool {
    let source: Result<i32, ()> = Err(());
    match Triable::branch(source) {
        TriableResult::Expression(_) => {}
        TriableResult::EarlyReturn(r) => return r,
    }
    true
}

#[test]
fn result_to_bool() {
    assert_eq!(result_to_bool_true(), true);
    assert_eq!(result_to_bool_false(), false);
}

fn bool_to_result_ok() -> Result<(), ()> {
    let value = match Triable::branch(true) {
        TriableResult::Expression(v) => v,
        TriableResult::EarlyReturn(r) => return r,
    };
    Ok(value)
}

fn bool_to_result_err() -> Result<(), ()> {
    let value = match Triable::branch(false) {
        TriableResult::Expression(v) => v,
        TriableResult::EarlyReturn(r) => return r,
    };
    Ok(value)
}

#[test]
fn bool_to_result() {
    assert_eq!(bool_to_result_ok(), Ok(()));
    assert_eq!(bool_to_result_err(), Err(()));
}

fn bool_to_option_some() -> Option<()> {
    let value = match Triable::branch(true) {
        TriableResult::Expression(v) => v,
        TriableResult::EarlyReturn(r) => return r,
    };
    Some(value)
}

fn bool_to_option_none() -> Option<()> {
    let value = match Triable::branch(false) {
        TriableResult::Expression(v) => v,
        TriableResult::EarlyReturn(r) => return r,
    };
    Some(value)
}

#[test]
fn bool_to_option() {
    assert_eq!(bool_to_option_some(), Some(()));
    assert_eq!(bool_to_option_none(), None);
}
