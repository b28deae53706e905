use monkey_lang::environment::Environment;
use monkey_lang::object::{Int, Object};
use std::rc::Rc;

fn integer(i: i64) -> Rc<Object> {
    Rc::new(Object::Int(Int::new(i)))
}

fn value(v: Option<&Rc<Object>>) -> Option<i64> {
    match v {
        None => None,
        Some(o) => match &**o {
            Object::Int(i) => Some(i.value()),
            _ => panic!("not an integer"),
        },
    }
}

#[test]
fn a_fresh_environment_is_empty() {
    let env = Environment::new(None);
    assert_eq!(value(env.get("a")), None);
    assert_eq!(value(env.get("")), None);
}

#[test]
fn set_binds_and_replaces() {
    let mut env = Environment::new(None);
    env.set("a".to_string(), integer(1));
    env.set("b".to_string(), integer(2));
    assert_eq!(value(env.get("a")), Some(1));
    assert_eq!(value(env.get("b")), Some(2));
    env.set("a".to_string(), integer(3));
    assert_eq!(value(env.get("a")), Some(3));
    assert_eq!(value(env.get("b")), Some(2));
    assert_eq!(value(env.get("c")), None);
}

#[test]
fn get_walks_the_chain_from_the_inside() {
    let mut outer = Environment::new(None);
    outer.set("a".to_string(), integer(1));
    outer.set("b".to_string(), integer(2));
    let mut inner = Environment::new(Some(Rc::new(outer)));
    assert_eq!(value(inner.get("a")), Some(1));
    inner.set("a".to_string(), integer(10));
    assert_eq!(value(inner.get("a")), Some(10));
    assert_eq!(value(inner.get("b")), Some(2));
    assert_eq!(value(inner.get("c")), None);
}

#[test]
fn try_set_refuses_a_name_of_the_same_scope() {
    let mut env = Environment::new(None);
    assert_eq!(env.try_set("a".to_string(), integer(1)), Ok(()));
    assert_eq!(
        env.try_set("a".to_string(), integer(2)),
        Err("`a` is already defined".to_string())
    );
    assert_eq!(value(env.get("a")), Some(1));
    assert_eq!(env.try_set("b".to_string(), integer(3)), Ok(()));
    assert_eq!(value(env.get("b")), Some(3));
}

#[test]
fn try_set_may_shadow_an_outer_scope() {
    let mut outer = Environment::new(None);
    outer.set("a".to_string(), integer(1));
    let mut inner = Environment::new(Some(Rc::new(outer)));
    assert_eq!(inner.try_set("a".to_string(), integer(2)), Ok(()));
    assert_eq!(value(inner.get("a")), Some(2));
    assert_eq!(
        inner.try_set("a".to_string(), integer(3)),
        Err("`a` is already defined".to_string())
    );
}

#[test]
fn set_outer_puts_scopes_round_the_outermost() {
    let mut global = Environment::new(None);
    global.set("a".to_string(), integer(1));
    global.set("g".to_string(), integer(7));

    let mut captured_outer = Environment::new(None);
    captured_outer.set("a".to_string(), integer(2));
    let mut captured = Environment::new(Some(Rc::new(captured_outer)));
    captured.set("c".to_string(), integer(3));

    captured.set_outer(Some(Rc::new(global)));
    assert_eq!(value(captured.get("c")), Some(3));
    // the scopes that were there before come first
    assert_eq!(value(captured.get("a")), Some(2));
    // the new scopes are reached behind them
    assert_eq!(value(captured.get("g")), Some(7));
    assert_eq!(value(captured.get("x")), None);
}

#[test]
fn set_outer_with_nothing_changes_nothing() {
    let mut env = Environment::new(None);
    env.set("a".to_string(), integer(1));
    env.set_outer(None);
    assert_eq!(value(env.get("a")), Some(1));
    assert_eq!(value(env.get("b")), None);
}

#[test]
fn a_clone_holds_the_same_bindings_and_goes_its_own_way() {
    let mut env = Environment::new(None);
    env.set("a".to_string(), integer(1));
    let mut copy = env.clone();
    assert_eq!(value(copy.get("a")), Some(1));
    copy.set("b".to_string(), integer(2));
    assert_eq!(value(copy.get("b")), Some(2));
    assert_eq!(value(env.get("b")), None);
}
