use relm_test::{label_text_of, AppInput, AppModel};

#[test]
fn test_counter() {
    let mut model = AppModel::init(0);
    model.update(AppInput::Increment);
    assert!(model.label_text() == "Counter: 1");
    model.update(AppInput::Decrement);
    model.update(AppInput::Decrement);
    assert!(model.label_text() == "Counter: 255");
}

#[test]
fn increment_wraps_255_to_0() {
    let mut model = AppModel::init(255);
    model.increment();
    assert_eq!(model.current(), 0);
}

#[test]
fn decrement_wraps_0_to_255() {
    let mut model = AppModel::init(0);
    model.decrement();
    assert_eq!(model.current(), 255);
}

#[test]
fn increment_then_decrement_restores_every_value() {
    for v in 0..=255u8 {
        let mut model = AppModel::init(v);
        model.increment();
        model.decrement();
        assert_eq!(model.current(), v);
        model.decrement();
        model.increment();
        assert_eq!(model.current(), v);
    }
}

#[test]
fn label_follows_net_delta() {
    let inputs = [
        AppInput::Increment,
        AppInput::Increment,
        AppInput::Decrement,
        AppInput::NoOp,
        AppInput::Increment,
    ];
    let mut model = AppModel::init(254);
    for m in inputs {
        model.update(m);
    }
    assert_eq!(model.current(), 0);
    assert_eq!(model.label_text(), "Counter: 0");
}

#[test]
fn no_op_keeps_label() {
    let mut model = AppModel::init(42);
    let before = model.label_text();
    model.update(AppInput::NoOp);
    assert_eq!(model.label_text(), before);
    assert_eq!(model.label_text(), "Counter: 42");
}

#[test]
fn read_is_idempotent() {
    let model = AppModel::init(7);
    assert_eq!(model.current(), 7);
    assert_eq!(model.current(), 7);
}

#[test]
fn default_starts_at_zero() {
    let model = AppModel::default();
    assert_eq!(model.current(), 0);
    assert_eq!(model.label_text(), "Counter: 0");
}

#[test]
fn label_digits() {
    assert_eq!(label_text_of(0), "Counter: 0");
    assert_eq!(label_text_of(9), "Counter: 9");
    assert_eq!(label_text_of(10), "Counter: 10");
    assert_eq!(label_text_of(99), "Counter: 99");
    assert_eq!(label_text_of(100), "Counter: 100");
    assert_eq!(label_text_of(205), "Counter: 205");
    assert_eq!(label_text_of(255), "Counter: 255");
}

#[test]
fn label_matches_format_for_every_value() {
    for v in 0..=255u8 {
        assert_eq!(label_text_of(v), format!("Counter: {}", v));
    }
}
