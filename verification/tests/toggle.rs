use frame::toggle::{Switch, Toggle};

#[test]
fn toggle_switch() {
    let mut t = Toggle::new();
    assert!(!t.is_on());
    t.toggle();
    assert!(t.is_on());
}

#[test]
fn toggle_set() {
    let mut t = Toggle::new().on(true);
    assert!(t.is_on());
    t.set_on(false);
    assert!(!t.is_on());
}

#[test]
fn toggle_twice_restores() {
    let mut t = Toggle::default();
    assert!(t.toggle());
    assert!(!t.toggle());
    assert!(!t.is_on());
}

#[test]
fn switch_toggle_and_set() {
    let mut s = Switch::new(true);
    assert!(s.is_on());
    assert!(!s.toggle());
    assert!(!s.is_on());
    assert!(s.set_value(true));
    assert!(s.is_on());
}
