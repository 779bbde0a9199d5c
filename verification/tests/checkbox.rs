use frame::toggle::Checkbox;

#[test]
fn checkbox_toggle() {
    let mut cb = Checkbox::new("Accept");
    assert!(!cb.is_checked());
    cb.toggle();
    assert!(cb.is_checked());
    cb.toggle();
    assert!(!cb.is_checked());
}

#[test]
fn checkbox_set() {
    let mut cb = Checkbox::new("Terms");
    cb.set_checked(true);
    assert!(cb.is_checked());
}

#[test]
fn checkbox_on_change() {
    // The listener is told each value that `toggle` answers with.
    let mut states = Vec::new();
    let mut cb = Checkbox::new("Test");
    states.push(cb.toggle());
    states.push(cb.toggle());
    assert_eq!(states.len(), 2);
    assert_eq!(states, vec![true, false]);
}

#[test]
fn checkbox_label_and_builder() {
    let cb = Checkbox::new("Label").checked(true);
    assert_eq!(cb.label(), "Label");
    assert!(cb.is_checked());
}

#[test]
fn checkbox_set_answers_new_value() {
    let mut cb = Checkbox::new("x").checked(true);
    assert!(!cb.set_checked(false));
    assert!(!cb.is_checked());
}

#[test]
fn checkbox_toggle_twice_restores() {
    let mut c = Checkbox::new("Remember me").checked(true);
    assert!(!c.toggle());
    assert!(c.toggle());
    assert!(c.is_checked());
    assert_eq!(c.label(), "Remember me");
}
