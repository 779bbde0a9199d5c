use frame::{Button, ButtonListener, GestureKind};

#[test]
fn button_on_press_callback() {
    let mut called = false;
    let button = Button::new("Click me");
    if button.process_gesture(GestureKind::Tap) == Some(ButtonListener::Click) {
        called = true;
    }
    assert!(called);
}

#[test]
fn button_on_double_tap_callback() {
    let mut double_tapped = false;
    let button = Button::new("Double tap").on_double_tap();
    if button.process_gesture(GestureKind::DoubleTap) == Some(ButtonListener::DoubleTap) {
        double_tapped = true;
    }
    assert!(double_tapped);
}

#[test]
fn button_on_long_press_callback() {
    let mut long_pressed = false;
    let button = Button::new("Long press").on_long_press();
    if button.process_gesture(GestureKind::LongPress) == Some(ButtonListener::LongPress) {
        long_pressed = true;
    }
    assert!(long_pressed);
}

#[test]
fn button_no_callback_no_panic() {
    let button = Button::new("No callback");
    assert_eq!(button.process_gesture(GestureKind::Tap), Some(ButtonListener::Click));
    assert_eq!(button.process_gesture(GestureKind::DoubleTap), None);
    assert_eq!(button.process_gesture(GestureKind::LongPress), None);
}

#[test]
fn button_click_listener_handed_over_once() {
    let mut button = Button::new("Go");
    assert_eq!(button.label(), "Go");
    assert!(button.trigger_click());
    assert!(button.take_click());
    assert!(!button.trigger_click());
    assert_eq!(button.process_gesture(GestureKind::Tap), None);
    assert_eq!(button.process_gesture(GestureKind::Other), None);
}
